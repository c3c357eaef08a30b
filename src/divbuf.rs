//! The storage core and the handles onto it.
//!
//! A [`DivBufShared`] creates the storage core: the bytes and the access
//! word.  The core lives as long as any handle on it does.  Read views
//! ([`DivBuf`]), write views ([`DivBufMut`]) and inert handles
//! ([`DivBufInaccessible`]) each hold the core and a [`Window`] onto it.
//!
//! The bytes sit behind a reader-writer lock, which only makes each single
//! read or change of the bytes safe; who may read or change them at all is
//! decided by the access word alone.
use std::sync::atomic::{AtomicU64, Ordering};
use std::sync::{Arc, RwLock, RwLockReadGuard, RwLockWriteGuard};
use vstd::prelude::*;

use crate::access::{admits_reader, NO_ACCESS, ONE_READER, ONE_WRITER};
use crate::window::{
    extend_window, read_window, reserve_window, resize_window, truncate_window, write_window,
    Window,
};

verus! {

#[verifier::external_type_specification]
#[verifier::external_body]
#[verifier::reject_recursive_types(T)]
pub struct ExRwLock<T: ?Sized>(RwLock<T>);

#[verifier::external_type_specification]
#[verifier::external_body]
#[verifier::reject_recursive_types(T)]
pub struct ExRwLockReadGuard<'a, T: ?Sized>(RwLockReadGuard<'a, T>);

#[verifier::external_type_specification]
#[verifier::external_body]
#[verifier::reject_recursive_types(T)]
pub struct ExRwLockWriteGuard<'a, T: ?Sized + 'a>(RwLockWriteGuard<'a, T>);

/// Relies on `RwLock::new`: a lock that holds `bytes`.
#[verifier::external_body]
fn new_lock(bytes: Vec<u8>) -> RwLock<Vec<u8>> {
    RwLock::new(bytes)
}

/// Relies on `RwLock::read`: a shared guard on the bytes.  A lock poisoned by
/// a panic elsewhere is used as it is, since no operation here leaves the
/// bytes half changed.
#[verifier::external_body]
fn lock_shared(lock: &RwLock<Vec<u8>>) -> RwLockReadGuard<'_, Vec<u8>> {
    match lock.read() {
        Ok(guard) => guard,
        Err(poisoned) => poisoned.into_inner(),
    }
}

/// Relies on `RwLock::write`: an exclusive guard on the bytes, poisoned or not.
#[verifier::external_body]
fn lock_exclusive(lock: &RwLock<Vec<u8>>) -> RwLockWriteGuard<'_, Vec<u8>> {
    match lock.write() {
        Ok(guard) => guard,
        Err(poisoned) => poisoned.into_inner(),
    }
}

/// Relies on `Deref` of `RwLockReadGuard`: the bytes that the guard protects.
#[verifier::external_body]
fn shared_bytes<'a>(guard: &'a RwLockReadGuard<'_, Vec<u8>>) -> &'a Vec<u8> {
    guard
}

/// Relies on `DerefMut` of `RwLockWriteGuard`: the bytes that the guard
/// protects, for change.
#[verifier::external_body]
fn exclusive_bytes<'a>(guard: &'a mut RwLockWriteGuard<'_, Vec<u8>>) -> &'a mut Vec<u8> {
    guard
}

/// Relies on `Vec::capacity`, which is never less than the length.
#[verifier::external_body]
fn capacity_of(bytes: &Vec<u8>) -> (r: usize)
    ensures
        r >= bytes@.len(),
{
    bytes.capacity()
}

/// Relies on `Arc::ptr_eq`: two handles on one allocation are one core.
#[verifier::external_body]
fn same_core(a: &Arc<Storage>, b: &Arc<Storage>) -> (r: bool)
    ensures
        r ==> a == b,
{
    Arc::ptr_eq(a, b)
}

/// Relies on `AtomicU64::fetch_sub`, which wraps instead of panicking and
/// never blocks: gives back `unit` of the access word on a view's drop.
#[verifier::external_body]
fn release_access(word: &AtomicU64, unit: u64)
    opens_invariants none
    no_unwind
{
    word.fetch_sub(unit, Ordering::Release);
}

/// What went wrong, for an operation that returns [`Error`].
#[derive(Clone, Copy, Debug, PartialEq, Eq, Structural)]
pub enum ErrorKind {
    /// Readers and writers would have coexisted: a read view was asked for
    /// while a write view lives, or a write view while any view lives.
    AccessConflict,
    /// A length-changing operation was asked of a write view that does not
    /// reach the end of the buffer.
    NonTerminal,
    /// The buffer could not grow by the amount asked for.
    CapacityOverflow,
}

/// The error type of the buffer's fallible operations.
#[derive(Clone, Copy, Debug, PartialEq, Eq, Structural)]
pub struct Error {
    pub kind: ErrorKind,
}

impl Error {
    /// An error of the given kind.
    pub fn new(kind: ErrorKind) -> (r: Error)
        ensures
            r.kind == kind,
    {
        Error { kind }
    }

    /// What went wrong.
    pub fn kind(&self) -> (r: ErrorKind)
        ensures
            r == self.kind,
    {
        self.kind
    }

    /// A sentence that says what went wrong.
    pub fn message(&self) -> &'static str {
        match self.kind {
            ErrorKind::AccessConflict => "Cannot create a view while conflicting views are active",
            ErrorKind::NonTerminal => "Can't change the length from the middle of a buffer",
            ErrorKind::CapacityOverflow => "Can't grow the buffer by that much",
        }
    }
}

/// The storage core: the bytes and the access word (readers in its low half,
/// writers in its high half).  Every handle holds the core through an `Arc`,
/// whose own reference count is the count of handles that keep the core
/// alive: the core is freed once, when the last owner, view or inert handle
/// goes.
#[derive(Debug)]
pub struct Storage {
    bytes: RwLock<Vec<u8>>,
    accessors: AtomicU64,
}

/// The owner of a buffer.  It cannot read or write the bytes itself; it
/// hands out the first read or write view onto the whole buffer.
#[derive(Debug)]
pub struct DivBufShared {
    inner: Arc<Storage>,
}

/// A read-only view onto a window of a buffer.
#[derive(Debug)]
pub struct DivBuf {
    inner: Arc<Storage>,
    win: Window,
}

/// A read-write view onto a window of a buffer.
#[derive(Debug)]
pub struct DivBufMut {
    inner: Arc<Storage>,
    win: Window,
}

/// A handle on a window of a buffer that grants no access, but can be
/// upgraded to a view that does.  It does not keep writers out.
#[derive(Debug)]
pub struct DivBufInaccessible {
    inner: Arc<Storage>,
    win: Window,
}

impl DivBufShared {
    /// The storage core that this owner created.
    pub closed spec fn storage(&self) -> Arc<Storage> {
        self.inner
    }

    /// A new owner of `bytes`.
    pub fn from_vec(bytes: Vec<u8>) -> (r: DivBufShared) {
        let inner = Storage {
            bytes: new_lock(bytes),
            accessors: AtomicU64::new(NO_ACCESS),
        };
        DivBufShared { inner: Arc::new(inner) }
    }

    /// A new owner of an empty buffer with room for `capacity` bytes.
    pub fn with_capacity(capacity: usize) -> (r: DivBufShared) {
        DivBufShared::from_vec(Vec::with_capacity(capacity))
    }

    /// A new owner of a buffer of `capacity` bytes whose values are not
    /// chosen by the caller.
    pub fn uninitialized(capacity: usize) -> (r: DivBufShared) {
        DivBufShared::from_vec(vec![0u8; capacity])
    }

    /// The number of bytes the buffer can hold without growing.
    pub fn capacity(&self) -> usize {
        let guard = lock_shared(&self.inner.bytes);
        capacity_of(shared_bytes(&guard))
    }

    /// The number of bytes in the buffer.
    pub fn len(&self) -> usize {
        let guard = lock_shared(&self.inner.bytes);
        shared_bytes(&guard).len()
    }

    /// Whether the buffer holds no bytes.
    pub fn is_empty(&self) -> bool {
        let guard = lock_shared(&self.inner.bytes);
        shared_bytes(&guard).len() == 0
    }

    /// A read view onto the whole buffer.  Fails while a write view lives.
    pub fn try_const(&self) -> (r: Result<DivBuf, Error>)
        ensures
            r matches Ok(db) ==> db.storage() == self.storage() && db.window().begin == 0,
            r matches Err(e) ==> e.kind == ErrorKind::AccessConflict,
    {
        let prior = self.inner.accessors.fetch_add(ONE_READER, Ordering::Acquire);
        if admits_reader(prior) {
            let guard = lock_shared(&self.inner.bytes);
            let len = shared_bytes(&guard).len();
            Ok(DivBuf { inner: self.inner.clone(), win: Window::whole(len) })
        } else {
            self.inner.accessors.fetch_sub(ONE_READER, Ordering::Relaxed);
            Err(Error::new(ErrorKind::AccessConflict))
        }
    }

    /// Another name for [`DivBufShared::try_const`].
    pub fn try_(&self) -> (r: Result<DivBuf, Error>)
        ensures
            r matches Ok(db) ==> db.storage() == self.storage() && db.window().begin == 0,
            r matches Err(e) ==> e.kind == ErrorKind::AccessConflict,
    {
        self.try_const()
    }

    /// A write view onto the whole buffer.  Fails while any view lives.
    pub fn try_mut(&self) -> (r: Result<DivBufMut, Error>)
        ensures
            r matches Ok(m) ==> m.storage() == self.storage() && m.window().begin == 0,
            r matches Err(e) ==> e.kind == ErrorKind::AccessConflict,
    {
        if self.inner.accessors.compare_exchange(
            NO_ACCESS,
            ONE_WRITER,
            Ordering::AcqRel,
            Ordering::Acquire,
        ).is_ok() {
            let guard = lock_shared(&self.inner.bytes);
            let len = shared_bytes(&guard).len();
            Ok(DivBufMut { inner: self.inner.clone(), win: Window::whole(len) })
        } else {
            Err(Error::new(ErrorKind::AccessConflict))
        }
    }
}

impl DivBuf {
    #[verifier::type_invariant]
    spec fn inv(&self) -> bool {
        self.win.wf()
    }

    /// The storage core that this view reads.
    pub closed spec fn storage(&self) -> Arc<Storage> {
        self.inner
    }

    /// The part of the buffer that this view reads.
    pub closed spec fn window(&self) -> Window {
        self.win
    }

    /// The length of this view, not of the buffer.
    pub fn len(&self) -> (r: usize)
        ensures
            r == self.window().len,
    {
        self.win.len
    }

    /// Whether this view has length 0.
    pub fn is_empty(&self) -> (r: bool)
        ensures
            r == (self.window().len == 0),
    {
        self.win.len == 0
    }

    /// A new read view onto `[begin, end)` of this one.
    pub fn slice(&self, begin: usize, end: usize) -> (r: DivBuf)
        requires
            begin <= end <= self.window().len,
        ensures
            r.storage() == self.storage(),
            r.window() == self.window().sub(begin as int, end as int),
    {
        proof {
            use_type_invariant(self);
        }
        self.inner.accessors.fetch_add(ONE_READER, Ordering::Relaxed);
        DivBuf { inner: self.inner.clone(), win: self.win.slice(begin, end) }
    }

    /// A new read view onto `[begin, len)` of this one.
    pub fn slice_from(&self, begin: usize) -> (r: DivBuf)
        requires
            begin <= self.window().len,
        ensures
            r.storage() == self.storage(),
            r.window() == self.window().sub(begin as int, self.window().len as int),
    {
        self.slice(begin, self.len())
    }

    /// A new read view onto `[0, end)` of this one.
    pub fn slice_to(&self, end: usize) -> (r: DivBuf)
        requires
            end <= self.window().len,
        ensures
            r.storage() == self.storage(),
            r.window() == self.window().sub(0, end as int),
    {
        self.slice(0, end)
    }

    /// Splits this view in two at `at`: `self` keeps `[0, at)` and the
    /// result reads `[at, len)`.
    pub fn split_off(&mut self, at: usize) -> (r: DivBuf)
        requires
            at <= old(self).window().len,
        ensures
            final(self).storage() == old(self).storage(),
            r.storage() == old(self).storage(),
            final(self).window() == old(self).window().sub(0, at as int),
            r.window() == old(self).window().sub(at as int, old(self).window().len as int),
    {
        proof {
            use_type_invariant(&*self);
        }
        self.inner.accessors.fetch_add(ONE_READER, Ordering::Relaxed);
        let mut win = self.win;
        let right = win.split_off(at);
        self.win = win;
        DivBuf { inner: self.inner.clone(), win: right }
    }

    /// Splits this view in two at `at`: `self` keeps `[at, len)` and the
    /// result reads `[0, at)`.
    pub fn split_to(&mut self, at: usize) -> (r: DivBuf)
        requires
            at <= old(self).window().len,
        ensures
            final(self).storage() == old(self).storage(),
            r.storage() == old(self).storage(),
            final(self).window() == old(self).window().sub(at as int, old(self).window().len as int),
            r.window() == old(self).window().sub(0, at as int),
    {
        proof {
            use_type_invariant(&*self);
        }
        self.inner.accessors.fetch_add(ONE_READER, Ordering::Relaxed);
        let mut win = self.win;
        let left = win.split_to(at);
        self.win = win;
        DivBuf { inner: self.inner.clone(), win: left }
    }

    /// Joins `other` onto the end of this view.  Succeeds only when both read
    /// one storage core and `other` starts where `self` ends; otherwise
    /// `other` comes back unchanged and `self` is left as it was.
    pub fn unsplit(&mut self, other: DivBuf) -> (r: Result<(), DivBuf>)
        ensures
            r is Ok ==> old(self).storage() == other.storage() && old(self).window().adjoins(
                other.window(),
            ) && final(self).storage() == old(self).storage() && final(self).window()
                == old(self).window().joined(other.window()),
            r is Err ==> r == Err::<(), DivBuf>(other) && *final(self) == *old(self),
            !old(self).window().adjoins(other.window()) ==> r is Err,
            old(self).storage() != other.storage() ==> r is Err,
    {
        proof {
            use_type_invariant(&*self);
            use_type_invariant(&other);
        }
        if !same_core(&self.inner, &other.inner) {
            return Err(other);
        }
        let mut win = self.win;
        if win.unsplit(other.win) {
            self.win = win;
            Ok(())
        } else {
            Err(other)
        }
    }

    /// Upgrades this view to a write view over the same window.  Succeeds
    /// only when this is the one view of any kind on its storage core;
    /// otherwise the view comes back unchanged.
    pub fn try_mut(self) -> (r: Result<DivBufMut, DivBuf>)
        ensures
            r matches Ok(m) ==> m.storage() == self.storage() && m.window() == self.window(),
            r matches Err(b) ==> b == self,
    {
        proof {
            use_type_invariant(&self);
        }
        if self.inner.accessors.compare_exchange(
            ONE_READER,
            ONE_WRITER,
            Ordering::AcqRel,
            Ordering::Acquire,
        ).is_ok() {
            // `self` gives back one reader unit when it drops below; this
            // unit stands for it, so that the word keeps just the writer.
            self.inner.accessors.fetch_add(ONE_READER, Ordering::Relaxed);
            Ok(DivBufMut { inner: self.inner.clone(), win: self.win })
        } else {
            Err(self)
        }
    }

    /// An inert handle on the same window, which keeps the storage core
    /// alive but grants no access.
    pub fn clone_inaccessible(&self) -> (r: DivBufInaccessible)
        ensures
            r.storage() == self.storage(),
            r.window() == self.window(),
    {
        proof {
            use_type_invariant(self);
        }
        DivBufInaccessible { inner: self.inner.clone(), win: self.win }
    }

    /// A copy of the bytes that this view reads.  The copy is empty when
    /// the window no longer lies inside the buffer, as happens to a view
    /// upgraded from an inert handle after the buffer was shortened.
    pub fn to_vec(&self) -> (r: Vec<u8>)
        ensures
            r@.len() == 0 || r@.len() == self.window().len,
    {
        let guard = lock_shared(&self.inner.bytes);
        read_window(shared_bytes(&guard), self.win)
    }
}

impl Clone for DivBuf {
    /// A new read view onto the same window.
    fn clone(&self) -> (r: DivBuf)
        ensures
            r.storage() == self.storage(),
            r.window() == self.window(),
    {
        self.slice_from(0)
    }
}

impl Drop for DivBuf {
    fn drop(&mut self)
        opens_invariants none
        no_unwind
    {
        release_access(&self.inner.accessors, ONE_READER);
    }
}

} // verus!

verus! {

impl DivBufMut {
    #[verifier::type_invariant]
    spec fn inv(&self) -> bool {
        self.win.wf()
    }

    /// The storage core that this view writes.
    pub closed spec fn storage(&self) -> Arc<Storage> {
        self.inner
    }

    /// The part of the buffer that this view writes.
    pub closed spec fn window(&self) -> Window {
        self.win
    }

    /// The length of this view, not of the buffer.
    pub fn len(&self) -> (r: usize)
        ensures
            r == self.window().len,
    {
        self.win.len
    }

    /// Whether this view has length 0.
    pub fn is_empty(&self) -> (r: bool)
        ensures
            r == (self.window().len == 0),
    {
        self.win.len == 0
    }

    /// Splits this view in two at `at`: `self` keeps `[0, at)` and the
    /// result writes `[at, len)`.
    pub fn split_off(&mut self, at: usize) -> (r: DivBufMut)
        requires
            at <= old(self).window().len,
        ensures
            final(self).storage() == old(self).storage(),
            r.storage() == old(self).storage(),
            final(self).window() == old(self).window().sub(0, at as int),
            r.window() == old(self).window().sub(at as int, old(self).window().len as int),
    {
        proof {
            use_type_invariant(&*self);
        }
        self.inner.accessors.fetch_add(ONE_WRITER, Ordering::Relaxed);
        let mut win = self.win;
        let right = win.split_off(at);
        self.win = win;
        DivBufMut { inner: self.inner.clone(), win: right }
    }

    /// Splits this view in two at `at`: `self` keeps `[at, len)` and the
    /// result writes `[0, at)`.
    pub fn split_to(&mut self, at: usize) -> (r: DivBufMut)
        requires
            at <= old(self).window().len,
        ensures
            final(self).storage() == old(self).storage(),
            r.storage() == old(self).storage(),
            final(self).window() == old(self).window().sub(at as int, old(self).window().len as int),
            r.window() == old(self).window().sub(0, at as int),
    {
        proof {
            use_type_invariant(&*self);
        }
        self.inner.accessors.fetch_add(ONE_WRITER, Ordering::Relaxed);
        let mut win = self.win;
        let left = win.split_to(at);
        self.win = win;
        DivBufMut { inner: self.inner.clone(), win: left }
    }

    /// Joins `other` onto the end of this view.  Succeeds only when both
    /// write one storage core and `other` starts where `self` ends;
    /// otherwise `other` comes back unchanged and `self` is left as it was.
    pub fn unsplit(&mut self, other: DivBufMut) -> (r: Result<(), DivBufMut>)
        ensures
            r is Ok ==> old(self).storage() == other.storage() && old(self).window().adjoins(
                other.window(),
            ) && final(self).storage() == old(self).storage() && final(self).window()
                == old(self).window().joined(other.window()),
            r is Err ==> r == Err::<(), DivBufMut>(other) && *final(self) == *old(self),
            !old(self).window().adjoins(other.window()) ==> r is Err,
            old(self).storage() != other.storage() ==> r is Err,
    {
        proof {
            use_type_invariant(&*self);
            use_type_invariant(&other);
        }
        if !same_core(&self.inner, &other.inner) {
            return Err(other);
        }
        let mut win = self.win;
        if win.unsplit(other.win) {
            self.win = win;
            Ok(())
        } else {
            Err(other)
        }
    }

    /// Turns this view into a read view over the same window.  Always
    /// succeeds.
    pub fn freeze(self) -> (r: DivBuf)
        ensures
            r.storage() == self.storage(),
            r.window() == self.window(),
    {
        proof {
            use_type_invariant(&self);
        }
        self.inner.accessors.fetch_add(ONE_READER, Ordering::Relaxed);
        DivBuf { inner: self.inner.clone(), win: self.win }
    }

    /// An inert handle on the same window, which keeps the storage core
    /// alive but grants no access.
    pub fn clone_inaccessible(&self) -> (r: DivBufInaccessible)
        ensures
            r.storage() == self.storage(),
            r.window() == self.window(),
    {
        proof {
            use_type_invariant(self);
        }
        DivBufInaccessible { inner: self.inner.clone(), win: self.win }
    }

    /// A copy of the bytes that this view covers.  The copy is empty when
    /// the window no longer lies inside the buffer, as happens to a view
    /// upgraded from an inert handle after the buffer was shortened.
    pub fn to_vec(&self) -> (r: Vec<u8>)
        ensures
            r@.len() == 0 || r@.len() == self.window().len,
    {
        let guard = lock_shared(&self.inner.bytes);
        read_window(shared_bytes(&guard), self.win)
    }

    /// Overwrites the bytes of this view from offset `at` on with `data`, and
    /// returns whether it did.  Nothing is written when the window no longer
    /// lies inside the buffer, as happens to a view upgraded from an inert
    /// handle after the buffer was shortened.
    pub fn write_at(&mut self, at: usize, data: &[u8]) -> (r: bool)
        requires
            at + data@.len() <= old(self).window().len,
        ensures
            *final(self) == *old(self),
    {
        let mut guard = lock_exclusive(&self.inner.bytes);
        write_window(exclusive_bytes(&mut guard), self.win, at, data)
    }

    /// Appends `data` to the buffer.  Only a terminal view, one that reaches
    /// the end of the buffer, may do so; any other fails and changes nothing.
    pub fn try_extend(&mut self, data: &[u8]) -> (r: Result<(), Error>)
        ensures
            r is Ok ==> final(self).storage() == old(self).storage() && final(self).window()
                == old(self).window().with_len(old(self).window().len + data@.len()),
            r matches Err(e) ==> e.kind == ErrorKind::NonTerminal && *final(self) == *old(self),
    {
        let mut guard = lock_exclusive(&self.inner.bytes);
        let bytes = exclusive_bytes(&mut guard);
        let mut win = self.win;
        if extend_window(bytes, &mut win, data) {
            self.win = win;
            Ok(())
        } else {
            Err(Error::new(ErrorKind::NonTerminal))
        }
    }

    /// Resizes the buffer so that this view holds `new_len` bytes, filling
    /// new positions with `value`.  Only a terminal view may do so; any
    /// other fails and changes nothing.
    pub fn try_resize(&mut self, new_len: usize, value: u8) -> (r: Result<(), Error>)
        requires
            old(self).window().begin + new_len <= usize::MAX,
        ensures
            r is Ok ==> final(self).storage() == old(self).storage() && final(self).window()
                == old(self).window().with_len(new_len as int),
            r matches Err(e) ==> e.kind == ErrorKind::NonTerminal && *final(self) == *old(self),
    {
        let mut guard = lock_exclusive(&self.inner.bytes);
        let bytes = exclusive_bytes(&mut guard);
        let mut win = self.win;
        if resize_window(bytes, &mut win, new_len, value) {
            self.win = win;
            Ok(())
        } else {
            Err(Error::new(ErrorKind::NonTerminal))
        }
    }

    /// Shortens the buffer so that this view keeps its first `len` bytes; a
    /// `len` at or past the view's length changes nothing.  Only a terminal
    /// view may do so; any other fails and changes nothing.
    pub fn try_truncate(&mut self, len: usize) -> (r: Result<(), Error>)
        ensures
            r is Ok && len < old(self).window().len ==> final(self).window() == old(
                self,
            ).window().with_len(len as int),
            r is Ok && len >= old(self).window().len ==> *final(self) == *old(self),
            r is Ok ==> final(self).storage() == old(self).storage(),
            r matches Err(e) ==> e.kind == ErrorKind::NonTerminal && *final(self) == *old(self),
    {
        proof {
            use_type_invariant(&*self);
        }
        let mut guard = lock_exclusive(&self.inner.bytes);
        let bytes = exclusive_bytes(&mut guard);
        let mut win = self.win;
        if truncate_window(bytes, &mut win, len) {
            self.win = win;
            Ok(())
        } else {
            Err(Error::new(ErrorKind::NonTerminal))
        }
    }

    /// Makes room for at least `additional` more bytes.  Only a terminal view
    /// may do so; any other fails.  The view never changes.
    pub fn reserve(&mut self, additional: usize) -> (r: Result<(), Error>)
        ensures
            *final(self) == *old(self),
            r matches Err(e) ==> e.kind == ErrorKind::NonTerminal || e.kind
                == ErrorKind::CapacityOverflow,
    {
        let mut guard = lock_exclusive(&self.inner.bytes);
        let bytes = exclusive_bytes(&mut guard);
        match reserve_window(bytes, &self.win, additional) {
            None => Err(Error::new(ErrorKind::NonTerminal)),
            Some(false) => Err(Error::new(ErrorKind::CapacityOverflow)),
            Some(true) => Ok(()),
        }
    }
}

impl DivBufMut {
    /// Appends all of `data`, as [`DivBufMut::try_extend`] does, and returns
    /// how many bytes were written.
    pub fn write(&mut self, data: &[u8]) -> (r: Result<usize, Error>)
        ensures
            r is Ok ==> r == Ok::<usize, Error>(data@.len() as usize) && final(self).storage()
                == old(self).storage() && final(self).window() == old(self).window().with_len(
                old(self).window().len + data@.len(),
            ),
            r matches Err(e) ==> e.kind == ErrorKind::NonTerminal && *final(self) == *old(self),
    {
        match self.try_extend(data) {
            Ok(()) => Ok(data.len()),
            Err(e) => Err(e),
        }
    }

    /// Appends all of `data`, as [`DivBufMut::try_extend`] does.
    pub fn write_all(&mut self, data: &[u8]) -> (r: Result<(), Error>)
        ensures
            r is Ok ==> final(self).storage() == old(self).storage() && final(self).window()
                == old(self).window().with_len(old(self).window().len + data@.len()),
            r matches Err(e) ==> e.kind == ErrorKind::NonTerminal && *final(self) == *old(self),
    {
        self.try_extend(data)
    }

    /// Writes nothing: every write reaches the buffer at once.
    pub fn flush(&mut self) -> (r: Result<(), Error>)
        ensures
            r is Ok,
            *final(self) == *old(self),
    {
        Ok(())
    }
}

impl Drop for DivBufMut {
    fn drop(&mut self)
        opens_invariants none
        no_unwind
    {
        release_access(&self.inner.accessors, ONE_WRITER);
    }
}

impl DivBufInaccessible {
    #[verifier::type_invariant]
    spec fn inv(&self) -> bool {
        self.win.wf()
    }

    /// The storage core that this handle keeps alive.
    pub closed spec fn storage(&self) -> Arc<Storage> {
        self.inner
    }

    /// The part of the buffer that this handle names.
    pub closed spec fn window(&self) -> Window {
        self.win
    }

    /// A read view onto this handle's window.  Fails while a write view
    /// lives.
    pub fn try_const(&self) -> (r: Result<DivBuf, Error>)
        ensures
            r matches Ok(db) ==> db.storage() == self.storage() && db.window() == self.window(),
            r matches Err(e) ==> e.kind == ErrorKind::AccessConflict,
    {
        proof {
            use_type_invariant(self);
        }
        let prior = self.inner.accessors.fetch_add(ONE_READER, Ordering::Acquire);
        if admits_reader(prior) {
            Ok(DivBuf { inner: self.inner.clone(), win: self.win })
        } else {
            self.inner.accessors.fetch_sub(ONE_READER, Ordering::Relaxed);
            Err(Error::new(ErrorKind::AccessConflict))
        }
    }

    /// A write view onto this handle's window.  Fails while any view lives.
    pub fn try_mut(&self) -> (r: Result<DivBufMut, Error>)
        ensures
            r matches Ok(m) ==> m.storage() == self.storage() && m.window() == self.window(),
            r matches Err(e) ==> e.kind == ErrorKind::AccessConflict,
    {
        proof {
            use_type_invariant(self);
        }
        if self.inner.accessors.compare_exchange(
            NO_ACCESS,
            ONE_WRITER,
            Ordering::AcqRel,
            Ordering::Acquire,
        ).is_ok() {
            Ok(DivBufMut { inner: self.inner.clone(), win: self.win })
        } else {
            Err(Error::new(ErrorKind::AccessConflict))
        }
    }
}

impl Clone for DivBufInaccessible {
    /// Another inert handle on the same window.
    fn clone(&self) -> (r: DivBufInaccessible)
        ensures
            r.storage() == self.storage(),
            r.window() == self.window(),
    {
        proof {
            use_type_invariant(self);
        }
        DivBufInaccessible { inner: self.inner.clone(), win: self.win }
    }
}

} // verus!

verus! {

/// The length of the next chunk: a full `size`, or what is left.
pub open spec fn chunk_len(size: usize, left: usize) -> usize {
    if size < left {
        size
    } else {
        left
    }
}

/// How many chunks of `size` bytes cover `len` bytes, the last one possibly
/// short.
pub open spec fn chunk_count(len: usize, size: usize) -> int
    recommends
        size > 0,
{
    len as int / size as int + if len as int % size as int == 0 {
        0int
    } else {
        1int
    }
}

/// The chunks of a read view, front to back, each a read view of its own.
#[derive(Debug)]
pub struct Chunks {
    db: DivBuf,
    chunksize: usize,
}

/// The chunks of a write view, front to back, each a write view of its own.
#[derive(Debug)]
pub struct ChunksMut {
    db: DivBufMut,
    chunksize: usize,
}

impl Chunks {
    /// Chunks have a positive length.
    pub closed spec fn wf(&self) -> bool {
        self.chunksize > 0
    }

    /// The part of the view that has not been handed out yet.
    pub closed spec fn rest(&self) -> DivBuf {
        self.db
    }

    /// The length of a full chunk.
    pub closed spec fn chunk_size(&self) -> usize {
        self.chunksize
    }

    fn new(db: DivBuf, chunksize: usize) -> (r: Chunks)
        requires
            chunksize > 0,
        ensures
            r.wf(),
            r.rest() == db,
            r.chunk_size() == chunksize,
    {
        Chunks { db, chunksize }
    }

    /// The next chunk, or `None` once the view is used up.
    pub fn next(&mut self) -> (r: Option<DivBuf>)
        requires
            old(self).wf(),
        ensures
            final(self).wf(),
            final(self).chunk_size() == old(self).chunk_size(),
            final(self).rest().storage() == old(self).rest().storage(),
            old(self).rest().window().len == 0 ==> r is None && final(self).rest() == old(
                self,
            ).rest(),
            old(self).rest().window().len > 0 ==> r is Some && r->Some_0.storage() == old(
                self,
            ).rest().storage() && r->Some_0.window() == old(self).rest().window().sub(
                0,
                chunk_len(old(self).chunk_size(), old(self).rest().window().len) as int,
            ) && final(self).rest().window() == old(self).rest().window().sub(
                chunk_len(old(self).chunk_size(), old(self).rest().window().len) as int,
                old(self).rest().window().len as int,
            ),
    {
        if self.db.is_empty() {
            None
        } else {
            let left = self.db.len();
            let size = if self.chunksize < left {
                self.chunksize
            } else {
                left
            };
            Some(self.db.split_to(size))
        }
    }

    /// The number of chunks still to come, as a lower and an upper bound
    /// that are both exact.
    pub fn size_hint(&self) -> (r: (usize, Option<usize>))
        requires
            self.wf(),
        ensures
            r.0 == chunk_count(self.rest().window().len, self.chunk_size()),
            r.1 == Some(r.0),
    {
        let len = self.db.len();
        let mut c = len / self.chunksize;
        if len % self.chunksize != 0 {
            let size = self.chunksize;
            assert(len / size < usize::MAX) by (nonlinear_arith)
                requires
                    size > 0,
                    len % size != 0,
                    len <= usize::MAX,
            {
                if size == 1 {
                    assert(len % size == 0);
                }
                assert(len / size <= len / 2);
            }
            c = c + 1;
        }
        (c, Some(c))
    }
}

impl ChunksMut {
    /// Chunks have a positive length.
    pub closed spec fn wf(&self) -> bool {
        self.chunksize > 0
    }

    /// The part of the view that has not been handed out yet.
    pub closed spec fn rest(&self) -> DivBufMut {
        self.db
    }

    /// The length of a full chunk.
    pub closed spec fn chunk_size(&self) -> usize {
        self.chunksize
    }

    fn new(db: DivBufMut, chunksize: usize) -> (r: ChunksMut)
        requires
            chunksize > 0,
        ensures
            r.wf(),
            r.rest() == db,
            r.chunk_size() == chunksize,
    {
        ChunksMut { db, chunksize }
    }

    /// The next chunk, or `None` once the view is used up.
    pub fn next(&mut self) -> (r: Option<DivBufMut>)
        requires
            old(self).wf(),
        ensures
            final(self).wf(),
            final(self).chunk_size() == old(self).chunk_size(),
            final(self).rest().storage() == old(self).rest().storage(),
            old(self).rest().window().len == 0 ==> r is None && final(self).rest() == old(
                self,
            ).rest(),
            old(self).rest().window().len > 0 ==> r is Some && r->Some_0.storage() == old(
                self,
            ).rest().storage() && r->Some_0.window() == old(self).rest().window().sub(
                0,
                chunk_len(old(self).chunk_size(), old(self).rest().window().len) as int,
            ) && final(self).rest().window() == old(self).rest().window().sub(
                chunk_len(old(self).chunk_size(), old(self).rest().window().len) as int,
                old(self).rest().window().len as int,
            ),
    {
        if self.db.is_empty() {
            None
        } else {
            let left = self.db.len();
            let size = if self.chunksize < left {
                self.chunksize
            } else {
                left
            };
            Some(self.db.split_to(size))
        }
    }

    /// The number of chunks still to come, as a lower and an upper bound
    /// that are both exact.
    pub fn size_hint(&self) -> (r: (usize, Option<usize>))
        requires
            self.wf(),
        ensures
            r.0 == chunk_count(self.rest().window().len, self.chunk_size()),
            r.1 == Some(r.0),
    {
        let len = self.db.len();
        let mut c = len / self.chunksize;
        if len % self.chunksize != 0 {
            let size = self.chunksize;
            assert(len / size < usize::MAX) by (nonlinear_arith)
                requires
                    size > 0,
                    len % size != 0,
                    len <= usize::MAX,
            {
                if size == 1 {
                    assert(len % size == 0);
                }
                assert(len / size <= len / 2);
            }
            c = c + 1;
        }
        (c, Some(c))
    }
}

impl DivBuf {
    /// Breaks this view into chunks of `size` bytes, the last one possibly
    /// shorter.
    pub fn into_chunks(self, size: usize) -> (r: Chunks)
        requires
            size != 0,
        ensures
            r.wf(),
            r.rest() == self,
            r.chunk_size() == size,
    {
        Chunks::new(self, size)
    }
}

impl DivBufMut {
    /// Breaks this view into chunks of `size` bytes, the last one possibly
    /// shorter.
    pub fn into_chunks(self, size: usize) -> (r: ChunksMut)
        requires
            size != 0,
        ensures
            r.wf(),
            r.rest() == self,
            r.chunk_size() == size,
    {
        ChunksMut::new(self, size)
    }
}

impl From<Vec<u8>> for DivBufShared {
    /// A new owner of `bytes`; see [`DivBufShared::from_vec`].
    fn from(bytes: Vec<u8>) -> DivBufShared {
        DivBufShared::from_vec(bytes)
    }
}

impl vstd::std_specs::convert::FromSpecImpl<Vec<u8>> for DivBufShared {
    // A new owner's storage core is not a function of the bytes alone.
    open spec fn obeys_from_spec() -> bool {
        false
    }

    open spec fn from_spec(bytes: Vec<u8>) -> DivBufShared {
        arbitrary()
    }
}

impl<'a> From<&'a [u8]> for DivBufShared {
    /// A new owner of a copy of `bytes`.
    fn from(bytes: &'a [u8]) -> DivBufShared {
        let mut copy: Vec<u8> = Vec::new();
        copy.extend_from_slice(bytes);
        DivBufShared::from_vec(copy)
    }
}

impl<'a> vstd::std_specs::convert::FromSpecImpl<&'a [u8]> for DivBufShared {
    // A new owner's storage core is not a function of the bytes alone.
    open spec fn obeys_from_spec() -> bool {
        false
    }

    open spec fn from_spec(bytes: &'a [u8]) -> DivBufShared {
        arbitrary()
    }
}

impl From<DivBufMut> for DivBuf {
    /// The read view that [`DivBufMut::freeze`] makes.
    fn from(m: DivBufMut) -> DivBuf {
        m.freeze()
    }
}

impl vstd::std_specs::convert::FromSpecImpl<DivBufMut> for DivBuf {
    open spec fn obeys_from_spec() -> bool {
        true
    }

    closed spec fn from_spec(m: DivBufMut) -> DivBuf {
        DivBuf { inner: m.inner, win: m.win }
    }
}

} // verus!
