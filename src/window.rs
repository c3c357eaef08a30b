//! Windows onto a byte buffer, and the buffer operations made through them.
//!
//! A window is an offset and a length.  The functions here decide everything
//! that a view does with its range: slicing, splitting, joining, and the
//! length-changing operations that only a window reaching the end of the
//! buffer (a terminal window) may perform.
use vstd::prelude::*;

verus! {

/// `len` bytes of a buffer, starting at offset `begin`.
#[derive(Clone, Copy, Debug, PartialEq, Eq, Structural)]
pub struct Window {
    pub begin: usize,
    pub len: usize,
}

/// The buffer `bytes` resized to `new_len`: cut short, or lengthened with
/// copies of `value`.
pub open spec fn resized(bytes: Seq<u8>, new_len: nat, value: u8) -> Seq<u8> {
    if new_len <= bytes.len() {
        bytes.subrange(0, new_len as int)
    } else {
        bytes + Seq::new((new_len - bytes.len()) as nat, |i: int| value)
    }
}

impl Window {
    /// Offset one past the window's last byte.
    pub open spec fn end(self) -> int {
        self.begin + self.len
    }

    /// The end of the window can be represented as a `usize`.
    pub open spec fn wf(self) -> bool {
        self.end() <= usize::MAX
    }

    /// The window lies inside a buffer of `buffer_len` bytes.
    pub open spec fn within(self, buffer_len: int) -> bool {
        self.end() <= buffer_len
    }

    /// The window reaches exactly the end of a buffer of `buffer_len` bytes.
    pub open spec fn terminal_in(self, buffer_len: int) -> bool {
        self.end() == buffer_len
    }

    /// `next` starts exactly where this window ends.
    pub open spec fn adjoins(self, next: Window) -> bool {
        self.end() == next.begin
    }

    /// The bytes of `buffer` that the window covers.
    pub open spec fn bytes_of(self, buffer: Seq<u8>) -> Seq<u8> {
        buffer.subrange(self.begin as int, self.end())
    }

    /// The part `[from, to)` of this window, counted from its own start.
    pub open spec fn sub(self, from: int, to: int) -> Window {
        Window { begin: (self.begin + from) as usize, len: (to - from) as usize }
    }

    /// This window followed by `next`.
    pub open spec fn joined(self, next: Window) -> Window {
        Window { begin: self.begin, len: (self.len + next.len) as usize }
    }

    /// This window with its length set to `len`.
    pub open spec fn with_len(self, len: int) -> Window {
        Window { begin: self.begin, len: len as usize }
    }

    /// The window `[0, len)`.
    pub fn whole(len: usize) -> (r: Window)
        ensures
            r == (Window { begin: 0, len }),
            r.wf(),
    {
        Window { begin: 0, len }
    }

    /// The part `[from, to)` of this window.
    pub fn slice(&self, from: usize, to: usize) -> (r: Window)
        requires
            self.wf(),
            from <= to <= self.len,
        ensures
            r == self.sub(from as int, to as int),
            r.wf(),
    {
        Window { begin: self.begin + from, len: to - from }
    }

    /// Keeps `[0, at)` in `self` and returns `[at, len)`.
    pub fn split_off(&mut self, at: usize) -> (r: Window)
        requires
            old(self).wf(),
            at <= old(self).len,
        ensures
            *final(self) == old(self).sub(0, at as int),
            r == old(self).sub(at as int, old(self).len as int),
            final(self).wf(),
            r.wf(),
            final(self).adjoins(r),
    {
        let right = Window { begin: self.begin + at, len: self.len - at };
        self.len = at;
        right
    }

    /// Keeps `[at, len)` in `self` and returns `[0, at)`.
    pub fn split_to(&mut self, at: usize) -> (r: Window)
        requires
            old(self).wf(),
            at <= old(self).len,
        ensures
            *final(self) == old(self).sub(at as int, old(self).len as int),
            r == old(self).sub(0, at as int),
            final(self).wf(),
            r.wf(),
            r.adjoins(*final(self)),
    {
        let left = Window { begin: self.begin, len: at };
        self.begin = self.begin + at;
        self.len = self.len - at;
        left
    }

    /// Extends `self` over `next` when `next` starts where `self` ends;
    /// otherwise leaves `self` as it is.
    pub fn unsplit(&mut self, next: Window) -> (r: bool)
        requires
            old(self).wf(),
            next.wf(),
        ensures
            r == old(self).adjoins(next),
            r ==> *final(self) == old(self).joined(next),
            !r ==> *final(self) == *old(self),
            final(self).wf(),
    {
        if self.begin as u128 + self.len as u128 == next.begin as u128 {
            self.len = self.len + next.len;
            true
        } else {
            false
        }
    }

    /// Whether the window reaches exactly the end of a buffer of
    /// `buffer_len` bytes.
    pub fn is_terminal(&self, buffer_len: usize) -> (r: bool)
        ensures
            r == self.terminal_in(buffer_len as int),
    {
        self.begin as u128 + self.len as u128 == buffer_len as u128
    }
}

/// A copy of the bytes that `w` covers in `buffer`.
pub fn copy_window(buffer: &Vec<u8>, w: Window) -> (r: Vec<u8>)
    requires
        w.within(buffer@.len() as int),
    ensures
        r@ == w.bytes_of(buffer@),
{
    let mut out: Vec<u8> = Vec::with_capacity(w.len);
    let n = buffer.len();
    let mut i: usize = 0;
    while i < w.len
        invariant
            n == buffer@.len(),
            w.within(buffer@.len() as int),
            i <= w.len,
            out@ == buffer@.subrange(w.begin as int, w.begin + i),
        decreases w.len - i,
    {
        out.push(buffer[w.begin + i]);
        i = i + 1;
        assert(out@ =~= buffer@.subrange(w.begin as int, w.begin + i));
    }
    assert(out@ =~= w.bytes_of(buffer@));
    out
}

/// Overwrites the bytes of `buffer` from offset `at` of the window `w` on
/// with `data`; the length of the buffer stays the same.
pub fn overwrite_window(buffer: &mut Vec<u8>, w: Window, at: usize, data: &[u8])
    requires
        w.within(old(buffer)@.len() as int),
        at + data@.len() <= w.len,
    ensures
        final(buffer)@ == old(buffer)@.subrange(0, w.begin + at) + data@ + old(
            buffer,
        )@.subrange(w.begin + at + data@.len(), old(buffer)@.len() as int),
{
    let ghost before = buffer@;
    let n = buffer.len();
    let start = w.begin + at;
    let mut i: usize = 0;
    while i < data.len()
        invariant
            n == before.len(),
            start == w.begin + at,
            start + data@.len() <= before.len(),
            i <= data@.len(),
            buffer@.len() == before.len(),
            forall|j: int|
                0 <= j < before.len() ==> #[trigger] buffer@[j] == if start <= j < start + i {
                    data@[j - start]
                } else {
                    before[j]
                },
        decreases data@.len() - i,
    {
        buffer.set(start + i, data[i]);
        i = i + 1;
    }
    assert(buffer@ =~= before.subrange(0, start as int) + data@ + before.subrange(
        start + data@.len(),
        before.len() as int,
    ));
}

/// The bytes that `w` covers in `buffer` when the window lies inside the
/// buffer, and nothing when it does not (a buffer shortened since the window
/// was taken).
pub fn read_window(buffer: &Vec<u8>, w: Window) -> (r: Vec<u8>)
    ensures
        w.within(buffer@.len() as int) ==> r@ == w.bytes_of(buffer@),
        !w.within(buffer@.len() as int) ==> r@.len() == 0,
{
    if w.begin as u128 + w.len as u128 <= buffer.len() as u128 {
        copy_window(buffer, w)
    } else {
        Vec::new()
    }
}

/// Overwrites the bytes of `buffer` from offset `at` of the window `w` on
/// with `data` when the window lies inside the buffer, and returns whether it
/// did; a window outside the buffer changes nothing.
pub fn write_window(buffer: &mut Vec<u8>, w: Window, at: usize, data: &[u8]) -> (r: bool)
    requires
        at + data@.len() <= w.len,
    ensures
        r == w.within(old(buffer)@.len() as int),
        r ==> final(buffer)@ == old(buffer)@.subrange(0, w.begin + at) + data@ + old(
            buffer,
        )@.subrange(w.begin + at + data@.len(), old(buffer)@.len() as int),
        !r ==> final(buffer)@ == old(buffer)@,
{
    if w.begin as u128 + w.len as u128 <= buffer.len() as u128 {
        overwrite_window(buffer, w, at, data);
        true
    } else {
        false
    }
}

/// Appends `data` to `buffer` through `w`, which must be terminal.  Returns
/// whether it was; a non-terminal window changes nothing.
pub fn extend_window(buffer: &mut Vec<u8>, w: &mut Window, data: &[u8]) -> (r: bool)
    ensures
        r == old(w).terminal_in(old(buffer)@.len() as int),
        r ==> final(buffer)@ == old(buffer)@ + data@,
        r ==> *final(w) == old(w).with_len(old(w).len + data@.len()),
        !r ==> final(buffer)@ == old(buffer)@ && *final(w) == *old(w),
        r ==> final(w).wf(),
{
    if w.is_terminal(buffer.len()) {
        let ghost before = buffer@;
        buffer.extend_from_slice(data);
        assert(buffer@ =~= before + data@) by {
            assert forall|i: int| 0 <= i < buffer@.len() implies buffer@[i] == (before
                + data@)[i] by {
                if i >= before.len() {
                    assert(data@[i - before.len()] == buffer@[i]);
                }
            }
        }
        w.len = buffer.len() - w.begin;
        true
    } else {
        false
    }
}

/// Resizes `buffer` through the terminal window `w` so that the window holds
/// `new_len` bytes, filling new positions with `value`.  Returns whether `w`
/// was terminal; a non-terminal window changes nothing.
pub fn resize_window(buffer: &mut Vec<u8>, w: &mut Window, new_len: usize, value: u8) -> (r: bool)
    requires
        old(w).begin + new_len <= usize::MAX,
    ensures
        r == old(w).terminal_in(old(buffer)@.len() as int),
        r ==> final(buffer)@ == resized(old(buffer)@, (old(w).begin + new_len) as nat, value),
        r ==> *final(w) == old(w).with_len(new_len as int),
        !r ==> final(buffer)@ == old(buffer)@ && *final(w) == *old(w),
{
    if w.is_terminal(buffer.len()) {
        let ghost before = buffer@;
        let total = w.begin + new_len;
        buffer.resize(total, value);
        assert(buffer@ =~= resized(before, total as nat, value)) by {
            if total > before.len() {
                assert forall|i: int| 0 <= i < buffer@.len() implies buffer@[i] == resized(
                    before,
                    total as nat,
                    value,
                )[i] by {
                    if i < before.len() {
                        assert(buffer@.subrange(0, before.len() as int)[i] == buffer@[i]);
                    }
                }
            }
        }
        w.len = new_len;
        true
    } else {
        false
    }
}

/// Shortens `buffer` through the terminal window `w` so that the window
/// keeps at most its first `len` bytes.  Returns whether `w` was terminal; a
/// non-terminal window changes nothing.
pub fn truncate_window(buffer: &mut Vec<u8>, w: &mut Window, len: usize) -> (r: bool)
    requires
        old(w).wf(),
    ensures
        r == old(w).terminal_in(old(buffer)@.len() as int),
        r && len < old(w).len ==> final(buffer)@ == old(buffer)@.subrange(0, old(w).begin + len)
            && *final(w) == old(w).with_len(len as int),
        !(r && len < old(w).len) ==> final(buffer)@ == old(buffer)@ && *final(w) == *old(w),
{
    if w.is_terminal(buffer.len()) {
        if len < w.len {
            buffer.truncate(w.begin + len);
            w.len = len;
        }
        true
    } else {
        false
    }
}

/// Asks for room for `additional` more bytes in `buffer` through the terminal
/// window `w`.  Returns `None` when `w` is not terminal, and otherwise
/// whether the room was had.  The bytes and the window never change.
pub fn reserve_window(buffer: &mut Vec<u8>, w: &Window, additional: usize) -> (r: Option<bool>)
    ensures
        r is None <==> !w.terminal_in(old(buffer)@.len() as int),
        final(buffer)@ == old(buffer)@,
{
    if w.is_terminal(buffer.len()) {
        Some(buffer.try_reserve(additional).is_ok())
    } else {
        None
    }
}

/// A window over the whole of a buffer reads exactly the buffer's bytes.
pub proof fn lemma_whole_window_reads_all(buffer: Seq<u8>)
    requires
        buffer.len() <= usize::MAX,
    ensures
        (Window { begin: 0, len: buffer.len() as usize }).bytes_of(buffer) == buffer,
{
    assert((Window { begin: 0, len: buffer.len() as usize }).bytes_of(buffer) =~= buffer);
}

/// The slice `[from, to)` of a window reads bytes `from` to `to` of what the
/// window reads.
pub proof fn lemma_slice_reads_subrange(w: Window, buffer: Seq<u8>, from: int, to: int)
    requires
        w.wf(),
        w.within(buffer.len() as int),
        0 <= from <= to <= w.len,
    ensures
        w.sub(from, to).within(buffer.len() as int),
        w.sub(from, to).bytes_of(buffer) == w.bytes_of(buffer).subrange(from, to),
{
    assert(w.sub(from, to).bytes_of(buffer) =~= w.bytes_of(buffer).subrange(from, to));
}

/// Splitting a window at any `at` and joining the two halves again gives
/// back the window: the halves adjoin, their join is the original range, and
/// together they read the original bytes.  This holds for both `split_off`
/// (which keeps the left half) and `split_to` (which keeps the right half),
/// since both produce these two halves.
pub proof fn lemma_split_then_unsplit(w: Window, at: int, buffer: Seq<u8>)
    requires
        w.wf(),
        0 <= at <= w.len,
        w.within(buffer.len() as int),
    ensures
        w.sub(0, at).adjoins(w.sub(at, w.len as int)),
        w.sub(0, at).joined(w.sub(at, w.len as int)) == w,
        w.sub(0, at).bytes_of(buffer) + w.sub(at, w.len as int).bytes_of(buffer) == w.bytes_of(
            buffer,
        ),
{
    assert(w.sub(0, at).bytes_of(buffer) + w.sub(at, w.len as int).bytes_of(buffer)
        =~= w.bytes_of(buffer));
}

/// Two windows that leave a gap between them, or that overlap, never
/// adjoin, so joining them is refused.
pub proof fn lemma_gap_or_overlap_refused(a: Window, b: Window)
    requires
        b.begin > a.end() || (b.begin < a.end() && a.begin < b.end() && a.len > 0 && b.len > 0),
    ensures
        !a.adjoins(b),
{
}

} // verus!
