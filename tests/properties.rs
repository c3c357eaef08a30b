use divbuf::access::{admits_reader, has_writers, NO_ACCESS, ONE_READER, ONE_WRITER};
use divbuf::window::{
    copy_window, extend_window, overwrite_window, read_window, reserve_window, resize_window,
    truncate_window, write_window,
};
use divbuf::{DivBufShared, ErrorKind, Window};

#[test]
fn whole_read_view_reads_all_bytes() {
    let v: Vec<u8> = (0..=255).collect();
    let dbs = DivBufShared::from(v.clone());
    let db = dbs.try_const().unwrap();
    assert_eq!(db.len(), 256);
    assert_eq!(db.to_vec(), v);
}

#[test]
fn every_slice_reads_its_subrange() {
    let v = vec![10u8, 11, 12, 13, 14, 15, 16];
    let dbs = DivBufShared::from(v.clone());
    let db = dbs.try_const().unwrap();
    for b in 0..=v.len() {
        for e in b..=v.len() {
            assert_eq!(db.slice(b, e).to_vec(), v[b..e].to_vec());
        }
    }
}

#[test]
fn split_off_then_unsplit_restores_every_cut() {
    let v = vec![1u8, 2, 3, 4, 5];
    let dbs = DivBufShared::from(v.clone());
    let mut db = dbs.try_const().unwrap();
    for at in 0..=v.len() {
        let right = db.split_off(at);
        assert_eq!(db.to_vec(), v[..at].to_vec());
        assert_eq!(right.to_vec(), v[at..].to_vec());
        assert!(db.unsplit(right).is_ok());
        assert_eq!(db.len(), v.len());
        assert_eq!(db.to_vec(), v);
    }
}

#[test]
fn split_to_then_unsplit_restores_every_cut() {
    let v = vec![1u8, 2, 3, 4, 5];
    let dbs = DivBufShared::from(v.clone());
    let mut dbm = dbs.try_mut().unwrap();
    for at in 0..=v.len() {
        let mut left = dbm.split_to(at);
        assert!(left.unsplit(dbm).is_ok());
        dbm = left;
        assert_eq!(dbm.to_vec(), v);
    }
}

#[test]
fn readers_and_writers_exclude_each_other() {
    let dbs = DivBufShared::from(vec![1, 2, 3]);
    let db = dbs.try_const().unwrap();
    let err = dbs.try_mut().unwrap_err();
    assert_eq!(err.kind(), ErrorKind::AccessConflict);
    let dbi = db.clone_inaccessible();
    assert!(dbi.try_mut().is_err());
    drop(db);
    let dbm = dbs.try_mut().unwrap();
    assert_eq!(dbs.try_const().unwrap_err().kind(), ErrorKind::AccessConflict);
    assert!(dbi.try_const().is_err());
    // A failed read admission leaves the word as it was: once the writer
    // goes, readers are admitted again.
    drop(dbm);
    assert!(dbs.try_const().is_ok());
    assert!(dbi.try_const().is_ok());
}

#[test]
fn inert_handles_do_not_keep_writers_out() {
    let dbs = DivBufShared::from(vec![1, 2, 3]);
    let dbm = dbs.try_mut().unwrap();
    let dbi = dbm.clone_inaccessible();
    let dbi2 = dbi.clone();
    drop(dbm);
    let dbm = dbi2.try_mut().unwrap();
    assert_eq!(dbm.to_vec(), vec![1, 2, 3]);
}

#[test]
fn upgrade_needs_the_sole_reader() {
    let dbs = DivBufShared::from(vec![1, 2, 3, 4]);
    let mut db = dbs.try_const().unwrap();
    let other = db.split_off(2);
    let db = db.try_mut().unwrap_err();
    assert_eq!(db.to_vec(), vec![1, 2]);
    drop(other);
    let dbm = db.try_mut().unwrap();
    assert_eq!(dbm.len(), 2);
    assert_eq!(dbm.to_vec(), vec![1, 2]);
    // While the upgraded view lives, no reader gets in.
    assert!(dbs.try_const().is_err());
    drop(dbm);
    assert!(dbs.try_const().is_ok());
}

#[test]
fn failed_unsplit_changes_nothing() {
    let dbs0 = DivBufShared::from(vec![1, 2, 3, 4, 5, 6]);
    let dbs1 = DivBufShared::from(vec![7, 8, 9]);
    let db0 = dbs0.try_const().unwrap();
    let mut left = db0.slice_to(2);
    // A gap between the two views.
    let gap = left.unsplit(db0.slice_from(3)).unwrap_err();
    assert_eq!(gap.to_vec(), vec![4, 5, 6]);
    assert_eq!(left.to_vec(), vec![1, 2]);
    // Overlapping views.
    let overlap = left.unsplit(db0.slice_from(1)).unwrap_err();
    assert_eq!(overlap.to_vec(), vec![2, 3, 4, 5, 6]);
    assert_eq!(left.to_vec(), vec![1, 2]);
    // A view of another buffer that happens to start at the right offset.
    let mut other = dbs1.try_const().unwrap();
    let tail = other.split_off(2);
    assert_eq!(tail.to_vec(), vec![9]);
    let foreign = left.unsplit(tail).unwrap_err();
    assert_eq!(foreign.to_vec(), vec![9]);
    assert_eq!(left.to_vec(), vec![1, 2]);
    assert_eq!(left.len(), 2);
}

#[test]
fn non_terminal_views_cannot_change_the_length() {
    let dbs = DivBufShared::from(vec![1, 2, 3, 4, 5, 6]);
    {
        let mut dbm = dbs.try_mut().unwrap();
        let mut left = dbm.split_to(3);
        assert_eq!(left.try_extend(&[9]).unwrap_err().kind(), ErrorKind::NonTerminal);
        assert_eq!(left.try_resize(1, 0).unwrap_err().kind(), ErrorKind::NonTerminal);
        assert_eq!(left.try_truncate(1).unwrap_err().kind(), ErrorKind::NonTerminal);
        assert_eq!(left.reserve(10).unwrap_err().kind(), ErrorKind::NonTerminal);
        assert_eq!(left.write(&[9]).unwrap_err().kind(), ErrorKind::NonTerminal);
        assert_eq!(left.len(), 3);
        assert_eq!(dbs.len(), 6);
        // The terminal half may.
        dbm.try_extend(&[7, 8]).unwrap();
        assert_eq!(dbm.len(), 5);
    }
    let db = dbs.try_const().unwrap();
    assert_eq!(db.to_vec(), vec![1, 2, 3, 4, 5, 6, 7, 8]);
}

#[test]
fn scenario_split_unsplit_and_second_writer() {
    let dbs = DivBufShared::from(vec![1, 2, 3, 4, 5, 6]);
    let mut left = dbs.try_mut().unwrap();
    let right = left.split_off(4);
    assert_eq!(left.to_vec(), vec![1, 2, 3, 4]);
    assert_eq!(right.to_vec(), vec![5, 6]);
    assert!(left.unsplit(right).is_ok());
    assert_eq!(left.to_vec(), vec![1, 2, 3, 4, 5, 6]);
    assert!(dbs.try_mut().is_err());
    drop(left);
    assert!(dbs.try_mut().is_ok());
}

#[test]
fn scenario_extend_then_split() {
    let dbs = DivBufShared::with_capacity(64);
    let mut dbm = dbs.try_mut().unwrap();
    assert!(dbm.try_extend(&[1, 2, 3]).is_ok());
    assert_eq!(dbm.to_vec(), vec![1, 2, 3]);
    let mut left = dbm.split_to(2);
    assert!(left.try_extend(&[4]).is_err());
    assert_eq!(left.to_vec(), vec![1, 2]);
    assert_eq!(dbm.to_vec(), vec![3]);
}

#[test]
fn new_length_is_seen_by_a_fresh_reader() {
    let dbs = DivBufShared::from(vec![1, 2, 3]);
    {
        let mut dbm = dbs.try_mut().unwrap();
        dbm.try_resize(5, 7).unwrap();
    }
    assert_eq!(dbs.try_const().unwrap().to_vec(), vec![1, 2, 3, 7, 7]);
    {
        let mut dbm = dbs.try_mut().unwrap();
        dbm.try_truncate(2).unwrap();
        assert_eq!(dbm.len(), 2);
    }
    assert_eq!(dbs.try_const().unwrap().to_vec(), vec![1, 2]);
    {
        let mut dbm = dbs.try_mut().unwrap();
        dbm.reserve(100).unwrap();
    }
    assert!(dbs.capacity() >= 102);
    assert_eq!(dbs.try_const().unwrap().to_vec(), vec![1, 2]);
}

#[test]
fn chunks_of_an_uneven_view() {
    let dbs = DivBufShared::from(vec![0, 1, 2, 3, 4, 5, 6, 7]);
    let mut chunks = dbs.try_const().unwrap().into_chunks(3);
    assert_eq!(chunks.size_hint(), (3, Some(3)));
    assert_eq!(chunks.next().unwrap().to_vec(), vec![0, 1, 2]);
    assert_eq!(chunks.next().unwrap().to_vec(), vec![3, 4, 5]);
    assert_eq!(chunks.size_hint(), (1, Some(1)));
    assert_eq!(chunks.next().unwrap().to_vec(), vec![6, 7]);
    assert!(chunks.next().is_none());
    assert_eq!(chunks.size_hint(), (0, Some(0)));
}

#[test]
fn error_messages() {
    let dbs = DivBufShared::from(vec![1]);
    let _dbm = dbs.try_mut().unwrap();
    let e = dbs.try_const().unwrap_err();
    assert_eq!(e.message(), "Cannot create a view while conflicting views are active");
}

#[test]
fn access_word_decisions() {
    assert!(admits_reader(NO_ACCESS));
    assert!(admits_reader(ONE_READER * 7));
    assert!(!admits_reader(ONE_WRITER));
    assert!(!admits_reader(ONE_WRITER + 3 * ONE_READER));
    assert!(has_writers(2 * ONE_WRITER));
    assert!(!has_writers(0xFFFF_FFFF));
    assert_eq!(ONE_WRITER, 1u64 << 32);
}

#[test]
fn window_arithmetic() {
    let w = Window { begin: 2, len: 6 };
    assert_eq!(w.slice(1, 4), Window { begin: 3, len: 3 });
    let mut a = w;
    let b = a.split_off(4);
    assert_eq!(a, Window { begin: 2, len: 4 });
    assert_eq!(b, Window { begin: 6, len: 2 });
    let mut c = w;
    let d = c.split_to(1);
    assert_eq!(d, Window { begin: 2, len: 1 });
    assert_eq!(c, Window { begin: 3, len: 5 });
    assert!(a.unsplit(b));
    assert_eq!(a, w);
    assert!(!a.unsplit(Window { begin: 9, len: 1 }));
    assert_eq!(a, w);
    assert!(w.is_terminal(8));
    assert!(!w.is_terminal(9));
    assert_eq!(Window::whole(5), Window { begin: 0, len: 5 });
}

#[test]
fn window_buffer_operations() {
    let buffer = vec![1u8, 2, 3, 4, 5];
    assert_eq!(copy_window(&buffer, Window { begin: 1, len: 3 }), vec![2, 3, 4]);

    let mut bytes = buffer.clone();
    let mut w = Window { begin: 3, len: 2 };
    assert!(extend_window(&mut bytes, &mut w, &[6, 7]));
    assert_eq!(bytes, vec![1, 2, 3, 4, 5, 6, 7]);
    assert_eq!(w, Window { begin: 3, len: 4 });
    let mut inner = Window { begin: 0, len: 2 };
    assert!(!extend_window(&mut bytes, &mut inner, &[9]));
    assert_eq!(bytes, vec![1, 2, 3, 4, 5, 6, 7]);
    assert_eq!(inner, Window { begin: 0, len: 2 });

    assert!(resize_window(&mut bytes, &mut w, 6, 0));
    assert_eq!(bytes, vec![1, 2, 3, 4, 5, 6, 7, 0, 0]);
    assert_eq!(w.len, 6);
    assert!(resize_window(&mut bytes, &mut w, 1, 0));
    assert_eq!(bytes, vec![1, 2, 3, 4]);
    assert!(!resize_window(&mut bytes, &mut inner, 5, 0));
    assert_eq!(bytes, vec![1, 2, 3, 4]);

    assert!(truncate_window(&mut bytes, &mut w, 3));
    assert_eq!(bytes, vec![1, 2, 3, 4]);
    assert_eq!(w.len, 1);
    assert!(truncate_window(&mut bytes, &mut w, 0));
    assert_eq!(bytes, vec![1, 2, 3]);
    assert_eq!(w.len, 0);
    assert!(!truncate_window(&mut bytes, &mut inner, 0));
    assert_eq!(bytes, vec![1, 2, 3]);

    assert_eq!(reserve_window(&mut bytes, &w, 10), Some(true));
    assert!(bytes.capacity() >= 13);
    assert_eq!(reserve_window(&mut bytes, &inner, 10), None);
    assert_eq!(reserve_window(&mut bytes, &w, usize::MAX), Some(false));

    overwrite_window(&mut bytes, Window { begin: 1, len: 2 }, 1, &[9]);
    assert_eq!(bytes, vec![1, 2, 9]);
}

#[test]
fn window_reads_and_writes_outside_the_buffer() {
    let mut bytes = vec![1u8, 2, 3, 4];
    assert_eq!(read_window(&bytes, Window { begin: 1, len: 2 }), vec![2, 3]);
    assert_eq!(read_window(&bytes, Window { begin: 3, len: 2 }), Vec::<u8>::new());
    assert!(write_window(&mut bytes, Window { begin: 2, len: 2 }, 1, &[9]));
    assert_eq!(bytes, vec![1, 2, 3, 9]);
    assert!(!write_window(&mut bytes, Window { begin: 2, len: 3 }, 0, &[7]));
    assert_eq!(bytes, vec![1, 2, 3, 9]);
}

#[test]
fn upgraded_handle_after_the_buffer_shrank() {
    let dbs = DivBufShared::from(vec![1, 2, 3, 4, 5, 6]);
    let db = dbs.try_const().unwrap();
    let dbi = db.slice_from(4).clone_inaccessible();
    drop(db);
    {
        let mut dbm = dbs.try_mut().unwrap();
        dbm.try_truncate(3).unwrap();
    }
    let stale = dbi.try_const().unwrap();
    assert_eq!(stale.len(), 2);
    assert_eq!(stale.to_vec(), Vec::<u8>::new());
    drop(stale);
    let mut stale_mut = dbi.try_mut().unwrap();
    assert!(!stale_mut.write_at(0, &[9]));
    drop(stale_mut);
    let mut dbm = dbs.try_mut().unwrap();
    assert!(dbm.write_at(2, &[9]));
    assert_eq!(dbm.to_vec(), vec![1, 2, 9]);
}

#[test]
fn try_is_another_name_for_try_const() {
    let dbs = DivBufShared::from(vec![1, 2, 3]);
    assert_eq!(dbs.try_().unwrap().to_vec(), vec![1, 2, 3]);
    let _dbm = dbs.try_mut().unwrap();
    assert_eq!(dbs.try_().unwrap_err().kind(), ErrorKind::AccessConflict);
}
