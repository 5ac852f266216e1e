use h2core::bufpool::{Buf, BufMut, BufPool, Error};
use h2core::piece::{Piece, PieceList, Roll};

#[test]
fn align_test() {
    assert_eq!(4, std::mem::align_of::<BufMut>());
    assert_eq!(4, std::mem::align_of::<Buf>());
}

#[test]
fn simple_bufpool_test() {
    let mut pool = BufPool::new_empty(4096, 4096);
    let total_bufs = pool.num_free().unwrap();

    let bm = BufMut::allocate(&mut pool).unwrap();

    assert_eq!(total_bufs - 1, pool.num_free().unwrap());
    assert_eq!(bm.len(), 4096);

    bm.write_at(&mut pool, 0, b"hello world");
    assert_eq!(&bm.read_at(&pool, 0, 11)[..], b"hello world");

    let b = bm.freeze();
    assert_eq!(&b.read_at(&pool, 0, 11)[..], b"hello world");
    assert_eq!(total_bufs - 1, pool.num_free().unwrap());

    let b2 = b.clone_in(&mut pool);
    assert_eq!(&b.read_at(&pool, 0, 11)[..], b"hello world");
    assert_eq!(total_bufs - 1, pool.num_free().unwrap());

    b.release(&mut pool);
    assert_eq!(total_bufs - 1, pool.num_free().unwrap());

    b2.release(&mut pool);

    assert_eq!(total_bufs, pool.num_free().unwrap());
}

#[test]
fn pool_out_of_memory() {
    let mut pool = BufPool::new_empty(16, 2);
    let a = BufMut::allocate(&mut pool).unwrap();
    let b = BufMut::allocate(&mut pool).unwrap();
    match BufMut::allocate(&mut pool) {
        Err(Error::OutOfMemory) => {}
        _ => panic!("expected out of memory"),
    }
    a.release(&mut pool);
    let c = BufMut::allocate(&mut pool).unwrap();
    c.release(&mut pool);
    b.release(&mut pool);
    assert_eq!(pool.num_free().unwrap(), 2);
}

#[test]
fn pool_slots_are_independent() {
    let mut pool = BufPool::new_empty(32, 4);
    let a = BufMut::allocate(&mut pool).unwrap();
    let b = BufMut::allocate(&mut pool).unwrap();
    a.write_at(&mut pool, 0, b"aaaa");
    b.write_at(&mut pool, 0, b"bbbb");
    assert_eq!(&a.read_at(&pool, 0, 4)[..], b"aaaa");
    assert_eq!(&b.read_at(&pool, 0, 4)[..], b"bbbb");
    a.release(&mut pool);
    b.release(&mut pool);
}

#[test]
fn roll_split_shares_slot() {
    let mut pool = BufPool::new_empty(64, 4);
    let free_at_start = pool.num_free().unwrap();
    let bm = BufMut::allocate(&mut pool).unwrap();
    bm.write_at(&mut pool, 0, b"hello world");
    let mut b = bm.freeze();
    b.len = 11;
    let roll = Roll::of_buf(b);
    let (left, right) = roll.split_at(&mut pool, 5);
    assert_eq!(&left.to_vec(&pool)[..], b"hello");
    assert_eq!(&right.to_vec(&pool)[..], b" world");
    left.release(&mut pool);
    assert_eq!(free_at_start - 1, pool.num_free().unwrap());
    right.release(&mut pool);
    assert_eq!(free_at_start, pool.num_free().unwrap());
}

#[test]
fn piece_list_len_sums_pieces() {
    let pool = BufPool::new_empty(16, 1);
    let list = PieceList::new()
        .with(Piece::Static(b"abc"))
        .with(Piece::Owned(b"defg".to_vec()))
        .with(Piece::HeaderName(b"host".to_vec()));
    assert_eq!(list.num_pieces(), 3);
    assert_eq!(list.len(&pool), 11);
    assert!(!list.is_empty(&pool));
    let mut list = list;
    list.clear();
    assert_eq!(list.num_pieces(), 0);
    let v = list.into_vec();
    assert!(v.is_empty());
}
