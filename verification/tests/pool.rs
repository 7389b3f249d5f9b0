use directio_core::pool::Pool;

#[test]
fn alloc_to_capacity() {
    let mut p: Pool<i32> = Pool::new(4);

    assert!(p.limit() == 4);
    assert!(p.used() == 0);
    assert!(p.avail() == 4);

    for i in 0..4 {
        let idx = p.allocidx(i);

        assert!(p.used() == (i + 1) as usize);
        assert!(idx.is_ok());
        assert!(*p.index(idx.ok().unwrap()) == i);
    }

    assert!(p.avail() == 0);
    let idx = p.allocidx(10);
    assert!(p.avail() == 0);
    assert!(idx.is_err());
}

#[test]
fn reuse_slot() {
    let mut p: Pool<i32> = Pool::new(3);

    assert_eq!(Ok(0), p.allocidx(1));
    assert_eq!(1, p.freeidx(0));
    assert_eq!(Ok(0), p.allocidx(2));
    assert_eq!(2, p.freeidx(0));
}

#[test]
fn free() {
    let mut p: Pool<i32> = Pool::new(4);
    let mut v = Vec::new();

    assert!(p.limit() == 4);
    assert!(p.used() == 0);
    assert!(p.avail() == 4);

    for i in 0..20 {
        let idx = p.allocidx(i);

        assert!(idx.is_ok());
        assert!(idx.unwrap() < 4);
        assert!(*p.index(idx.unwrap()) == i);

        v.push(idx.unwrap());

        if p.avail() == 0 {
            p.freeidx(v.remove(0));
            assert!(p.avail() == 1);
        }
    }
}

#[test]
fn fresh_pool_allocates_in_order() {
    let mut p: Pool<u8> = Pool::new(5);

    for i in 0..5 {
        assert_eq!(p.allocidx(i), Ok(i as usize));
    }
}

#[test]
fn full_pool_returns_value_unconsumed() {
    let mut p: Pool<String> = Pool::new(2);

    assert_eq!(p.allocidx(String::from("a")), Ok(0));
    assert_eq!(p.allocidx(String::from("b")), Ok(1));
    let back = p.allocidx(String::from("c"));
    assert_eq!(back, Err(String::from("c")));
    assert_eq!(p.used(), 2);
    assert_eq!(p.avail(), 0);
}

#[test]
fn lifo_reuse_after_release() {
    let mut p: Pool<u64> = Pool::new(5);

    for i in 0..5 {
        assert_eq!(p.allocidx(100 + i), Ok(i as usize));
    }
    assert_eq!(p.freeidx(3), 103);
    assert_eq!(p.allocidx(900), Ok(3));
    assert_eq!(*p.index(3), 900);
}

#[test]
fn cycling_at_full_capacity_keeps_pool_full() {
    let mut p: Pool<usize> = Pool::new(3);
    let mut held = Vec::new();

    for i in 0..3 {
        held.push(p.allocidx(i).unwrap());
    }
    for round in 0..12 {
        assert_eq!(p.used(), 3);
        assert!(p.allocidx(round).is_err());
        p.freeidx(held.remove(0));
        assert_eq!(p.used(), 2);
        assert_eq!(p.avail(), 1);
        held.push(p.allocidx(round).unwrap());
        assert_eq!(p.used(), 3);
        assert_eq!(p.avail(), 0);
    }
}

#[test]
fn index_mut_updates_slot() {
    let mut p: Pool<i32> = Pool::new(2);

    let idx = p.allocidx(7).unwrap();
    *p.index_mut(idx) = 9;
    assert_eq!(*p.index(idx), 9);
    assert_eq!(p.freeidx(idx), 9);
}
