use directio_core::aligned::AlignedBuf;
use directio_core::aligned::ispower2;
use directio_core::RdBuf;
use directio_core::WrBuf;

fn zalloc(size: usize, align: usize) -> AlignedBuf {
    match AlignedBuf::alloc_zeroed(size, align) {
        None => panic!("alloc failed"),
        Some(p) => p,
    }
}

#[test]
fn aligned() {
    let p = zalloc(16, 16);
    assert_eq!(p.as_slice().len(), 16);

    let p = zalloc(10, 16);
    assert_eq!(p.as_slice().len(), 16);

    let p = zalloc(17, 16);
    assert_eq!(p.as_slice().len(), 32);
}

#[test]
fn uninit_rounds_up_and_starts_invalid() {
    let b = AlignedBuf::alloc_uninit(16, 16).unwrap();
    assert_eq!(b.len(), 16);
    assert_eq!(b.valid(), 0);

    let b = AlignedBuf::alloc_uninit(10, 16).unwrap();
    assert_eq!(b.len(), 16);

    let b = AlignedBuf::alloc_uninit(17, 16).unwrap();
    assert_eq!(b.len(), 32);

    let b = AlignedBuf::alloc_uninit(0, 8).unwrap();
    assert_eq!(b.len(), 0);
    assert_eq!(b.valid(), 0);
}

#[test]
fn from_slice_copies_and_zero_pads() {
    let data = [1u8, 2, 3, 4, 5];
    let b = AlignedBuf::from_slice(&data, 4).unwrap();
    assert_eq!(b.len(), 8);
    assert_eq!(b.valid(), 8);
    assert_eq!(b.as_slice(), &[1u8, 2, 3, 4, 5, 0, 0, 0]);
}

#[test]
fn clone_reproduces_valid_prefix() {
    let data = [9u8, 8, 7];
    let b = AlignedBuf::from_slice(&data, 2).unwrap();
    let c = b.clone();
    assert_eq!(c.len(), b.len());
    assert_eq!(c.valid(), b.valid());
    assert_eq!(c.as_slice(), b.as_slice());

    let mut partial = AlignedBuf::alloc_uninit(8, 8).unwrap();
    {
        let w = partial.rdbuf();
        w[0] = 11;
        w[1] = 22;
    }
    partial.rdupdate(0, 2);
    let c = partial.clone();
    assert_eq!(c.valid(), 2);
    assert_eq!(c.as_slice(), &[11u8, 22]);
}

#[test]
fn confirm_contiguous_extends_valid() {
    let mut b = AlignedBuf::alloc_uninit(16, 16).unwrap();
    assert_eq!(b.valid(), 0);

    {
        let w = b.rdbuf();
        assert_eq!(w.len(), 16);
        for i in 0..6 {
            w[i] = i as u8;
        }
    }
    b.rdupdate(0, 4);
    assert_eq!(b.valid(), 4);

    // overlapping the frontier extends it
    b.rdupdate(2, 4);
    assert_eq!(b.valid(), 6);
    assert_eq!(b.as_slice(), &[0u8, 1, 2, 3, 4, 5]);
}

#[test]
fn confirm_filled_extends_only_contiguously() {
    let mut b = AlignedBuf::alloc_uninit(16, 16).unwrap();
    assert_eq!(b.valid(), 0);

    b.confirm_filled(0, 4);
    assert_eq!(b.valid(), 4);
    assert_eq!(b.len(), 16);

    // overlapping the frontier extends it
    b.confirm_filled(2, 6);
    assert_eq!(b.valid(), 8);

    // a gap past the frontier does not validate anything
    b.confirm_filled(12, 2);
    assert_eq!(b.valid(), 8);
}

#[test]
fn confirm_disjoint_leaves_valid_unchanged() {
    let mut b = AlignedBuf::alloc_uninit(16, 16).unwrap();
    b.rdupdate(0, 4);
    assert_eq!(b.valid(), 4);

    // a gap past the frontier does not validate anything
    b.rdupdate(8, 4);
    assert_eq!(b.valid(), 4);

    // a range entirely inside the valid prefix changes nothing
    b.rdupdate(0, 2);
    assert_eq!(b.valid(), 4);

    // a range running past the allocation changes nothing
    b.rdupdate(4, 100);
    assert_eq!(b.valid(), 4);
}

#[test]
fn zeroed_buffer_is_fully_valid_and_zero() {
    let b = zalloc(12, 4);
    assert_eq!(b.len(), 12);
    assert_eq!(b.valid(), 12);
    assert_eq!(b.as_slice(), &[0u8; 12]);
    assert_eq!(b.wrbuf(), &[0u8; 12]);
}

#[test]
fn power_of_two_check() {
    assert!(ispower2(1));
    assert!(ispower2(2));
    assert!(ispower2(512));
    assert!(ispower2(4096));
    assert!(!ispower2(3));
    assert!(!ispower2(12));
    assert!(!ispower2(4097));
}

#[test]
fn plain_slice_buffers() {
    let mut storage = [3u8, 0, 0, 0];
    let s: &mut [u8] = &mut storage;
    {
        let w = s.rdbuf();
        w[1] = 9;
    }
    s.rdupdate(0, 4);
    assert_eq!(s.wrbuf(), &[3u8, 9, 0, 0]);
}

#[test]
fn vec_and_box_buffers_forward_capabilities() {
    let mut v: Vec<u8> = vec![0u8; 4];
    {
        let w = v.rdbuf();
        w[0] = 5;
        w[3] = 7;
    }
    v.rdupdate(0, 4);
    assert_eq!(v.wrbuf(), &[5u8, 0, 0, 7]);

    let mut boxed = Box::new(AlignedBuf::alloc_uninit(4, 4).unwrap());
    {
        let w = boxed.rdbuf();
        w[0] = 1;
    }
    boxed.rdupdate(0, 1);
    assert_eq!(boxed.wrbuf(), &[1u8]);
}
