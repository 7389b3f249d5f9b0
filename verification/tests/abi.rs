use directio_core::aioabi::IOCB_FLAG_RESFD;
use directio_core::aioabi::Iocmd;
use directio_core::aioabi::Struct_io_event;
use directio_core::aioabi::Struct_iocb;

#[test]
fn test_sizes() {
    // Check against kernel ABI
    assert!(Struct_io_event::default().encode().len() == 32);
    assert!(Struct_iocb::default().encode().len() == 64);
}

#[test]
fn opcode_values_match_kernel() {
    assert_eq!(Iocmd::IoCmdPread.code(), 0);
    assert_eq!(Iocmd::IoCmdPwrite.code(), 1);
    assert_eq!(Iocmd::IoCmdFsync.code(), 2);
    assert_eq!(Iocmd::IoCmdFdsync.code(), 3);
    assert_eq!(Iocmd::IoCmdNoop.code(), 6);
    assert_eq!(Iocmd::IoCmdPreadv.code(), 7);
    assert_eq!(Iocmd::IoCmdPwritev.code(), 8);
    assert_eq!(IOCB_FLAG_RESFD, 1);
}

#[test]
fn default_request_is_a_noop_on_invalid_fd() {
    let d = Struct_iocb::default();
    assert_eq!(d.aio_lio_opcode, Iocmd::IoCmdNoop.code());
    assert_eq!(d.aio_fildes, u32::MAX); // the -1 sentinel
    assert_eq!(d.data, 0);
    assert_eq!(d.aio_buf, 0);
    assert_eq!(d.aio_count, 0);
    assert_eq!(d.aio_offset, 0);
    assert_eq!(d.aio_flags, 0);
}

#[test]
fn request_encodes_to_exact_kernel_image() {
    let iocb = Struct_iocb {
        data: 0x0102030405060708,
        key: 0,
        aio_reserved1: 0,
        aio_lio_opcode: Iocmd::IoCmdPwrite.code(),
        aio_reqprio: -1,
        aio_fildes: 3,
        aio_buf: 0x1000,
        aio_count: 512,
        aio_offset: -4096,
        aio_reserved2: 0,
        aio_flags: IOCB_FLAG_RESFD,
        aio_resfd: 5,
    };
    let image = iocb.encode();
    let expected: Vec<u8> = vec![
        0x08, 0x07, 0x06, 0x05, 0x04, 0x03, 0x02, 0x01, // data
        0x00, 0x00, 0x00, 0x00, // key
        0x00, 0x00, 0x00, 0x00, // reserved1
        0x01, 0x00, // opcode: pwrite
        0xff, 0xff, // priority -1
        0x03, 0x00, 0x00, 0x00, // fd
        0x00, 0x10, 0x00, 0x00, 0x00, 0x00, 0x00, 0x00, // buffer
        0x00, 0x02, 0x00, 0x00, 0x00, 0x00, 0x00, 0x00, // count
        0x00, 0xf0, 0xff, 0xff, 0xff, 0xff, 0xff, 0xff, // offset -4096
        0x00, 0x00, 0x00, 0x00, 0x00, 0x00, 0x00, 0x00, // reserved2
        0x01, 0x00, 0x00, 0x00, // flags
        0x05, 0x00, 0x00, 0x00, // resfd
    ];
    assert_eq!(image, expected);
}

#[test]
fn completion_decodes_kernel_bytes() {
    let mut bytes: Vec<u8> = vec![0u8; 32];
    bytes[0] = 42; // data = 42
    bytes[8] = 7; // obj = 7
    for i in 16..24 {
        bytes[i] = 0xff; // res = -1
    }
    bytes[24] = 0x00;
    bytes[25] = 0x02; // res2 = 512

    let e = Struct_io_event::decode(&bytes);
    assert_eq!(e.data, 42);
    assert_eq!(e.obj, 7);
    assert_eq!(e.res, -1);
    assert_eq!(e.res2, 512);
}

#[test]
fn completion_encode_decode_round_trip() {
    let e = Struct_io_event { data: u64::MAX, obj: 1, res: i64::MIN, res2: i64::MAX };
    let image = e.encode();
    assert_eq!(image.len(), 32);
    let back = Struct_io_event::decode(&image);
    assert_eq!(back, e);
}
