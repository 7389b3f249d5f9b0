//! Kernel ABI descriptors for the asynchronous I/O queue.
//!
//! The kernel publishes these records with a fixed byte-for-byte layout:
//! field order, widths and padding must be reproduced exactly, or every
//! interaction with the queue is silently corrupted. Each descriptor here
//! carries a verified little-endian serialization whose contract pins the
//! exact image: 64 bytes for a request, 32 bytes for a completion.
use vstd::prelude::*;
use vstd::bytes::*;
use vstd::slice::slice_subrange;

verus! {

/// One pending operation: the request descriptor handed to the kernel.
/// `data` is the 64-bit opaque correlation token echoed verbatim in the
/// matching completion.
#[derive(Clone, Copy, Debug, PartialEq, Eq, Structural)]
#[allow(non_camel_case_types)]
pub struct Struct_iocb {
    pub data: u64,
    pub key: u32,
    pub aio_reserved1: u32,
    pub aio_lio_opcode: u16,
    pub aio_reqprio: i16,
    pub aio_fildes: u32,
    pub aio_buf: u64,
    pub aio_count: u64,
    pub aio_offset: i64,
    pub aio_reserved2: u64,
    pub aio_flags: u32,
    pub aio_resfd: u32,
}

/// Opcode set for the request descriptor. The two commands between
/// `IoCmdFdsync` and `IoCmdNoop` are reserved and unused by this layer.
#[derive(Clone, Copy, Debug, PartialEq, Eq, Structural)]
pub enum Iocmd {
    IoCmdPread,
    IoCmdPwrite,
    IoCmdFsync,
    IoCmdFdsync,
    IoCmdNoop,
    IoCmdPreadv,
    IoCmdPwritev,
}

impl Iocmd {
    /// The kernel's numeric value for this command.
    pub open spec fn spec_code(self) -> u16 {
        match self {
            Iocmd::IoCmdPread => 0,
            Iocmd::IoCmdPwrite => 1,
            Iocmd::IoCmdFsync => 2,
            Iocmd::IoCmdFdsync => 3,
            Iocmd::IoCmdNoop => 6,
            Iocmd::IoCmdPreadv => 7,
            Iocmd::IoCmdPwritev => 8,
        }
    }

    /// The kernel's numeric value for this command.
    pub fn code(self) -> (r: u16)
        ensures
            r == self.spec_code(),
    {
        match self {
            Iocmd::IoCmdPread => 0,
            Iocmd::IoCmdPwrite => 1,
            Iocmd::IoCmdFsync => 2,
            Iocmd::IoCmdFdsync => 3,
            Iocmd::IoCmdNoop => 6,
            Iocmd::IoCmdPreadv => 7,
            Iocmd::IoCmdPwritev => 8,
        }
    }
}

/// Flag bit requesting that a completion be signaled through the registered
/// event descriptor instead of being found by polling.
pub const IOCB_FLAG_RESFD: u32 = 1;

/// A kernel-produced completion record: the correlation token echoed back,
/// an identity of the originating request, a primary result (bytes
/// transferred, or a negative error code) and a secondary result.
#[derive(Clone, Copy, Debug, PartialEq, Eq, Structural)]
#[allow(non_camel_case_types)]
pub struct Struct_io_event {
    pub data: u64,
    pub obj: u64,
    pub res: i64,
    pub res2: i64,
}

/// Opaque kernel-side queue context, reached only through the kernel's
/// handle; this layer never reads one.
#[allow(non_camel_case_types)]
pub enum Struct_io_context {
    Opaque,
}

/// The two's-complement image of a signed 64-bit value, as the kernel stores
/// it in an unsigned field.
pub open spec fn spec_u64_from_i64(x: i64) -> u64 {
    if x >= 0 {
        x as u64
    } else {
        (x + 0x1_0000_0000_0000_0000) as u64
    }
}

/// Inverse of `spec_u64_from_i64`.
pub open spec fn spec_i64_from_u64(x: u64) -> i64 {
    if x < 0x8000_0000_0000_0000 {
        x as i64
    } else {
        (x - 0x1_0000_0000_0000_0000) as i64
    }
}

/// The two's-complement image of a signed 16-bit value.
pub open spec fn spec_u16_from_i16(x: i16) -> u16 {
    if x >= 0 {
        x as u16
    } else {
        (x + 0x1_0000) as u16
    }
}

/// The two's-complement image of a signed 64-bit value.
pub fn u64_from_i64(x: i64) -> (r: u64)
    ensures
        r == spec_u64_from_i64(x),
{
    if x >= 0 {
        x as u64
    } else {
        ((x as i128) + 0x1_0000_0000_0000_0000) as u64
    }
}

/// Inverse of `u64_from_i64`.
pub fn i64_from_u64(x: u64) -> (r: i64)
    ensures
        r == spec_i64_from_u64(x),
{
    if x < 0x8000_0000_0000_0000 {
        x as i64
    } else {
        ((x as i128) - 0x1_0000_0000_0000_0000) as i64
    }
}

/// The two's-complement image of a signed 16-bit value.
pub fn u16_from_i16(x: i16) -> (r: u16)
    ensures
        r == spec_u16_from_i16(x),
{
    if x >= 0 {
        x as u16
    } else {
        ((x as i32) + 0x1_0000) as u16
    }
}

impl Struct_iocb {
    /// The exact 64-byte little-endian image the kernel expects: correlation
    /// data, key and reserved padding, opcode, priority, file descriptor,
    /// buffer pointer, count, signed offset, reserved field, flags, and the
    /// event-notification descriptor, in that order.
    pub open spec fn spec_encode(self) -> Seq<u8> {
        spec_u64_to_le_bytes(self.data) + spec_u32_to_le_bytes(self.key) + spec_u32_to_le_bytes(
            self.aio_reserved1,
        ) + spec_u16_to_le_bytes(self.aio_lio_opcode) + spec_u16_to_le_bytes(
            spec_u16_from_i16(self.aio_reqprio),
        ) + spec_u32_to_le_bytes(self.aio_fildes) + spec_u64_to_le_bytes(self.aio_buf)
            + spec_u64_to_le_bytes(self.aio_count) + spec_u64_to_le_bytes(
            spec_u64_from_i64(self.aio_offset),
        ) + spec_u64_to_le_bytes(self.aio_reserved2) + spec_u32_to_le_bytes(self.aio_flags)
            + spec_u32_to_le_bytes(self.aio_resfd)
    }

    /// Serialize to the kernel's 64-byte layout.
    pub fn encode(&self) -> (r: Vec<u8>)
        ensures
            r@ == self.spec_encode(),
            r@.len() == 64,
    {
        let mut out = u64_to_le_bytes(self.data);
        let mut part = u32_to_le_bytes(self.key);
        out.append(&mut part);
        let mut part = u32_to_le_bytes(self.aio_reserved1);
        out.append(&mut part);
        let mut part = u16_to_le_bytes(self.aio_lio_opcode);
        out.append(&mut part);
        let mut part = u16_to_le_bytes(u16_from_i16(self.aio_reqprio));
        out.append(&mut part);
        let mut part = u32_to_le_bytes(self.aio_fildes);
        out.append(&mut part);
        let mut part = u64_to_le_bytes(self.aio_buf);
        out.append(&mut part);
        let mut part = u64_to_le_bytes(self.aio_count);
        out.append(&mut part);
        let mut part = u64_to_le_bytes(u64_from_i64(self.aio_offset));
        out.append(&mut part);
        let mut part = u64_to_le_bytes(self.aio_reserved2);
        out.append(&mut part);
        let mut part = u32_to_le_bytes(self.aio_flags);
        out.append(&mut part);
        let mut part = u32_to_le_bytes(self.aio_resfd);
        out.append(&mut part);
        proof {
            assert(out@ =~= self.spec_encode());
        }
        out
    }
}

impl Default for Struct_iocb {
    /// The default request: a no-op aimed at the invalid file descriptor
    /// sentinel, everything else zero.
    fn default() -> (r: Struct_iocb)
        ensures
            r.data == 0,
            r.key == 0,
            r.aio_reserved1 == 0,
            r.aio_lio_opcode == Iocmd::IoCmdNoop.spec_code(),
            r.aio_reqprio == 0,
            r.aio_fildes == u32::MAX,
            r.aio_buf == 0,
            r.aio_count == 0,
            r.aio_offset == 0,
            r.aio_reserved2 == 0,
            r.aio_flags == 0,
            r.aio_resfd == 0,
    {
        Struct_iocb {
            data: 0,
            key: 0,
            aio_reserved1: 0,
            aio_lio_opcode: Iocmd::IoCmdNoop.code(),
            aio_reqprio: 0,
            aio_fildes: u32::MAX,
            aio_buf: 0,
            aio_count: 0,
            aio_offset: 0,
            aio_reserved2: 0,
            aio_flags: 0,
            aio_resfd: 0,
        }
    }
}

impl Struct_io_event {
    /// The exact 32-byte little-endian image the kernel writes: correlation
    /// data, originating request identity, primary result, secondary result.
    pub open spec fn spec_encode(self) -> Seq<u8> {
        spec_u64_to_le_bytes(self.data) + spec_u64_to_le_bytes(self.obj) + spec_u64_to_le_bytes(
            spec_u64_from_i64(self.res),
        ) + spec_u64_to_le_bytes(spec_u64_from_i64(self.res2))
    }

    /// The completion named by a 32-byte kernel image.
    pub open spec fn spec_decode(s: Seq<u8>) -> Struct_io_event
        recommends
            s.len() == 32,
    {
        Struct_io_event {
            data: spec_u64_from_le_bytes(s.subrange(0, 8)),
            obj: spec_u64_from_le_bytes(s.subrange(8, 16)),
            res: spec_i64_from_u64(spec_u64_from_le_bytes(s.subrange(16, 24))),
            res2: spec_i64_from_u64(spec_u64_from_le_bytes(s.subrange(24, 32))),
        }
    }

    /// Serialize to the kernel's 32-byte layout.
    pub fn encode(&self) -> (r: Vec<u8>)
        ensures
            r@ == self.spec_encode(),
            r@.len() == 32,
    {
        let mut out = u64_to_le_bytes(self.data);
        let mut part = u64_to_le_bytes(self.obj);
        out.append(&mut part);
        let mut part = u64_to_le_bytes(u64_from_i64(self.res));
        out.append(&mut part);
        let mut part = u64_to_le_bytes(u64_from_i64(self.res2));
        out.append(&mut part);
        proof {
            assert(out@ =~= self.spec_encode());
        }
        out
    }

    /// Read one completion out of a 32-byte kernel image.
    pub fn decode(bytes: &[u8]) -> (r: Struct_io_event)
        requires
            bytes@.len() == 32,
        ensures
            r == Struct_io_event::spec_decode(bytes@),
    {
        let data = u64_from_le_bytes(slice_subrange(bytes, 0, 8));
        let obj = u64_from_le_bytes(slice_subrange(bytes, 8, 16));
        let res = i64_from_u64(u64_from_le_bytes(slice_subrange(bytes, 16, 24)));
        let res2 = i64_from_u64(u64_from_le_bytes(slice_subrange(bytes, 24, 32)));
        Struct_io_event { data, obj, res, res2 }
    }
}

/// Decoding a completion's encoded image recovers the completion: the
/// 32-byte layout loses nothing.
pub proof fn lemma_io_event_round_trip(e: Struct_io_event)
    ensures
        Struct_io_event::spec_decode(e.spec_encode()) == e,
{
    lemma_auto_spec_u64_to_from_le_bytes();
    let s = e.spec_encode();
    assert(s.subrange(0, 8) =~= spec_u64_to_le_bytes(e.data));
    assert(s.subrange(8, 16) =~= spec_u64_to_le_bytes(e.obj));
    assert(s.subrange(16, 24) =~= spec_u64_to_le_bytes(spec_u64_from_i64(e.res)));
    assert(s.subrange(24, 32) =~= spec_u64_to_le_bytes(spec_u64_from_i64(e.res2)));
}

impl Default for Struct_io_event {
    /// The default completion: all fields zero.
    fn default() -> (r: Struct_io_event)
        ensures
            r.data == 0,
            r.obj == 0,
            r.res == 0,
            r.res2 == 0,
    {
        Struct_io_event { data: 0, obj: 0, res: 0, res2: 0 }
    }
}

} // verus!
