use std::cell::Cell;

use scroll::ctx::{Endian, TryIntoCtx, BE, LE};
use scroll::error::Error;
use scroll::pwrite::Pwrite;
use vstd::seq::Seq;

/// A value that writes nothing and counts how often it was asked to.
struct Counting<'a>(&'a Cell<u32>);

impl<'a> TryIntoCtx<Endian> for Counting<'a> {
    type Error = Error;

    fn spec_try_into_ctx(self, _dst: Seq<u8>, _ctx: Endian) -> Result<(), Error> {
        Ok(())
    }

    fn spec_written(self, dst: Seq<u8>, _ctx: Endian) -> Seq<u8> {
        dst
    }

    fn try_into_ctx(self, _dst: &mut [u8], _ctx: Endian) -> Result<(), Error> {
        self.0.set(self.0.get() + 1);
        Ok(())
    }
}

/// A value whose conversion always fails with the error it carries.
struct Failing(Error);

impl TryIntoCtx<Endian> for Failing {
    type Error = Error;

    fn spec_try_into_ctx(self, _dst: Seq<u8>, _ctx: Endian) -> Result<(), Error> {
        Err(self.0)
    }

    fn spec_written(self, dst: Seq<u8>, _ctx: Endian) -> Seq<u8> {
        dst
    }

    fn try_into_ctx(self, _dst: &mut [u8], _ctx: Endian) -> Result<(), Error> {
        Err(self.0)
    }
}

#[test]
fn pwrite_with_u32_little_endian() {
    let mut bytes: [u8; 8] = [0, 0, 0, 0, 0, 0, 0, 0];
    let r: Result<(), Error> = bytes.pwrite_with::<u32>(0xbeefbeef, 0, LE);
    assert_eq!(r, Ok(()));
    assert_eq!(u32::from_le_bytes([bytes[0], bytes[1], bytes[2], bytes[3]]), 0xbeefbeef);
    assert_eq!(&bytes[4..8], &[0, 0, 0, 0]);
}

#[test]
fn offset_at_end_is_refused() {
    let mut bytes: [u8; 4] = [1, 2, 3, 4];
    let r: Result<(), Error> = bytes.pwrite_with(0xffu8, 4, LE);
    assert_eq!(r, Err(Error::BadOffset(4)));
    let r: Result<(), Error> = bytes.pwrite_with(0xffff_ffffu32, 4, BE);
    assert_eq!(r, Err(Error::BadOffset(4)));
    let r: Result<(), Error> = bytes.pwrite(0xffffu16, 4);
    assert_eq!(r, Err(Error::BadOffset(4)));
    assert_eq!(bytes, [1, 2, 3, 4]);
}

#[test]
fn offset_past_end_is_refused() {
    let mut bytes: Vec<u8> = vec![9, 9];
    let r: Result<(), Error> = bytes.pwrite_with(1u8, 7, BE);
    assert_eq!(r, Err(Error::BadOffset(7)));
    assert_eq!(bytes, vec![9, 9]);
}

#[test]
fn empty_buffer_refuses_offset_zero() {
    let mut bytes: Vec<u8> = Vec::new();
    let r: Result<(), Error> = bytes.pwrite(1u8, 0);
    assert_eq!(r, Err(Error::BadOffset(0)));
    assert!(bytes.is_empty());
}

#[test]
fn conversion_not_called_on_bad_offset() {
    let calls = Cell::new(0);
    let mut bytes: [u8; 4] = [0; 4];
    let r: Result<(), Error> = bytes.pwrite_with(Counting(&calls), 4, LE);
    assert_eq!(r, Err(Error::BadOffset(4)));
    assert_eq!(calls.get(), 0);
    let r: Result<(), Error> = bytes.pwrite_with(Counting(&calls), 3, LE);
    assert_eq!(r, Ok(()));
    assert_eq!(calls.get(), 1);
}

#[test]
fn default_context_is_little_endian() {
    let mut a: [u8; 6] = [0; 6];
    let mut b: [u8; 6] = [0; 6];
    let ra: Result<(), Error> = a.pwrite(0x0102_0304u32, 1);
    let rb: Result<(), Error> = b.pwrite_with(0x0102_0304u32, 1, Endian::default());
    assert_eq!(ra, rb);
    assert_eq!(a, b);
    assert_eq!(a, [0, 4, 3, 2, 1, 0]);
    let ra: Result<(), Error> = a.pwrite(0xaabbu16, 5);
    let rb: Result<(), Error> = b.pwrite_with(0xaabbu16, 5, LE);
    assert_eq!(ra, rb);
    assert_eq!(a, b);
}

#[test]
fn conversion_error_passes_through() {
    let mut bytes: [u8; 4] = [5; 4];
    let r: Result<(), Error> = bytes.pwrite_with(Failing(Error::TooBig { size: 99, len: 1 }), 1, LE);
    assert_eq!(r, Err(Error::TooBig { size: 99, len: 1 }));
    let r: Result<(), Error> = bytes.pwrite_with(Failing(Error::BadOffset(77)), 0, BE);
    assert_eq!(r, Err(Error::BadOffset(77)));
}

#[test]
fn too_small_remainder_is_too_big() {
    let mut bytes: [u8; 8] = [7; 8];
    let r: Result<(), Error> = bytes.pwrite_with(0x1122_3344_5566_7788u64, 3, LE);
    assert_eq!(r, Err(Error::TooBig { size: 8, len: 5 }));
    let r: Result<(), Error> = bytes.pwrite_with(0x1122_3344u32, 5, BE);
    assert_eq!(r, Err(Error::TooBig { size: 4, len: 3 }));
    assert_eq!(bytes, [7; 8]);
}

#[test]
fn big_endian_u32_layout() {
    let mut bytes: Vec<u8> = vec![0xaa; 6];
    let r: Result<(), Error> = bytes.pwrite_with(0x1122_3344u32, 2, BE);
    assert_eq!(r, Ok(()));
    assert_eq!(bytes, vec![0xaa, 0xaa, 0x11, 0x22, 0x33, 0x44]);
}

#[test]
fn u64_and_u16_layouts() {
    let mut bytes: [u8; 10] = [0; 10];
    let r: Result<(), Error> = bytes.pwrite_with(0x0102_0304_0506_0708u64, 0, LE);
    assert_eq!(r, Ok(()));
    let r: Result<(), Error> = bytes.pwrite_with(0xbeefu16, 8, BE);
    assert_eq!(r, Ok(()));
    assert_eq!(bytes, [8, 7, 6, 5, 4, 3, 2, 1, 0xbe, 0xef]);
}

#[test]
fn last_byte_is_writable() {
    let mut bytes: [u8; 4] = [0; 4];
    let r: Result<(), Error> = bytes.pwrite_with(0x5au8, 3, BE);
    assert_eq!(r, Ok(()));
    assert_eq!(bytes, [0, 0, 0, 0x5a]);
}
