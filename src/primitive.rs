use vstd::arithmetic::div_mod::lemma_div_denominator;
use vstd::arithmetic::power::{lemma_pow_adds, lemma_pow_positive, lemma_pow0, lemma_pow1, pow};
use vstd::prelude::*;

use crate::ctx::{Endian, TryIntoCtx};
use crate::error::Error;

verus! {

/// Byte `j` of `v`, counting from the least significant one.
pub open spec fn byte_of(v: nat, j: nat) -> u8 {
    ((v / pow(256, j) as nat) % 256) as u8
}

/// Which byte of the value lands at position `k` of a `size`-byte encoding in byte order `e`.
pub open spec fn byte_index(e: Endian, size: nat, k: int) -> int {
    match e {
        Endian::Little => k,
        Endian::Big => size - 1 - k,
    }
}

/// The `size` low bytes of `v`, laid out in byte order `e`.
pub open spec fn encoded(v: nat, size: nat, e: Endian) -> Seq<u8> {
    Seq::new(size, |k: int| byte_of(v, byte_index(e, size, k) as nat))
}

/// A view holding `dst` after a `size`-byte integer `v` was written into it under `e`:
/// unchanged when too short, else the encoding followed by the bytes that were after it.
pub open spec fn uint_written(v: nat, size: nat, dst: Seq<u8>, e: Endian) -> Seq<u8> {
    if dst.len() < size {
        dst
    } else {
        encoded(v, size, e) + dst.subrange(size as int, dst.len() as int)
    }
}

/// The outcome of writing a `size`-byte integer into a view holding `dst`: it fails when
/// fewer than `size` bytes remain.
pub open spec fn uint_result(size: nat, dst: Seq<u8>) -> Result<(), Error> {
    if dst.len() < size {
        Err(Error::TooBig { size: size as usize, len: dst.len() as usize })
    } else {
        Ok(())
    }
}

/// Writes the `size` low bytes of `v` at the start of `dst` in byte order `e`.
fn write_uint(v: u64, size: usize, dst: &mut [u8], e: Endian) -> (r: Result<(), Error>)
    requires
        size <= 8,
    ensures
        r == uint_result(size as nat, old(dst)@),
        final(dst)@ == uint_written(v as nat, size as nat, old(dst)@, e),
{
    let len = dst.len();
    if len < size {
        return Err(Error::TooBig { size, len });
    }
    let ghost before = dst@;
    let mut x: u64 = v;
    let mut i: usize = 0;
    proof {
        lemma_pow0(256);
    }
    while i < size
        invariant
            size <= len,
            len == dst@.len(),
            before.len() == len,
            i <= size,
            x as nat == v as nat / pow(256, i as nat) as nat,
            pow(256, i as nat) > 0,
            forall|k: int|
                #![trigger dst@[k]]
                0 <= k < len ==> dst@[k] == if k < size && byte_index(e, size as nat, k) < i {
                    byte_of(v as nat, byte_index(e, size as nat, k) as nat)
                } else {
                    before[k]
                },
        decreases size - i,
    {
        let p: usize = match e {
            Endian::Little => i,
            Endian::Big => size - 1 - i,
        };
        dst[p] = (x % 256) as u8;
        proof {
            lemma_pow_adds(256, i as nat, 1);
            lemma_pow1(256);
            lemma_pow_positive(256, i as nat + 1);
            lemma_div_denominator(v as int, pow(256, i as nat), 256);
        }
        x = x / 256;
        i = i + 1;
    }
    assert(dst@ =~= encoded(v as nat, size as nat, e) + before.subrange(size as int, len as int));
    Ok(())
}

impl TryIntoCtx<Endian> for u8 {
    type Error = Error;

    open spec fn spec_try_into_ctx(self, dst: Seq<u8>, ctx: Endian) -> Result<(), Error> {
        uint_result(1, dst)
    }

    open spec fn spec_written(self, dst: Seq<u8>, ctx: Endian) -> Seq<u8> {
        uint_written(self as nat, 1, dst, ctx)
    }

    fn try_into_ctx(self, dst: &mut [u8], ctx: Endian) -> (r: Result<(), Error>) {
        write_uint(self as u64, 1, dst, ctx)
    }
}

impl TryIntoCtx<Endian> for u16 {
    type Error = Error;

    open spec fn spec_try_into_ctx(self, dst: Seq<u8>, ctx: Endian) -> Result<(), Error> {
        uint_result(2, dst)
    }

    open spec fn spec_written(self, dst: Seq<u8>, ctx: Endian) -> Seq<u8> {
        uint_written(self as nat, 2, dst, ctx)
    }

    fn try_into_ctx(self, dst: &mut [u8], ctx: Endian) -> (r: Result<(), Error>) {
        write_uint(self as u64, 2, dst, ctx)
    }
}

impl TryIntoCtx<Endian> for u32 {
    type Error = Error;

    open spec fn spec_try_into_ctx(self, dst: Seq<u8>, ctx: Endian) -> Result<(), Error> {
        uint_result(4, dst)
    }

    open spec fn spec_written(self, dst: Seq<u8>, ctx: Endian) -> Seq<u8> {
        uint_written(self as nat, 4, dst, ctx)
    }

    fn try_into_ctx(self, dst: &mut [u8], ctx: Endian) -> (r: Result<(), Error>) {
        write_uint(self as u64, 4, dst, ctx)
    }
}

impl TryIntoCtx<Endian> for u64 {
    type Error = Error;

    open spec fn spec_try_into_ctx(self, dst: Seq<u8>, ctx: Endian) -> Result<(), Error> {
        uint_result(8, dst)
    }

    open spec fn spec_written(self, dst: Seq<u8>, ctx: Endian) -> Seq<u8> {
        uint_written(self as nat, 8, dst, ctx)
    }

    fn try_into_ctx(self, dst: &mut [u8], ctx: Endian) -> (r: Result<(), Error>) {
        write_uint(self as u64, 8, dst, ctx)
    }
}

} // verus!
