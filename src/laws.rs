use vstd::prelude::*;

use crate::ctx::{Endian, MeasureWith, TryIntoCtx};
use crate::error::Error;
use crate::pwrite::{is_write_outcome, result_of_write};

verus! {

/// An offset at or past the measured length fails and leaves the bytes as they were; any
/// other offset hands the conversion the bytes from `offset` to the buffer's physical end, a
/// view of the physical length less `offset`, and the write's outcome is the conversion's.
pub proof fn lemma_bounds<Ctx, E: From<Error>, N: TryIntoCtx<Ctx, Error = E>>(
    bytes: Seq<u8>,
    measured: usize,
    n: N,
    offset: usize,
    ctx: Ctx,
    r: Result<(), E>,
    after: Seq<u8>,
)
    requires
        measured <= bytes.len(),
        is_write_outcome(bytes, measured, n, offset, ctx, r, after),
    ensures
        offset >= measured ==> r is Err && after == bytes,
        offset < measured ==> {
            let view = bytes.subrange(offset as int, bytes.len() as int);
            &&& view.len() == bytes.len() - offset
            &&& r == n.spec_try_into_ctx(view, ctx)
            &&& after == bytes.subrange(0, offset as int) + n.spec_written(view, ctx)
        },
{
}

/// When the bounds check fails the value is never consulted: whichever two values are
/// written, the outcomes allowed are the same, and each leaves the bytes as they were.
pub proof fn lemma_failed_bounds_ignore_value<Ctx, E: From<Error>, N: TryIntoCtx<Ctx, Error = E>>(
    bytes: Seq<u8>,
    measured: usize,
    n1: N,
    n2: N,
    offset: usize,
    ctx: Ctx,
    r: Result<(), E>,
    after: Seq<u8>,
)
    requires
        offset >= measured,
    ensures
        is_write_outcome(bytes, measured, n1, offset, ctx, r, after) == is_write_outcome(
            bytes,
            measured,
            n2,
            offset,
            ctx,
            r,
            after,
        ),
        is_write_outcome(bytes, measured, n1, offset, ctx, r, after) ==> after == bytes,
{
}

/// A write that passes the bounds check returns the conversion's error unchanged.
pub proof fn lemma_conversion_error_passes_through<
    Ctx,
    E: From<Error>,
    N: TryIntoCtx<Ctx, Error = E>,
>(
    bytes: Seq<u8>,
    measured: usize,
    n: N,
    offset: usize,
    ctx: Ctx,
    r: Result<(), E>,
    after: Seq<u8>,
    e: E,
)
    requires
        offset < measured,
        result_of_write(bytes, n, offset, ctx) == Err::<(), E>(e),
        is_write_outcome(bytes, measured, n, offset, ctx, r, after),
    ensures
        r == Err::<(), E>(e),
{
}

/// Every outcome that writing a value with the default byte order allows is an outcome of
/// writing it little-endian.
pub proof fn lemma_default_endian_is_little<
    B: ?Sized + MeasureWith<Endian>,
    E: From<Error>,
    N: TryIntoCtx<Endian, Error = E>,
>(buf: &B, n: N, offset: usize, r: Result<(), E>, after: Seq<u8>)
    requires
        exists|ctx: Endian|
            #![trigger call_ensures(Endian::default, (), ctx)]
            call_ensures(Endian::default, (), ctx) && is_write_outcome(
                buf.bytes(),
                buf.spec_measure_with(ctx),
                n,
                offset,
                ctx,
                r,
                after,
            ),
    ensures
        is_write_outcome(
            buf.bytes(),
            buf.spec_measure_with(Endian::Little),
            n,
            offset,
            Endian::Little,
            r,
            after,
        ),
{
}

} // verus!
