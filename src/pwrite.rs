use vstd::prelude::*;

use crate::ctx::{MeasureWith, TryIntoCtx};
use crate::error::Error;

verus! {

/// What a buffer holds after `n` was written into it at `offset` under `ctx`, the bounds
/// check having passed: the bytes before `offset` stay, the rest is what the conversion left.
pub open spec fn bytes_after_write<Ctx, N: TryIntoCtx<Ctx>>(
    bytes: Seq<u8>,
    n: N,
    offset: usize,
    ctx: Ctx,
) -> Seq<u8> {
    let view = bytes.subrange(offset as int, bytes.len() as int);
    bytes.subrange(0, offset as int) + n.spec_written(view, ctx)
}

/// The outcome of the conversion when `n` is written into `bytes` at `offset` under `ctx`.
pub open spec fn result_of_write<Ctx, N: TryIntoCtx<Ctx>>(
    bytes: Seq<u8>,
    n: N,
    offset: usize,
    ctx: Ctx,
) -> Result<(), N::Error> {
    n.spec_try_into_ctx(bytes.subrange(offset as int, bytes.len() as int), ctx)
}

/// Whether `r` and `after` are what writing `n` at `offset` under `ctx` may give, on a buffer
/// that held `bytes` and measured `measured` under `ctx`: an offset at or past the measured
/// length is refused with the bounds error and leaves the bytes as they were; any other offset
/// hands the bytes from `offset` on to the conversion, and its outcome is the write's outcome.
pub open spec fn is_write_outcome<Ctx, E: From<Error>, N: TryIntoCtx<Ctx, Error = E>>(
    bytes: Seq<u8>,
    measured: usize,
    n: N,
    offset: usize,
    ctx: Ctx,
    r: Result<(), E>,
    after: Seq<u8>,
) -> bool {
    if offset >= measured {
        &&& after == bytes
        &&& (r matches Err(e) && call_ensures(E::from, (Error::BadOffset(offset),), e))
    } else {
        &&& r == result_of_write(bytes, n, offset, ctx)
        &&& after == bytes_after_write(bytes, n, offset, ctx)
    }
}

/// Writes values into `Self` at an offset, under a context.
pub trait Pwrite<Ctx: Copy + Default, E: From<Error>>: MeasureWith<Ctx> {
    /// Writes `n` at `offset` under the context's default value.
    fn pwrite<N: TryIntoCtx<Ctx, Error = E>>(&mut self, n: N, offset: usize) -> (r: Result<(), E>)
        ensures
            exists|ctx: Ctx|
                #![trigger call_ensures(Ctx::default, (), ctx)]
                call_ensures(Ctx::default, (), ctx) && is_write_outcome(
                    old(self).bytes(),
                    old(self).spec_measure_with(ctx),
                    n,
                    offset,
                    ctx,
                    r,
                    final(self).bytes(),
                ),
    {
        self.pwrite_with(n, offset, Ctx::default())
    }

    /// Writes `n` at `offset` under `ctx`.
    fn pwrite_with<N: TryIntoCtx<Ctx, Error = E>>(&mut self, n: N, offset: usize, ctx: Ctx) -> (r:
        Result<(), E>)
        ensures
            is_write_outcome(
                old(self).bytes(),
                old(self).spec_measure_with(ctx),
                n,
                offset,
                ctx,
                r,
                final(self).bytes(),
            ),
    {
        let len = self.measure_with(&ctx);
        if offset >= len {
            return Err(E::from(Error::BadOffset(offset)));
        }
        let bytes = self.as_mut_bytes();
        let (_, dst) = bytes.split_at_mut(offset);
        n.try_into_ctx(dst, ctx)
    }
}

impl<Ctx: Copy + Default, E: From<Error>, R: ?Sized + MeasureWith<Ctx>> Pwrite<Ctx, E> for R {

}

} // verus!
