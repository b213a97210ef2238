use vstd::prelude::*;

verus! {

/// Byte order, the context that the integer encodings are written under.
#[derive(Debug, Clone, Copy, PartialEq, Eq, Structural)]
pub enum Endian {
    Little,
    Big,
}

/// Little-endian byte order.
pub const LE: Endian = Endian::Little;

/// Big-endian byte order.
pub const BE: Endian = Endian::Big;

impl Default for Endian {
    fn default() -> (r: Endian)
        ensures
            r == Endian::Little,
    {
        Endian::Little
    }
}

/// A buffer whose bytes can be handed out as one mutable slice.
pub trait WriteBuffer {
    /// The bytes the buffer holds.
    spec fn bytes(&self) -> Seq<u8>;

    /// Mutable access to all the bytes; what is written there is what the buffer holds after.
    fn as_mut_bytes(&mut self) -> (r: &mut [u8])
        ensures
            r@ == old(self).bytes(),
            final(self).bytes() == final(r)@,
    ;
}

/// The usable length of a buffer, as measured under a context.
pub trait MeasureWith<Ctx>: WriteBuffer {
    /// The length of `self` measured under `ctx`.
    spec fn spec_measure_with(&self, ctx: Ctx) -> usize;

    /// Measures `self` under `ctx`; the usable length never exceeds the bytes held.
    fn measure_with(&self, ctx: &Ctx) -> (r: usize)
        ensures
            r == self.spec_measure_with(*ctx),
            r <= self.bytes().len(),
    ;
}

/// A value that can encode itself into a byte view under a context.
pub trait TryIntoCtx<Ctx>: Sized {
    type Error;

    /// The outcome of encoding `self` into a view holding `dst`, under `ctx`.
    spec fn spec_try_into_ctx(self, dst: Seq<u8>, ctx: Ctx) -> Result<(), Self::Error>;

    /// The view's contents after encoding `self` into a view holding `dst`, under `ctx`.
    spec fn spec_written(self, dst: Seq<u8>, ctx: Ctx) -> Seq<u8>;

    /// Encodes `self` into `dst`, starting at its first byte.
    fn try_into_ctx(self, dst: &mut [u8], ctx: Ctx) -> (r: Result<(), Self::Error>)
        ensures
            r == self.spec_try_into_ctx(old(dst)@, ctx),
            final(dst)@ == self.spec_written(old(dst)@, ctx),
    ;
}

impl WriteBuffer for [u8] {
    open spec fn bytes(&self) -> Seq<u8> {
        self@
    }

    fn as_mut_bytes(&mut self) -> (r: &mut [u8]) {
        self
    }
}

impl<Ctx> MeasureWith<Ctx> for [u8] {
    open spec fn spec_measure_with(&self, ctx: Ctx) -> usize {
        self@.len() as usize
    }

    fn measure_with(&self, ctx: &Ctx) -> (r: usize) {
        self.len()
    }
}

impl WriteBuffer for Vec<u8> {
    open spec fn bytes(&self) -> Seq<u8> {
        self@
    }

    fn as_mut_bytes(&mut self) -> (r: &mut [u8]) {
        self.as_mut_slice()
    }
}

impl<Ctx> MeasureWith<Ctx> for Vec<u8> {
    open spec fn spec_measure_with(&self, ctx: Ctx) -> usize {
        self@.len() as usize
    }

    fn measure_with(&self, ctx: &Ctx) -> (r: usize) {
        self.len()
    }
}

} // verus!
