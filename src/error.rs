use vstd::prelude::*;

verus! {

/// What can go wrong while writing a value into a buffer.
#[derive(Debug, Clone, PartialEq, Eq, Structural)]
pub enum Error {
    /// The requested offset is at or past the buffer's measured length.
    BadOffset(usize),
    /// The value needs `size` bytes but only `len` remain.
    TooBig { size: usize, len: usize },
}

} // verus!
