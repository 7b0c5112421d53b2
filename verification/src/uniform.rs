//! Uniform-block compatibility marker.
//!
//! Types used as the element type of a buffer bound as shader-uniform-block
//! storage must have a byte layout the driver can consume. [`UniformBlock`]
//! is a closed capability tag asserting that: membership is enumerated
//! here, for integer scalars of standard widths, booleans, fixed-length
//! vectors of 2 to 4 components of those, tuples of compatible components,
//! and slices of compatible element type.
//!
//! The tag performs no runtime layout check: packing and alignment
//! correctness in the std140 style stays the caller's responsibility, a
//! known gap of this layer.

use vstd::prelude::*;

verus! {

/// Marker for types whose byte layout is valid as shader-uniform-block
/// storage. Carries no operations and no state; it only gates, at compile
/// time, which buffers may be bound as uniform storage.
pub trait UniformBlock {

}

impl UniformBlock for u8 {

}

impl UniformBlock for u16 {

}

impl UniformBlock for u32 {

}

impl UniformBlock for i8 {

}

impl UniformBlock for i16 {

}

impl UniformBlock for i32 {

}

impl UniformBlock for bool {

}

impl UniformBlock for [u8; 2] {

}

impl UniformBlock for [u16; 2] {

}

impl UniformBlock for [u32; 2] {

}

impl UniformBlock for [i8; 2] {

}

impl UniformBlock for [i16; 2] {

}

impl UniformBlock for [i32; 2] {

}

impl UniformBlock for [bool; 2] {

}

impl UniformBlock for [u8; 3] {

}

impl UniformBlock for [u16; 3] {

}

impl UniformBlock for [u32; 3] {

}

impl UniformBlock for [i8; 3] {

}

impl UniformBlock for [i16; 3] {

}

impl UniformBlock for [i32; 3] {

}

impl UniformBlock for [bool; 3] {

}

impl UniformBlock for [u8; 4] {

}

impl UniformBlock for [u16; 4] {

}

impl UniformBlock for [u32; 4] {

}

impl UniformBlock for [i8; 4] {

}

impl UniformBlock for [i16; 4] {

}

impl UniformBlock for [i32; 4] {

}

impl UniformBlock for [bool; 4] {

}

impl<T: UniformBlock> UniformBlock for [T] {

}

impl<A: UniformBlock, B: UniformBlock> UniformBlock for (A, B) {

}

impl<A: UniformBlock, B: UniformBlock, C: UniformBlock> UniformBlock for (A, B, C) {

}

impl<A: UniformBlock, B: UniformBlock, C: UniformBlock, D: UniformBlock> UniformBlock for (
    A,
    B,
    C,
    D,
) {

}

impl<A: UniformBlock, B: UniformBlock, C: UniformBlock, D: UniformBlock, E: UniformBlock> UniformBlock for (
    A,
    B,
    C,
    D,
    E,
) {

}

impl<
    A: UniformBlock,
    B: UniformBlock,
    C: UniformBlock,
    D: UniformBlock,
    E: UniformBlock,
    F: UniformBlock,
> UniformBlock for (A, B, C, D, E, F) {

}

impl<
    A: UniformBlock,
    B: UniformBlock,
    C: UniformBlock,
    D: UniformBlock,
    E: UniformBlock,
    F: UniformBlock,
    G: UniformBlock,
> UniformBlock for (A, B, C, D, E, F, G) {

}

impl<
    A: UniformBlock,
    B: UniformBlock,
    C: UniformBlock,
    D: UniformBlock,
    E: UniformBlock,
    F: UniformBlock,
    G: UniformBlock,
    H: UniformBlock,
> UniformBlock for (A, B, C, D, E, F, G, H) {

}

impl<
    A: UniformBlock,
    B: UniformBlock,
    C: UniformBlock,
    D: UniformBlock,
    E: UniformBlock,
    F: UniformBlock,
    G: UniformBlock,
    H: UniformBlock,
    I: UniformBlock,
> UniformBlock for (A, B, C, D, E, F, G, H, I) {

}

impl<
    A: UniformBlock,
    B: UniformBlock,
    C: UniformBlock,
    D: UniformBlock,
    E: UniformBlock,
    F: UniformBlock,
    G: UniformBlock,
    H: UniformBlock,
    I: UniformBlock,
    J: UniformBlock,
> UniformBlock for (A, B, C, D, E, F, G, H, I, J) {

}

} // verus!
