//! What a texture is measured in and how it is layered.

use vstd::prelude::*;

verus! {

/// A dimension that a texture can have. Its `Size` says how large a texture
/// of that dimension is.
pub trait Dimensionable {
    /// The size of a texture of this dimension.
    type Size: Copy;
}

/// Two dimensions: a width and a height, in that order.
#[derive(Copy, Clone, Debug)]
pub struct Dim2;

impl Dimensionable for Dim2 {
    type Size = [u32; 2];
}

/// Three dimensions: a width, a height and a depth, in that order.
#[derive(Copy, Clone, Debug)]
pub struct Dim3;

impl Dimensionable for Dim3 {
    type Size = [u32; 3];
}

/// A way to layer a texture.
pub trait Layerable {
}

/// A texture with a single layer.
#[derive(Copy, Clone, Debug)]
pub struct Flat;

impl Layerable for Flat {
}

/// A texture with several layers.
#[derive(Copy, Clone, Debug)]
pub struct Layered;

impl Layerable for Layered {
}

} // verus!
