//! Typed descriptions of GPU render targets and of fixed-size GPU arrays.
//!
//! A framebuffer is described by the pixel formats of its attachments, which
//! are part of its type, and a buffer by its element type and count. Making
//! the textures and the storage is left to a backend that the caller
//! supplies: [`framebuffer::ReifyTexture`] and [`framebuffer::Framebuffer`]
//! for render targets, [`buffer::HasBuffer`] for buffers. The [`host`]
//! backend keeps everything in host memory.

pub mod buffer;
pub mod face_culling;
pub mod framebuffer;
pub mod host;
pub mod pixel;
pub mod texture;
