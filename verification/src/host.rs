//! A backend that lives in host memory.
//!
//! It keeps the elements of a buffer in a vector, and of a texture only the
//! request that asked for it. It is the backend to try the crate with where
//! there is no graphics device, and it shows that the contracts the crate
//! asks of a backend can be met.

use crate::buffer::{BufferError, HasBuffer};
use crate::framebuffer::{
    depth_formats, framebuffer_requests, ColorSlot, DepthSlot, Framebuffer, ReifyState,
    ReifyTexture, TextureRequest,
};
use crate::pixel::{Pixel, PixelFormat};
use crate::texture::{Dimensionable, Layerable};
use core::marker::PhantomData;
use vstd::prelude::*;

verus! {

/// The host context. It counts how many textures may still be made for
/// framebuffers.
#[derive(Debug)]
pub struct Host {
    pub textures_left: usize,
}

impl Host {
    /// A context in which framebuffers may have `textures` textures in all.
    pub fn new(textures: usize) -> (host: Host)
        ensures
            host.textures_left == textures,
    {
        Host { textures_left: textures }
    }
}

/// A buffer in host memory.
pub struct HostBuffer<T> {
    cells: Vec<T>,
    bytes: usize,
}

impl<T: Copy + Default> HasBuffer<T> for Host {
    type ABuffer = HostBuffer<T>;

    closed spec fn elements(buffer: &HostBuffer<T>) -> Seq<T> {
        buffer.cells@
    }

    closed spec fn byte_size(buffer: &HostBuffer<T>) -> nat {
        buffer.bytes as nat
    }

    /// All elements start as the default value of `T`. Elements of no size
    /// take no room, and the buffer holds none.
    fn new(size: usize) -> (buffer: HostBuffer<T>) {
        let each: usize = core::mem::size_of::<T>();
        let count: usize = if each == 0 {
            0
        } else {
            size / each
        };
        HostBuffer { cells: vec![T::default(); count], bytes: size }
    }

    fn write_whole(buffer: &mut HostBuffer<T>, values: &Vec<T>) -> (written: Result<
        (),
        BufferError,
    >) {
        if values.len() > buffer.cells.len() {
            return Err(BufferError::TooManyValues);
        }
        let mut i: usize = 0;
        while i < values.len()
            invariant
                i <= values@.len() <= old(buffer).cells@.len(),
                buffer.cells@.len() == old(buffer).cells@.len(),
                buffer.bytes == old(buffer).bytes,
                buffer.cells@ == values@.take(i as int) + old(buffer).cells@.skip(i as int),
            decreases values@.len() - i,
        {
            buffer.cells.set(i, values[i]);
            i += 1;
            assert(buffer.cells@ =~= values@.take(i as int) + old(buffer).cells@.skip(i as int));
        }
        assert(values@.take(i as int) =~= values@);
        Ok(())
    }

    fn write(buffer: &mut HostBuffer<T>, x: T, offset: usize) -> (written: Result<(), BufferError>) {
        if offset >= buffer.cells.len() {
            return Err(BufferError::Overflow);
        }
        buffer.cells.set(offset, x);
        Ok(())
    }

    fn read_whole(buffer: &HostBuffer<T>) -> (values: Vec<T>) {
        let mut values: Vec<T> = Vec::new();
        let mut i: usize = 0;
        while i < buffer.cells.len()
            invariant
                i <= buffer.cells@.len(),
                values@ == buffer.cells@.take(i as int),
            decreases buffer.cells@.len() - i,
        {
            values.push(buffer.cells[i]);
            i += 1;
            assert(values@ =~= buffer.cells@.take(i as int));
        }
        assert(buffer.cells@.take(i as int) =~= buffer.cells@);
        values
    }

    fn read(buffer: &HostBuffer<T>, offset: usize) -> (value: Option<&T>) {
        if offset < buffer.cells.len() {
            Some(&buffer.cells[offset])
        } else {
            None
        }
    }
}

/// Errors of the host backend.
#[derive(Debug, PartialEq, Eq, Structural)]
pub enum HostError {
    /// The context has fewer textures left than the framebuffer needs.
    OutOfTextures,
}

/// A texture of the host backend. It holds no texels, only where it came
/// from.
#[derive(Copy, Clone, Debug)]
pub struct HostTexture {
    /// The position of the request that made the texture.
    pub request: usize,
    /// The format that the texture was asked for with.
    pub format: PixelFormat,
}

/// The texture state of the host backend: the requests that it has served,
/// oldest first.
pub struct HostTextures<D: Dimensionable> {
    pub requests: Vec<TextureRequest<D::Size>>,
}

impl<D: Dimensionable> HostTextures<D> {
    /// A state that has served no request.
    pub fn new() -> (state: Self)
        ensures
            state.requests@ == Seq::<TextureRequest<D::Size>>::empty(),
    {
        HostTextures { requests: Vec::new() }
    }
}

impl<D: Dimensionable> ReifyState<D> for HostTextures<D> {
    open spec fn reified(&self) -> Seq<TextureRequest<D::Size>> {
        self.requests@
    }
}

impl<L, D, P> ReifyTexture<Host, L, D, P> for HostTextures<D> where
    L: Layerable,
    D: Dimensionable,
    P: Pixel,
 {
    type Texture = HostTexture;

    open spec fn request_of(texture: &HostTexture) -> nat {
        texture.request as nat
    }

    open spec fn format_of(texture: &HostTexture) -> PixelFormat {
        texture.format
    }

    fn reify_texture(_ctx: &mut Host, size: D::Size, mipmaps: usize, state: &mut Self) -> (texture:
        HostTexture) {
        let request: usize = state.requests.len();
        let format = P::pixel_format();
        state.requests.push(TextureRequest { format, size, mipmaps });
        HostTexture { request, format }
    }
}

/// The back buffer of the host backend: only its size.
#[derive(Copy, Clone, Debug)]
pub struct HostBackBuffer {
    pub size: [u32; 2],
}

/// The number of textures that a framebuffer of the given formats needs:
/// one for each color format and one for the depth format.
pub open spec fn textures_needed(colors: Seq<PixelFormat>, depth: Option<PixelFormat>) -> nat {
    colors.len() + depth_formats(depth).len()
}

/// A framebuffer of the host backend, with color slot `CS` and depth slot
/// `DS`.
pub struct HostFramebuffer<L, D, CS, DS> where
    L: Layerable,
    D: Dimensionable,
    CS: ColorSlot<Host, L, D, HostTextures<D>>,
    DS: DepthSlot<Host, L, D, HostTextures<D>>,
 {
    size: D::Size,
    mipmaps: usize,
    textures: HostTextures<D>,
    color: CS::ColorTextures,
    depth: DS::DepthTexture,
    _l: PhantomData<L>,
}

impl<L, D, CS, DS> HostFramebuffer<L, D, CS, DS> where
    L: Layerable,
    D: Dimensionable,
    CS: ColorSlot<Host, L, D, HostTextures<D>>,
    DS: DepthSlot<Host, L, D, HostTextures<D>>,
 {
    /// The number of mipmaps that the framebuffer was created with.
    pub closed spec fn spec_mipmaps(&self) -> usize {
        self.mipmaps
    }

    /// The number of mipmaps that the framebuffer was created with.
    pub fn mipmaps(&self) -> (mipmaps: usize)
        ensures
            mipmaps == self.spec_mipmaps(),
    {
        self.mipmaps
    }

    /// The state that the textures of the framebuffer were reified into.
    pub fn textures(&self) -> (state: &HostTextures<D>)
        ensures
            *state == self.spec_textures(),
    {
        &self.textures
    }
}

impl<L, D, CS, DS> Framebuffer<Host, L, D> for HostFramebuffer<L, D, CS, DS> where
    L: Layerable,
    D: Dimensionable,
    CS: ColorSlot<Host, L, D, HostTextures<D>>,
    DS: DepthSlot<Host, L, D, HostTextures<D>>,
 {
    type BackBuffer = HostBackBuffer;

    type Textures = HostTextures<D>;

    type ColorSlot = CS;

    type DepthSlot = DS;

    type Err = HostError;

    open spec fn back_buffer_size(back_buffer: &HostBackBuffer) -> [u32; 2] {
        back_buffer.size
    }

    closed spec fn spec_dimension(&self) -> D::Size {
        self.size
    }

    closed spec fn spec_textures(&self) -> HostTextures<D> {
        self.textures
    }

    closed spec fn spec_color_slot(&self) -> CS::ColorTextures {
        self.color
    }

    closed spec fn spec_depth_slot(&self) -> DS::DepthTexture {
        self.depth
    }

    /// The back buffer is there already: the call always succeeds, and the
    /// context is left as it was.
    fn back_buffer(ctx: &mut Host, size: [u32; 2]) -> (back_buffer: Result<
        HostBackBuffer,
        HostError,
    >)
        ensures
            back_buffer is Ok,
            *final(ctx) == *old(ctx),
    {
        Ok(HostBackBuffer { size })
    }

    /// The framebuffer is created if the context has as many textures left
    /// as the framebuffer needs, and these are then taken from the context.
    /// Otherwise nothing is made and the context is left as it was.
    fn new(ctx: &mut Host, size: D::Size, mipmaps: usize) -> (created: Result<Self, HostError>)
        ensures
            created is Ok <==> textures_needed(CS::spec_color_formats(), DS::spec_depth_format())
                <= old(ctx).textures_left,
            created matches Ok(framebuffer) ==> {
                &&& framebuffer.spec_mipmaps() == mipmaps
                &&& final(ctx).textures_left == old(ctx).textures_left - textures_needed(
                    CS::spec_color_formats(),
                    DS::spec_depth_format(),
                )
            },
            created matches Err(error) ==> {
                &&& error == HostError::OutOfTextures
                &&& *final(ctx) == *old(ctx)
            },
    {
        let colors = CS::color_formats();
        let depth = DS::depth_format();
        proof {
            CS::color_formats_are_renderable();
        }
        let needed: usize = if depth.is_some() {
            colors.len() + 1
        } else {
            colors.len()
        };
        if needed > ctx.textures_left {
            return Err(HostError::OutOfTextures);
        }
        let left: usize = ctx.textures_left - needed;
        let mut textures = HostTextures::new();
        let color = CS::reify_textures(ctx, size, mipmaps, &mut textures);
        let depth = DS::reify_texture(ctx, size, mipmaps, &mut textures);
        ctx.textures_left = left;
        proof {
            assert(textures.requests@ =~= framebuffer_requests(
                CS::spec_color_formats(),
                DS::spec_depth_format(),
                size,
                mipmaps,
            ));
        }
        Ok(HostFramebuffer { size, mipmaps, textures, color, depth, _l: PhantomData })
    }

    fn dimension(&self) -> (size: D::Size) {
        self.size
    }

    fn color_slot(&self) -> (slot: &CS::ColorTextures) {
        &self.color
    }

    fn depth_slot(&self) -> (slot: &DS::DepthTexture) {
        &self.depth
    }
}

} // verus!
