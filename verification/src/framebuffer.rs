//! Framebuffers and their slots.
//!
//! A framebuffer holds the images that are rendered to. It has *color
//! buffers*, possibly several and of different formats, and at most one
//! *depth buffer*.
//!
//! # Framebuffer slots
//!
//! A slot says, by its type alone, which formats the buffers of one kind
//! have: `()` for none, a pixel type for one, a tuple of pixel types for
//! several. A slot turns its formats into textures, with one request to the
//! backend for each format, in the order of the formats.
//!
//! Color buffers are abstracted by [`ColorSlot`] and the depth buffer by
//! [`DepthSlot`].

use crate::pixel::{color_renderable, ColorPixel, DepthPixel, Pixel, PixelFormat, RenderablePixel};
use crate::texture::{Dim2, Dimensionable, Layerable};
use vstd::prelude::*;

pub mod tuples;

verus! {

/// The largest number of color buffers that a framebuffer can have.
pub const MAX_COLOR_BUFFERS: usize = 16;

/// One request for a texture: its format, its size and the number of
/// mipmaps beside the base level.
#[derive(Debug)]
pub struct TextureRequest<S> {
    pub format: PixelFormat,
    pub size: S,
    pub mipmaps: usize,
}

/// The requests that a slot of the given formats makes for textures of one
/// size and number of mipmaps: one for each format, in the same order.
pub open spec fn requests_for<S>(formats: Seq<PixelFormat>, size: S, mipmaps: usize) -> Seq<
    TextureRequest<S>,
> {
    Seq::new(formats.len(), |i: int| TextureRequest { format: formats[i], size, mipmaps })
}

/// The positions `first`, `first + 1`, and so on: `count` of them.
pub open spec fn positions_from(first: nat, count: nat) -> Seq<nat> {
    Seq::new(count, |i: int| (first + i) as nat)
}

/// The formats of a depth slot as a list: the one format, or none.
pub open spec fn depth_formats(format: Option<PixelFormat>) -> Seq<PixelFormat> {
    match format {
        Some(format) => seq![format],
        None => Seq::empty(),
    }
}

/// The requests that a framebuffer makes when it is created: those of its
/// color slot, then that of its depth slot, all of one size and number of
/// mipmaps.
pub open spec fn framebuffer_requests<S>(
    colors: Seq<PixelFormat>,
    depth: Option<PixelFormat>,
    size: S,
    mipmaps: usize,
) -> Seq<TextureRequest<S>> {
    requests_for(colors, size, mipmaps) + requests_for(depth_formats(depth), size, mipmaps)
}

/// Textures come in the order of the formats: where a slot of the given
/// formats has made its requests after those in `before`, the request at the
/// position of the `i`-th texture asks for the `i`-th format, with the size
/// and number of mipmaps of the call, and the requests in `before` are as
/// they were.
pub proof fn reified_in_order<S>(
    before: Seq<TextureRequest<S>>,
    formats: Seq<PixelFormat>,
    size: S,
    mipmaps: usize,
)
    ensures
        (before + requests_for(formats, size, mipmaps)).len() == before.len() + formats.len(),
        (before + requests_for(formats, size, mipmaps)).take(before.len() as int) == before,
        forall|i: int|
            0 <= i < formats.len() ==> (before + requests_for(formats, size, mipmaps))[(
            #[trigger] positions_from(before.len(), formats.len())[i]) as int] == (TextureRequest {
                format: formats[i],
                size,
                mipmaps,
            }),
{
    assert((before + requests_for(formats, size, mipmaps)).take(before.len() as int) =~= before);
}

/// Before a slot has asked for anything, the requests are those from
/// before, and no texture has a position.
pub proof fn no_request<S>(before: Seq<TextureRequest<S>>, size: S, mipmaps: usize) -> (asked: Seq<
    PixelFormat,
>)
    ensures
        asked == Seq::<PixelFormat>::empty(),
        before + requests_for(asked, size, mipmaps) == before,
        positions_from(before.len(), 0) == Seq::<nat>::empty(),
{
    let asked = Seq::<PixelFormat>::empty();
    assert(before + requests_for(asked, size, mipmaps) =~= before);
    assert(positions_from(before.len(), 0) =~= Seq::<nat>::empty());
    asked
}

/// Where a slot has asked for the formats in `asked` and asks for one more,
/// it has made the requests of `asked` with that format added at the end,
/// and the new texture has the position that follows those of the others.
pub proof fn one_more_request<S>(
    before: Seq<TextureRequest<S>>,
    asked: Seq<PixelFormat>,
    format: PixelFormat,
    size: S,
    mipmaps: usize,
) -> (extended: Seq<PixelFormat>)
    ensures
        extended == asked.push(format),
        (before + requests_for(asked, size, mipmaps)).len() == before.len() + asked.len(),
        before + requests_for(extended, size, mipmaps) == (before + requests_for(
            asked,
            size,
            mipmaps,
        )).push(TextureRequest { format, size, mipmaps }),
        positions_from(before.len(), extended.len()) == positions_from(
            before.len(),
            asked.len(),
        ).push(before.len() + asked.len()),
{
    let extended = asked.push(format);
    assert(before + requests_for(extended, size, mipmaps) =~= (before + requests_for(
        asked,
        size,
        mipmaps,
    )).push(TextureRequest { format, size, mipmaps }));
    assert(positions_from(before.len(), extended.len()) =~= positions_from(
        before.len(),
        asked.len(),
    ).push(before.len() + asked.len()));
    extended
}

/// State that textures are reified into. It remembers every request that it
/// has served.
pub trait ReifyState<D: Dimensionable> {
    /// The requests served so far, oldest first.
    spec fn reified(&self) -> Seq<TextureRequest<D::Size>>;
}

/// Reify a texture of pixel type `P`.
pub trait ReifyTexture<C, L, D, P>: ReifyState<D> + Sized where
    L: Layerable,
    D: Dimensionable,
    P: Pixel,
 {
    type Texture;

    /// The position, among the requests that the state has served, of the
    /// request that made the texture.
    spec fn request_of(texture: &Self::Texture) -> nat;

    /// The format that the texture was made with.
    spec fn format_of(texture: &Self::Texture) -> PixelFormat;

    /// Make a texture of the format of `P`, with the given size and number of
    /// mipmaps. The state serves exactly one more request: this one.
    fn reify_texture(ctx: &mut C, size: D::Size, mipmaps: usize, state: &mut Self) -> (texture:
        Self::Texture)
        ensures
            final(state).reified() == old(state).reified().push(
                TextureRequest { format: P::spec_pixel_format(), size, mipmaps },
            ),
            Self::request_of(&texture) == old(state).reified().len(),
            Self::format_of(&texture) == P::spec_pixel_format(),
    ;
}

/// The color buffers of a framebuffer.
pub trait ColorSlot<C, L, D, I> where L: Layerable, D: Dimensionable, I: ReifyState<D> {
    type ColorTextures;

    /// The formats of the color buffers, in order.
    spec fn spec_color_formats() -> Seq<PixelFormat>;

    /// For each texture, in order, the position of the request that made it.
    spec fn requests_of(textures: &Self::ColorTextures) -> Seq<nat>;

    /// For each texture, in order, the format that it was made with.
    spec fn formats_of(textures: &Self::ColorTextures) -> Seq<PixelFormat>;

    /// A slot has at most [`MAX_COLOR_BUFFERS`] formats, and a color buffer
    /// can have each of them.
    proof fn color_formats_are_renderable()
        ensures
            Self::spec_color_formats().len() <= MAX_COLOR_BUFFERS,
            forall|i: int|
                0 <= i < Self::spec_color_formats().len()
                    ==> (#[trigger] Self::spec_color_formats()[i]).is_color_renderable,
    ;

    /// The formats of the color buffers, in order. No backend is needed to
    /// know them.
    fn color_formats() -> (formats: Vec<PixelFormat>)
        ensures
            formats@ == Self::spec_color_formats(),
    ;

    /// Reify a list of raw textures: one for each format, requested in the
    /// order of the formats, all of the given size and number of mipmaps.
    /// The textures come back in the order of the formats. A slot without
    /// formats asks for nothing.
    fn reify_textures(ctx: &mut C, size: D::Size, mipmaps: usize, textures: &mut I) -> (reified:
        Self::ColorTextures)
        ensures
            final(textures).reified() == old(textures).reified() + requests_for(
                Self::spec_color_formats(),
                size,
                mipmaps,
            ),
            Self::requests_of(&reified) == positions_from(
                old(textures).reified().len(),
                Self::spec_color_formats().len(),
            ),
            Self::formats_of(&reified) == Self::spec_color_formats(),
            Self::spec_color_formats().len() == 0 ==> *final(textures) == *old(textures),
            Self::spec_color_formats().len() == 0 ==> *final(ctx) == *old(ctx),
    ;
}

impl<C, L, D, I> ColorSlot<C, L, D, I> for () where L: Layerable, D: Dimensionable, I: ReifyState<D> {
    type ColorTextures = ();

    open spec fn spec_color_formats() -> Seq<PixelFormat> {
        Seq::empty()
    }

    open spec fn requests_of(textures: &()) -> Seq<nat> {
        Seq::empty()
    }

    open spec fn formats_of(textures: &()) -> Seq<PixelFormat> {
        Seq::empty()
    }

    proof fn color_formats_are_renderable() {
    }

    fn color_formats() -> (formats: Vec<PixelFormat>) {
        Vec::new()
    }

    fn reify_textures(_ctx: &mut C, size: D::Size, mipmaps: usize, textures: &mut I) -> (reified: ()) {
        proof {
            let before = old(textures).reified();
            assert(before + requests_for(Seq::<PixelFormat>::empty(), size, mipmaps) =~= before);
            assert(positions_from(before.len(), 0) =~= Seq::<nat>::empty());
        }
        ()
    }
}

impl<C, L, D, I, P> ColorSlot<C, L, D, I> for P where
    L: Layerable,
    D: Dimensionable,
    I: ReifyTexture<C, L, D, P>,
    P: ColorPixel + RenderablePixel,
 {
    type ColorTextures = <I as ReifyTexture<C, L, D, P>>::Texture;

    open spec fn spec_color_formats() -> Seq<PixelFormat> {
        seq![P::spec_pixel_format()]
    }

    open spec fn requests_of(textures: &Self::ColorTextures) -> Seq<nat> {
        seq![<I as ReifyTexture<C, L, D, P>>::request_of(textures)]
    }

    open spec fn formats_of(textures: &Self::ColorTextures) -> Seq<PixelFormat> {
        seq![<I as ReifyTexture<C, L, D, P>>::format_of(textures)]
    }

    proof fn color_formats_are_renderable() {
        color_renderable::<P>();
    }

    fn color_formats() -> (formats: Vec<PixelFormat>) {
        vec![P::pixel_format()]
    }

    fn reify_textures(ctx: &mut C, size: D::Size, mipmaps: usize, state: &mut I) -> (reified:
        Self::ColorTextures) {
        let texture = I::reify_texture(ctx, size, mipmaps, state);
        proof {
            let before = old(state).reified();
            assert(state.reified() =~= before + requests_for(
                seq![P::spec_pixel_format()],
                size,
                mipmaps,
            ));
            assert(positions_from(before.len(), 1) =~= seq![before.len()]);
        }
        texture
    }
}

/// The depth buffer of a framebuffer.
pub trait DepthSlot<C, L, D, I> where L: Layerable, D: Dimensionable, I: ReifyState<D> {
    type DepthTexture;

    /// The format of the depth buffer, if there is a depth buffer.
    spec fn spec_depth_format() -> Option<PixelFormat>;

    /// The position of the request that made the texture, if there is a
    /// texture.
    spec fn depth_request_of(texture: &Self::DepthTexture) -> Option<nat>;

    /// The format that the texture was made with, if there is a texture.
    spec fn depth_format_of(texture: &Self::DepthTexture) -> Option<PixelFormat>;

    /// A depth buffer can have the format of the slot.
    proof fn depth_format_is_depth_capable()
        ensures
            Self::spec_depth_format() matches Some(format) ==> format.is_depth_capable,
    ;

    /// The format of the depth buffer, if there is a depth buffer. No backend
    /// is needed to know it.
    fn depth_format() -> (format: Option<PixelFormat>)
        ensures
            format == Self::spec_depth_format(),
    ;

    /// Reify the depth texture, of the given size and number of mipmaps. A
    /// slot without a format asks for nothing.
    fn reify_texture(ctx: &mut C, size: D::Size, mipmaps: usize, state: &mut I) -> (reified:
        Self::DepthTexture)
        ensures
            final(state).reified() == old(state).reified() + requests_for(
                depth_formats(Self::spec_depth_format()),
                size,
                mipmaps,
            ),
            Self::depth_request_of(&reified) == match Self::spec_depth_format() {
                Some(_) => Some(old(state).reified().len()),
                None => None,
            },
            Self::depth_format_of(&reified) == Self::spec_depth_format(),
            Self::spec_depth_format() is None ==> *final(state) == *old(state),
            Self::spec_depth_format() is None ==> *final(ctx) == *old(ctx),
    ;
}

impl<C, L, D, I> DepthSlot<C, L, D, I> for () where L: Layerable, D: Dimensionable, I: ReifyState<D> {
    type DepthTexture = ();

    open spec fn spec_depth_format() -> Option<PixelFormat> {
        None
    }

    open spec fn depth_request_of(texture: &()) -> Option<nat> {
        None
    }

    open spec fn depth_format_of(texture: &()) -> Option<PixelFormat> {
        None
    }

    proof fn depth_format_is_depth_capable() {
    }

    fn depth_format() -> (format: Option<PixelFormat>) {
        None
    }

    fn reify_texture(_ctx: &mut C, size: D::Size, mipmaps: usize, state: &mut I) -> (reified: ()) {
        proof {
            let before = old(state).reified();
            assert(before + requests_for(depth_formats(None), size, mipmaps) =~= before);
        }
        ()
    }
}

impl<C, L, D, I, P> DepthSlot<C, L, D, I> for P where
    L: Layerable,
    D: Dimensionable,
    I: ReifyTexture<C, L, D, P>,
    P: DepthPixel,
 {
    type DepthTexture = <I as ReifyTexture<C, L, D, P>>::Texture;

    open spec fn spec_depth_format() -> Option<PixelFormat> {
        Some(P::spec_pixel_format())
    }

    open spec fn depth_request_of(texture: &Self::DepthTexture) -> Option<nat> {
        Some(<I as ReifyTexture<C, L, D, P>>::request_of(texture))
    }

    open spec fn depth_format_of(texture: &Self::DepthTexture) -> Option<PixelFormat> {
        Some(<I as ReifyTexture<C, L, D, P>>::format_of(texture))
    }

    proof fn depth_format_is_depth_capable() {
        P::depth_is_depth_capable();
    }

    fn depth_format() -> (format: Option<PixelFormat>) {
        Some(P::pixel_format())
    }

    fn reify_texture(ctx: &mut C, size: D::Size, mipmaps: usize, state: &mut I) -> (reified:
        Self::DepthTexture) {
        let texture = I::reify_texture(ctx, size, mipmaps, state);
        proof {
            let before = old(state).reified();
            assert(state.reified() =~= before + requests_for(
                depth_formats(Some(P::spec_pixel_format())),
                size,
                mipmaps,
            ));
        }
        texture
    }
}

/// A framebuffer: color buffers, a depth buffer, a size and a number of
/// mipmaps. A backend implements this trait for its render targets.
///
/// The formats are those of the two slots, so they are fixed by the type of
/// the framebuffer.
pub trait Framebuffer<C, L, D>: Sized where L: Layerable, D: Dimensionable {
    type BackBuffer;

    type Textures: ReifyState<D>;

    type ColorSlot: ColorSlot<C, L, D, Self::Textures>;

    type DepthSlot: DepthSlot<C, L, D, Self::Textures>;

    type Err;

    /// The size that a back buffer was asked for with.
    spec fn back_buffer_size(back_buffer: &Self::BackBuffer) -> <Dim2 as Dimensionable>::Size;

    /// The size that the framebuffer was created with.
    spec fn spec_dimension(&self) -> D::Size;

    /// The state that the textures of the framebuffer were reified into.
    spec fn spec_textures(&self) -> Self::Textures;

    /// The textures of the color buffers, in the order of the formats.
    spec fn spec_color_slot(&self) -> <Self::ColorSlot as ColorSlot<
        C,
        L,
        D,
        Self::Textures,
    >>::ColorTextures;

    /// The texture of the depth buffer.
    spec fn spec_depth_slot(&self) -> <Self::DepthSlot as DepthSlot<
        C,
        L,
        D,
        Self::Textures,
    >>::DepthTexture;

    /// Get the back buffer with the given dimension.
    fn back_buffer(ctx: &mut C, size: <Dim2 as Dimensionable>::Size) -> (back_buffer: Result<
        Self::BackBuffer,
        Self::Err,
    >)
        ensures
            back_buffer matches Ok(target) ==> Self::back_buffer_size(&target) == size,
    ;

    /// Create a new framebuffer.
    ///
    /// The base level of each texture is always there. `mipmaps` is the
    /// number of *additional* levels.
    ///
    /// A framebuffer that is handed out has all its textures: one for each
    /// color format, requested in order, then one for the depth format if
    /// there is one, all with the given size and number of mipmaps. Each
    /// texture has the format of its place in the slot.
    fn new(ctx: &mut C, size: D::Size, mipmaps: usize) -> (created: Result<Self, Self::Err>)
        ensures
            created matches Ok(framebuffer) ==> {
                &&& framebuffer.spec_dimension() == size
                &&& framebuffer.spec_textures().reified() == framebuffer_requests(
                    Self::ColorSlot::spec_color_formats(),
                    Self::DepthSlot::spec_depth_format(),
                    size,
                    mipmaps,
                )
                &&& Self::ColorSlot::requests_of(&framebuffer.spec_color_slot()) == positions_from(
                    0,
                    Self::ColorSlot::spec_color_formats().len(),
                )
                &&& Self::DepthSlot::depth_request_of(&framebuffer.spec_depth_slot())
                    == match Self::DepthSlot::spec_depth_format() {
                    Some(_) => Some(Self::ColorSlot::spec_color_formats().len()),
                    None => None,
                }
                &&& Self::ColorSlot::formats_of(&framebuffer.spec_color_slot())
                    == Self::ColorSlot::spec_color_formats()
                &&& Self::DepthSlot::depth_format_of(&framebuffer.spec_depth_slot())
                    == Self::DepthSlot::spec_depth_format()
            },
    ;

    /// Dimension of the framebuffer.
    fn dimension(&self) -> (size: D::Size)
        ensures
            size == self.spec_dimension(),
    ;

    /// Access the textures of the color slot.
    fn color_slot(&self) -> (slot: &<Self::ColorSlot as ColorSlot<
        C,
        L,
        D,
        Self::Textures,
    >>::ColorTextures)
        ensures
            *slot == self.spec_color_slot(),
    ;

    /// Access the texture of the depth slot.
    fn depth_slot(&self) -> (slot: &<Self::DepthSlot as DepthSlot<
        C,
        L,
        D,
        Self::Textures,
    >>::DepthTexture)
        ensures
            *slot == self.spec_depth_slot(),
    ;
}

} // verus!
