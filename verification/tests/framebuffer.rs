use luminance::framebuffer::{ColorSlot, DepthSlot, Framebuffer, ReifyTexture, MAX_COLOR_BUFFERS};
use luminance::host::{Host, HostError, HostFramebuffer, HostTextures};
use luminance::pixel::{
    Depth32F, Pixel, PixelFormat, PixelLayout, R16F, R8UI, RGB9E5, RGBA32F, RGBA8UI,
};
use luminance::texture::{Dim2, Dim3, Flat, Layered};

type State = HostTextures<Dim2>;

fn color_formats<S: ColorSlot<Host, Flat, Dim2, State>>() -> Vec<PixelFormat> {
    S::color_formats()
}

fn depth_format<S: DepthSlot<Host, Flat, Dim2, State>>() -> Option<PixelFormat> {
    S::depth_format()
}

fn layouts(formats: &[PixelFormat]) -> Vec<PixelLayout> {
    formats.iter().map(|format| format.layout).collect()
}

type Sixteen = (
    R8UI,
    RGBA8UI,
    R16F,
    RGBA32F,
    RGBA32F,
    R16F,
    RGBA8UI,
    R8UI,
    R8UI,
    R8UI,
    R16F,
    R16F,
    RGBA8UI,
    RGBA32F,
    RGBA8UI,
    R16F,
);

fn sixteen_layouts() -> Vec<PixelLayout> {
    vec![
        PixelLayout::R8UI,
        PixelLayout::RGBA8UI,
        PixelLayout::R16F,
        PixelLayout::RGBA32F,
        PixelLayout::RGBA32F,
        PixelLayout::R16F,
        PixelLayout::RGBA8UI,
        PixelLayout::R8UI,
        PixelLayout::R8UI,
        PixelLayout::R8UI,
        PixelLayout::R16F,
        PixelLayout::R16F,
        PixelLayout::RGBA8UI,
        PixelLayout::RGBA32F,
        PixelLayout::RGBA8UI,
        PixelLayout::R16F,
    ]
}

#[test]
fn pixel_formats_carry_their_capabilities() {
    let color = RGBA8UI::pixel_format();
    assert_eq!(color.layout, PixelLayout::RGBA8UI);
    assert!(color.is_color_renderable);
    assert!(!color.is_depth_capable);
    let depth = Depth32F::pixel_format();
    assert_eq!(depth.layout, PixelLayout::Depth32F);
    assert!(!depth.is_color_renderable);
    assert!(depth.is_depth_capable);
    let plain = RGB9E5::pixel_format();
    assert_eq!(plain.layout, PixelLayout::RGB9E5);
    assert!(!plain.is_color_renderable);
    assert!(!plain.is_depth_capable);
}

#[test]
fn empty_color_slot_has_no_formats() {
    assert!(color_formats::<()>().is_empty());
}

#[test]
fn single_color_slot_has_its_format() {
    assert_eq!(color_formats::<R16F>(), vec![R16F::pixel_format()]);
}

#[test]
fn color_formats_keep_the_order_of_the_tuple() {
    assert_eq!(
        layouts(&color_formats::<(RGBA8UI, R16F)>()),
        vec![PixelLayout::RGBA8UI, PixelLayout::R16F]
    );
    assert_eq!(
        layouts(&color_formats::<(R16F, RGBA8UI)>()),
        vec![PixelLayout::R16F, PixelLayout::RGBA8UI]
    );
    assert_eq!(
        layouts(&color_formats::<(R8UI, RGBA32F, R16F)>()),
        vec![PixelLayout::R8UI, PixelLayout::RGBA32F, PixelLayout::R16F]
    );
    assert_eq!(
        layouts(&color_formats::<(R8UI, RGBA32F, R16F, R8UI, RGBA8UI)>()),
        vec![
            PixelLayout::R8UI,
            PixelLayout::RGBA32F,
            PixelLayout::R16F,
            PixelLayout::R8UI,
            PixelLayout::RGBA8UI
        ]
    );
}

#[test]
fn sixteen_color_formats_keep_their_order() {
    let formats = color_formats::<Sixteen>();
    assert_eq!(formats.len(), MAX_COLOR_BUFFERS);
    assert_eq!(layouts(&formats), sixteen_layouts());
    assert!(formats.iter().all(|format| format.is_color_renderable));
}

#[test]
fn depth_slot_publishes_its_format() {
    assert_eq!(depth_format::<()>(), None);
    assert_eq!(depth_format::<Depth32F>(), Some(Depth32F::pixel_format()));
}

#[test]
fn empty_slots_ask_for_nothing() {
    let mut ctx = Host::new(3);
    let mut state: State = HostTextures::new();
    <() as ColorSlot<Host, Flat, Dim2, State>>::reify_textures(&mut ctx, [4, 4], 0, &mut state);
    <() as DepthSlot<Host, Flat, Dim2, State>>::reify_texture(&mut ctx, [4, 4], 0, &mut state);
    assert!(state.requests.is_empty());
    assert_eq!(ctx.textures_left, 3);
}

#[test]
fn empty_slots_leave_earlier_requests() {
    let mut ctx = Host::new(0);
    let mut state: State = HostTextures::new();
    <R8UI as ColorSlot<Host, Flat, Dim2, State>>::reify_textures(&mut ctx, [2, 2], 0, &mut state);
    <() as ColorSlot<Host, Flat, Dim2, State>>::reify_textures(&mut ctx, [4, 4], 3, &mut state);
    <() as DepthSlot<Host, Flat, Dim2, State>>::reify_texture(&mut ctx, [4, 4], 3, &mut state);
    assert_eq!(state.requests.len(), 1);
    assert_eq!(state.requests[0].format, R8UI::pixel_format());
    assert_eq!(state.requests[0].size, [2, 2]);
    assert_eq!(state.requests[0].mipmaps, 0);
}

#[test]
fn reify_texture_serves_one_request() {
    let mut ctx = Host::new(0);
    let mut state: State = HostTextures::new();
    let first = <State as ReifyTexture<Host, Flat, Dim2, R16F>>::reify_texture(
        &mut ctx,
        [8, 4],
        2,
        &mut state,
    );
    let second = <State as ReifyTexture<Host, Flat, Dim2, Depth32F>>::reify_texture(
        &mut ctx,
        [16, 16],
        0,
        &mut state,
    );
    assert_eq!(first.request, 0);
    assert_eq!(first.format, R16F::pixel_format());
    assert_eq!(second.request, 1);
    assert_eq!(second.format, Depth32F::pixel_format());
    assert_eq!(state.requests.len(), 2);
    assert_eq!(state.requests[0].format, R16F::pixel_format());
    assert_eq!(state.requests[0].size, [8, 4]);
    assert_eq!(state.requests[0].mipmaps, 2);
    assert_eq!(state.requests[1].format, Depth32F::pixel_format());
    assert_eq!(state.requests[1].size, [16, 16]);
    assert_eq!(state.requests[1].mipmaps, 0);
}

#[test]
fn single_slot_reifies_one_texture() {
    let mut ctx = Host::new(0);
    let mut state: State = HostTextures::new();
    let texture =
        <RGBA32F as ColorSlot<Host, Flat, Dim2, State>>::reify_textures(&mut ctx, [1, 1], 0, &mut state);
    assert_eq!(texture.request, 0);
    assert_eq!(texture.format, RGBA32F::pixel_format());
    assert_eq!(state.requests.len(), 1);
}

#[test]
fn tuple_slot_reifies_in_the_order_of_its_formats() {
    let mut ctx = Host::new(0);
    let mut state: State = HostTextures::new();
    <Depth32F as DepthSlot<Host, Flat, Dim2, State>>::reify_texture(&mut ctx, [2, 2], 0, &mut state);
    let textures = <(R16F, RGBA8UI, R8UI) as ColorSlot<Host, Flat, Dim2, State>>::reify_textures(
        &mut ctx,
        [64, 32],
        4,
        &mut state,
    );
    assert_eq!(textures.0.request, 1);
    assert_eq!(textures.1.request, 2);
    assert_eq!(textures.2.request, 3);
    assert_eq!(textures.0.format, R16F::pixel_format());
    assert_eq!(textures.1.format, RGBA8UI::pixel_format());
    assert_eq!(textures.2.format, R8UI::pixel_format());
    assert_eq!(state.requests.len(), 4);
    assert_eq!(state.requests[0].format, Depth32F::pixel_format());
    assert_eq!(state.requests[0].size, [2, 2]);
    let expected = [R16F::pixel_format(), RGBA8UI::pixel_format(), R8UI::pixel_format()];
    for (i, format) in expected.iter().enumerate() {
        assert_eq!(state.requests[1 + i].format, *format);
        assert_eq!(state.requests[1 + i].size, [64, 32]);
        assert_eq!(state.requests[1 + i].mipmaps, 4);
    }
}

#[test]
fn sixteen_textures_come_in_order() {
    let mut ctx = Host::new(0);
    let mut state: State = HostTextures::new();
    let textures =
        <Sixteen as ColorSlot<Host, Flat, Dim2, State>>::reify_textures(&mut ctx, [4, 4], 1, &mut state);
    let handles = [
        textures.0,
        textures.1,
        textures.2,
        textures.3,
        textures.4,
        textures.5,
        textures.6,
        textures.7,
        textures.8,
        textures.9,
        textures.10,
        textures.11,
        textures.12,
        textures.13,
        textures.14,
        textures.15,
    ];
    let expected = sixteen_layouts();
    assert_eq!(state.requests.len(), 16);
    for i in 0..16 {
        assert_eq!(handles[i].request, i);
        assert_eq!(handles[i].format.layout, expected[i]);
        assert_eq!(state.requests[i].format.layout, expected[i]);
        assert_eq!(state.requests[i].size, [4, 4]);
        assert_eq!(state.requests[i].mipmaps, 1);
    }
}

#[test]
fn framebuffer_with_two_colors_and_a_depth() {
    type Target = HostFramebuffer<Flat, Dim2, (RGBA8UI, R16F), Depth32F>;
    let mut ctx = Host::new(8);
    let framebuffer = <Target as Framebuffer<Host, Flat, Dim2>>::new(&mut ctx, [256, 256], 1).unwrap();
    let colors = color_formats::<<Target as Framebuffer<Host, Flat, Dim2>>::ColorSlot>();
    assert_eq!(colors.len(), 2);
    assert_eq!(colors, vec![RGBA8UI::pixel_format(), R16F::pixel_format()]);
    let depth = depth_format::<<Target as Framebuffer<Host, Flat, Dim2>>::DepthSlot>();
    assert_eq!(depth, Some(Depth32F::pixel_format()));
    assert_eq!(framebuffer.dimension(), [256, 256]);
    assert_eq!(framebuffer.mipmaps(), 1);
    let color = framebuffer.color_slot();
    assert_eq!(color.0.request, 0);
    assert_eq!(color.0.format, RGBA8UI::pixel_format());
    assert_eq!(color.1.request, 1);
    assert_eq!(color.1.format, R16F::pixel_format());
    let depth = framebuffer.depth_slot();
    assert_eq!(depth.request, 2);
    assert_eq!(depth.format, Depth32F::pixel_format());
    let requests = &framebuffer.textures().requests;
    assert_eq!(requests.len(), 3);
    let expected = [RGBA8UI::pixel_format(), R16F::pixel_format(), Depth32F::pixel_format()];
    for i in 0..3 {
        assert_eq!(requests[i].format, expected[i]);
        assert_eq!(requests[i].size, [256, 256]);
        assert_eq!(requests[i].mipmaps, 1);
    }
    assert_eq!(ctx.textures_left, 5);
}

#[test]
fn framebuffer_without_buffers_needs_no_texture() {
    type Target = HostFramebuffer<Flat, Dim2, (), ()>;
    let mut ctx = Host::new(0);
    let framebuffer = <Target as Framebuffer<Host, Flat, Dim2>>::new(&mut ctx, [1, 1], 0).unwrap();
    assert!(framebuffer.textures().requests.is_empty());
    assert_eq!(framebuffer.dimension(), [1, 1]);
    assert_eq!(framebuffer.color_slot(), &());
    assert_eq!(framebuffer.depth_slot(), &());
    assert_eq!(ctx.textures_left, 0);
}

#[test]
fn framebuffer_with_a_depth_only() {
    type Target = HostFramebuffer<Flat, Dim2, (), Depth32F>;
    let mut ctx = Host::new(1);
    let framebuffer = <Target as Framebuffer<Host, Flat, Dim2>>::new(&mut ctx, [32, 16], 0).unwrap();
    assert_eq!(framebuffer.depth_slot().request, 0);
    assert_eq!(framebuffer.textures().requests.len(), 1);
    assert_eq!(framebuffer.textures().requests[0].format, Depth32F::pixel_format());
    assert_eq!(ctx.textures_left, 0);
}

#[test]
fn framebuffer_of_three_dimensions_and_layers() {
    type Target = HostFramebuffer<Layered, Dim3, R8UI, ()>;
    let mut ctx = Host::new(1);
    let framebuffer = <Target as Framebuffer<Host, Layered, Dim3>>::new(&mut ctx, [4, 5, 6], 2).unwrap();
    assert_eq!(framebuffer.dimension(), [4, 5, 6]);
    assert_eq!(framebuffer.color_slot().request, 0);
    assert_eq!(framebuffer.textures().requests[0].size, [4, 5, 6]);
    assert_eq!(framebuffer.textures().requests[0].mipmaps, 2);
}

#[test]
fn framebuffer_fails_whole_when_textures_run_out() {
    type Target = HostFramebuffer<Flat, Dim2, (RGBA8UI, R16F), Depth32F>;
    let mut ctx = Host::new(2);
    let made = <Target as Framebuffer<Host, Flat, Dim2>>::new(&mut ctx, [256, 256], 1);
    assert_eq!(made.err(), Some(HostError::OutOfTextures));
    assert_eq!(ctx.textures_left, 2);
    let mut ctx = Host::new(3);
    let made = <Target as Framebuffer<Host, Flat, Dim2>>::new(&mut ctx, [256, 256], 1);
    assert!(made.is_ok());
    assert_eq!(ctx.textures_left, 0);
}

#[test]
fn framebuffer_of_sixteen_colors_and_a_depth() {
    type Target = HostFramebuffer<Flat, Dim2, Sixteen, Depth32F>;
    let mut ctx = Host::new(16);
    assert!(<Target as Framebuffer<Host, Flat, Dim2>>::new(&mut ctx, [8, 8], 0).is_err());
    let mut ctx = Host::new(17);
    let framebuffer = <Target as Framebuffer<Host, Flat, Dim2>>::new(&mut ctx, [8, 8], 0).unwrap();
    assert_eq!(framebuffer.textures().requests.len(), 17);
    assert_eq!(framebuffer.color_slot().15.request, 15);
    assert_eq!(framebuffer.depth_slot().request, 16);
    assert_eq!(ctx.textures_left, 0);
}

#[test]
fn back_buffer_has_the_size_asked_for() {
    type Target = HostFramebuffer<Flat, Dim2, RGBA8UI, Depth32F>;
    let mut ctx = Host::new(0);
    let back = <Target as Framebuffer<Host, Flat, Dim2>>::back_buffer(&mut ctx, [800, 600]).unwrap();
    assert_eq!(back.size, [800, 600]);
    assert_eq!(ctx.textures_left, 0);
}
