//! Color slots of several formats: tuples of two to sixteen pixel types.
//!
//! The formats of a tuple are the formats of its pixel types, first to last,
//! and its textures are requested and handed back in that order.

use crate::framebuffer::{no_request, one_more_request, ColorSlot, ReifyTexture};
use crate::pixel::{color_renderable, ColorPixel, PixelFormat, RenderablePixel};
use crate::texture::{Dimensionable, Layerable};
use vstd::prelude::*;

verus! {

/// A list of two elements is what adding them one by one to the empty
/// list gives.
proof fn list_of_two<A>(
    a0: A, a1: A,
)
    ensures
        seq![
            a0, a1,
        ] == Seq::<A>::empty()
            .push(a0).push(a1),
{
    let listed = seq![
        a0, a1,
    ];
    let added = Seq::<A>::empty()
        .push(a0).push(a1);
    assert(listed =~= added);
}

/// A color slot of two formats.
impl<C, L, D, I, P0, P1> ColorSlot<C, L, D, I> for (P0, P1) where
    L: Layerable,
    D: Dimensionable,
    I: ReifyTexture<C, L, D, P0> + ReifyTexture<C, L, D, P1>,
    P0: ColorPixel + RenderablePixel,
    P1: ColorPixel + RenderablePixel,
 {
    type ColorTextures = (
        <I as ReifyTexture<C, L, D, P0>>::Texture,
        <I as ReifyTexture<C, L, D, P1>>::Texture,
    );

    open spec fn spec_color_formats() -> Seq<PixelFormat> {
        seq![
            P0::spec_pixel_format(),
            P1::spec_pixel_format(),
        ]
    }

    open spec fn requests_of(textures: &Self::ColorTextures) -> Seq<nat> {
        seq![
            <I as ReifyTexture<C, L, D, P0>>::request_of(&textures.0),
            <I as ReifyTexture<C, L, D, P1>>::request_of(&textures.1),
        ]
    }

    open spec fn formats_of(textures: &Self::ColorTextures) -> Seq<PixelFormat> {
        seq![
            <I as ReifyTexture<C, L, D, P0>>::format_of(&textures.0),
            <I as ReifyTexture<C, L, D, P1>>::format_of(&textures.1),
        ]
    }

    proof fn color_formats_are_renderable() {
        color_renderable::<P0>();
        color_renderable::<P1>();
    }

    fn color_formats() -> (formats: Vec<PixelFormat>) {
        vec![
            P0::pixel_format(),
            P1::pixel_format(),
        ]
    }

    fn reify_textures(ctx: &mut C, size: D::Size, mipmaps: usize, state: &mut I) -> (reified:
        Self::ColorTextures) {
        let t0 = <I as ReifyTexture<C, L, D, P0>>::reify_texture(ctx, size, mipmaps, state);
        let t1 = <I as ReifyTexture<C, L, D, P1>>::reify_texture(ctx, size, mipmaps, state);
        let reified = (t0, t1);
        proof {
            let before = old(state).reified();
            let asked = no_request(before, size, mipmaps);
            let asked = one_more_request(before, asked, P0::spec_pixel_format(), size, mipmaps);
            let asked = one_more_request(before, asked, P1::spec_pixel_format(), size, mipmaps);
            list_of_two(
                P0::spec_pixel_format(),
                P1::spec_pixel_format(),
            );
            list_of_two(
                <I as ReifyTexture<C, L, D, P0>>::format_of(&reified.0),
                <I as ReifyTexture<C, L, D, P1>>::format_of(&reified.1),
            );
            list_of_two(
                <I as ReifyTexture<C, L, D, P0>>::request_of(&reified.0),
                <I as ReifyTexture<C, L, D, P1>>::request_of(&reified.1),
            );
        }
        reified
    }
}

/// A list of three elements is what adding them one by one to the empty
/// list gives.
proof fn list_of_three<A>(
    a0: A, a1: A, a2: A,
)
    ensures
        seq![
            a0, a1, a2,
        ] == Seq::<A>::empty()
            .push(a0).push(a1).push(a2),
{
    let listed = seq![
        a0, a1, a2,
    ];
    let added = Seq::<A>::empty()
        .push(a0).push(a1).push(a2);
    assert(listed =~= added);
}

/// A color slot of three formats.
impl<C, L, D, I, P0, P1, P2> ColorSlot<C, L, D, I> for (P0, P1, P2) where
    L: Layerable,
    D: Dimensionable,
    I: ReifyTexture<C, L, D, P0> + ReifyTexture<C, L, D, P1> + ReifyTexture<C, L, D, P2>,
    P0: ColorPixel + RenderablePixel,
    P1: ColorPixel + RenderablePixel,
    P2: ColorPixel + RenderablePixel,
 {
    type ColorTextures = (
        <I as ReifyTexture<C, L, D, P0>>::Texture,
        <I as ReifyTexture<C, L, D, P1>>::Texture,
        <I as ReifyTexture<C, L, D, P2>>::Texture,
    );

    open spec fn spec_color_formats() -> Seq<PixelFormat> {
        seq![
            P0::spec_pixel_format(),
            P1::spec_pixel_format(),
            P2::spec_pixel_format(),
        ]
    }

    open spec fn requests_of(textures: &Self::ColorTextures) -> Seq<nat> {
        seq![
            <I as ReifyTexture<C, L, D, P0>>::request_of(&textures.0),
            <I as ReifyTexture<C, L, D, P1>>::request_of(&textures.1),
            <I as ReifyTexture<C, L, D, P2>>::request_of(&textures.2),
        ]
    }

    open spec fn formats_of(textures: &Self::ColorTextures) -> Seq<PixelFormat> {
        seq![
            <I as ReifyTexture<C, L, D, P0>>::format_of(&textures.0),
            <I as ReifyTexture<C, L, D, P1>>::format_of(&textures.1),
            <I as ReifyTexture<C, L, D, P2>>::format_of(&textures.2),
        ]
    }

    proof fn color_formats_are_renderable() {
        color_renderable::<P0>();
        color_renderable::<P1>();
        color_renderable::<P2>();
    }

    fn color_formats() -> (formats: Vec<PixelFormat>) {
        vec![
            P0::pixel_format(),
            P1::pixel_format(),
            P2::pixel_format(),
        ]
    }

    fn reify_textures(ctx: &mut C, size: D::Size, mipmaps: usize, state: &mut I) -> (reified:
        Self::ColorTextures) {
        let t0 = <I as ReifyTexture<C, L, D, P0>>::reify_texture(ctx, size, mipmaps, state);
        let t1 = <I as ReifyTexture<C, L, D, P1>>::reify_texture(ctx, size, mipmaps, state);
        let t2 = <I as ReifyTexture<C, L, D, P2>>::reify_texture(ctx, size, mipmaps, state);
        let reified = (t0, t1, t2);
        proof {
            let before = old(state).reified();
            let asked = no_request(before, size, mipmaps);
            let asked = one_more_request(before, asked, P0::spec_pixel_format(), size, mipmaps);
            let asked = one_more_request(before, asked, P1::spec_pixel_format(), size, mipmaps);
            let asked = one_more_request(before, asked, P2::spec_pixel_format(), size, mipmaps);
            list_of_three(
                P0::spec_pixel_format(),
                P1::spec_pixel_format(),
                P2::spec_pixel_format(),
            );
            list_of_three(
                <I as ReifyTexture<C, L, D, P0>>::format_of(&reified.0),
                <I as ReifyTexture<C, L, D, P1>>::format_of(&reified.1),
                <I as ReifyTexture<C, L, D, P2>>::format_of(&reified.2),
            );
            list_of_three(
                <I as ReifyTexture<C, L, D, P0>>::request_of(&reified.0),
                <I as ReifyTexture<C, L, D, P1>>::request_of(&reified.1),
                <I as ReifyTexture<C, L, D, P2>>::request_of(&reified.2),
            );
        }
        reified
    }
}

/// A list of four elements is what adding them one by one to the empty
/// list gives.
proof fn list_of_four<A>(
    a0: A, a1: A, a2: A, a3: A,
)
    ensures
        seq![
            a0, a1, a2, a3,
        ] == Seq::<A>::empty()
            .push(a0).push(a1).push(a2).push(a3),
{
    let listed = seq![
        a0, a1, a2, a3,
    ];
    let added = Seq::<A>::empty()
        .push(a0).push(a1).push(a2).push(a3);
    assert(listed =~= added);
}

/// A color slot of four formats.
impl<C, L, D, I, P0, P1, P2, P3> ColorSlot<C, L, D, I> for (P0, P1, P2, P3) where
    L: Layerable,
    D: Dimensionable,
    I: ReifyTexture<C, L, D, P0> + ReifyTexture<C, L, D, P1> + ReifyTexture<C, L, D, P2> + ReifyTexture<C, L, D, P3>,
    P0: ColorPixel + RenderablePixel,
    P1: ColorPixel + RenderablePixel,
    P2: ColorPixel + RenderablePixel,
    P3: ColorPixel + RenderablePixel,
 {
    type ColorTextures = (
        <I as ReifyTexture<C, L, D, P0>>::Texture,
        <I as ReifyTexture<C, L, D, P1>>::Texture,
        <I as ReifyTexture<C, L, D, P2>>::Texture,
        <I as ReifyTexture<C, L, D, P3>>::Texture,
    );

    open spec fn spec_color_formats() -> Seq<PixelFormat> {
        seq![
            P0::spec_pixel_format(),
            P1::spec_pixel_format(),
            P2::spec_pixel_format(),
            P3::spec_pixel_format(),
        ]
    }

    open spec fn requests_of(textures: &Self::ColorTextures) -> Seq<nat> {
        seq![
            <I as ReifyTexture<C, L, D, P0>>::request_of(&textures.0),
            <I as ReifyTexture<C, L, D, P1>>::request_of(&textures.1),
            <I as ReifyTexture<C, L, D, P2>>::request_of(&textures.2),
            <I as ReifyTexture<C, L, D, P3>>::request_of(&textures.3),
        ]
    }

    open spec fn formats_of(textures: &Self::ColorTextures) -> Seq<PixelFormat> {
        seq![
            <I as ReifyTexture<C, L, D, P0>>::format_of(&textures.0),
            <I as ReifyTexture<C, L, D, P1>>::format_of(&textures.1),
            <I as ReifyTexture<C, L, D, P2>>::format_of(&textures.2),
            <I as ReifyTexture<C, L, D, P3>>::format_of(&textures.3),
        ]
    }

    proof fn color_formats_are_renderable() {
        color_renderable::<P0>();
        color_renderable::<P1>();
        color_renderable::<P2>();
        color_renderable::<P3>();
    }

    fn color_formats() -> (formats: Vec<PixelFormat>) {
        vec![
            P0::pixel_format(),
            P1::pixel_format(),
            P2::pixel_format(),
            P3::pixel_format(),
        ]
    }

    fn reify_textures(ctx: &mut C, size: D::Size, mipmaps: usize, state: &mut I) -> (reified:
        Self::ColorTextures) {
        let t0 = <I as ReifyTexture<C, L, D, P0>>::reify_texture(ctx, size, mipmaps, state);
        let t1 = <I as ReifyTexture<C, L, D, P1>>::reify_texture(ctx, size, mipmaps, state);
        let t2 = <I as ReifyTexture<C, L, D, P2>>::reify_texture(ctx, size, mipmaps, state);
        let t3 = <I as ReifyTexture<C, L, D, P3>>::reify_texture(ctx, size, mipmaps, state);
        let reified = (t0, t1, t2, t3);
        proof {
            let before = old(state).reified();
            let asked = no_request(before, size, mipmaps);
            let asked = one_more_request(before, asked, P0::spec_pixel_format(), size, mipmaps);
            let asked = one_more_request(before, asked, P1::spec_pixel_format(), size, mipmaps);
            let asked = one_more_request(before, asked, P2::spec_pixel_format(), size, mipmaps);
            let asked = one_more_request(before, asked, P3::spec_pixel_format(), size, mipmaps);
            list_of_four(
                P0::spec_pixel_format(),
                P1::spec_pixel_format(),
                P2::spec_pixel_format(),
                P3::spec_pixel_format(),
            );
            list_of_four(
                <I as ReifyTexture<C, L, D, P0>>::format_of(&reified.0),
                <I as ReifyTexture<C, L, D, P1>>::format_of(&reified.1),
                <I as ReifyTexture<C, L, D, P2>>::format_of(&reified.2),
                <I as ReifyTexture<C, L, D, P3>>::format_of(&reified.3),
            );
            list_of_four(
                <I as ReifyTexture<C, L, D, P0>>::request_of(&reified.0),
                <I as ReifyTexture<C, L, D, P1>>::request_of(&reified.1),
                <I as ReifyTexture<C, L, D, P2>>::request_of(&reified.2),
                <I as ReifyTexture<C, L, D, P3>>::request_of(&reified.3),
            );
        }
        reified
    }
}

/// A list of five elements is what adding them one by one to the empty
/// list gives.
proof fn list_of_five<A>(
    a0: A, a1: A, a2: A, a3: A, a4: A,
)
    ensures
        seq![
            a0, a1, a2, a3, a4,
        ] == Seq::<A>::empty()
            .push(a0).push(a1).push(a2).push(a3).push(a4),
{
    let listed = seq![
        a0, a1, a2, a3, a4,
    ];
    let added = Seq::<A>::empty()
        .push(a0).push(a1).push(a2).push(a3).push(a4);
    assert(listed =~= added);
}

/// A color slot of five formats.
impl<C, L, D, I, P0, P1, P2, P3, P4> ColorSlot<C, L, D, I> for (P0, P1, P2, P3, P4) where
    L: Layerable,
    D: Dimensionable,
    I: ReifyTexture<C, L, D, P0> + ReifyTexture<C, L, D, P1> + ReifyTexture<C, L, D, P2> + ReifyTexture<C, L, D, P3> + ReifyTexture<C, L, D, P4>,
    P0: ColorPixel + RenderablePixel,
    P1: ColorPixel + RenderablePixel,
    P2: ColorPixel + RenderablePixel,
    P3: ColorPixel + RenderablePixel,
    P4: ColorPixel + RenderablePixel,
 {
    type ColorTextures = (
        <I as ReifyTexture<C, L, D, P0>>::Texture,
        <I as ReifyTexture<C, L, D, P1>>::Texture,
        <I as ReifyTexture<C, L, D, P2>>::Texture,
        <I as ReifyTexture<C, L, D, P3>>::Texture,
        <I as ReifyTexture<C, L, D, P4>>::Texture,
    );

    open spec fn spec_color_formats() -> Seq<PixelFormat> {
        seq![
            P0::spec_pixel_format(),
            P1::spec_pixel_format(),
            P2::spec_pixel_format(),
            P3::spec_pixel_format(),
            P4::spec_pixel_format(),
        ]
    }

    open spec fn requests_of(textures: &Self::ColorTextures) -> Seq<nat> {
        seq![
            <I as ReifyTexture<C, L, D, P0>>::request_of(&textures.0),
            <I as ReifyTexture<C, L, D, P1>>::request_of(&textures.1),
            <I as ReifyTexture<C, L, D, P2>>::request_of(&textures.2),
            <I as ReifyTexture<C, L, D, P3>>::request_of(&textures.3),
            <I as ReifyTexture<C, L, D, P4>>::request_of(&textures.4),
        ]
    }

    open spec fn formats_of(textures: &Self::ColorTextures) -> Seq<PixelFormat> {
        seq![
            <I as ReifyTexture<C, L, D, P0>>::format_of(&textures.0),
            <I as ReifyTexture<C, L, D, P1>>::format_of(&textures.1),
            <I as ReifyTexture<C, L, D, P2>>::format_of(&textures.2),
            <I as ReifyTexture<C, L, D, P3>>::format_of(&textures.3),
            <I as ReifyTexture<C, L, D, P4>>::format_of(&textures.4),
        ]
    }

    proof fn color_formats_are_renderable() {
        color_renderable::<P0>();
        color_renderable::<P1>();
        color_renderable::<P2>();
        color_renderable::<P3>();
        color_renderable::<P4>();
    }

    fn color_formats() -> (formats: Vec<PixelFormat>) {
        vec![
            P0::pixel_format(),
            P1::pixel_format(),
            P2::pixel_format(),
            P3::pixel_format(),
            P4::pixel_format(),
        ]
    }

    fn reify_textures(ctx: &mut C, size: D::Size, mipmaps: usize, state: &mut I) -> (reified:
        Self::ColorTextures) {
        let t0 = <I as ReifyTexture<C, L, D, P0>>::reify_texture(ctx, size, mipmaps, state);
        let t1 = <I as ReifyTexture<C, L, D, P1>>::reify_texture(ctx, size, mipmaps, state);
        let t2 = <I as ReifyTexture<C, L, D, P2>>::reify_texture(ctx, size, mipmaps, state);
        let t3 = <I as ReifyTexture<C, L, D, P3>>::reify_texture(ctx, size, mipmaps, state);
        let t4 = <I as ReifyTexture<C, L, D, P4>>::reify_texture(ctx, size, mipmaps, state);
        let reified = (t0, t1, t2, t3, t4);
        proof {
            let before = old(state).reified();
            let asked = no_request(before, size, mipmaps);
            let asked = one_more_request(before, asked, P0::spec_pixel_format(), size, mipmaps);
            let asked = one_more_request(before, asked, P1::spec_pixel_format(), size, mipmaps);
            let asked = one_more_request(before, asked, P2::spec_pixel_format(), size, mipmaps);
            let asked = one_more_request(before, asked, P3::spec_pixel_format(), size, mipmaps);
            let asked = one_more_request(before, asked, P4::spec_pixel_format(), size, mipmaps);
            list_of_five(
                P0::spec_pixel_format(),
                P1::spec_pixel_format(),
                P2::spec_pixel_format(),
                P3::spec_pixel_format(),
                P4::spec_pixel_format(),
            );
            list_of_five(
                <I as ReifyTexture<C, L, D, P0>>::format_of(&reified.0),
                <I as ReifyTexture<C, L, D, P1>>::format_of(&reified.1),
                <I as ReifyTexture<C, L, D, P2>>::format_of(&reified.2),
                <I as ReifyTexture<C, L, D, P3>>::format_of(&reified.3),
                <I as ReifyTexture<C, L, D, P4>>::format_of(&reified.4),
            );
            list_of_five(
                <I as ReifyTexture<C, L, D, P0>>::request_of(&reified.0),
                <I as ReifyTexture<C, L, D, P1>>::request_of(&reified.1),
                <I as ReifyTexture<C, L, D, P2>>::request_of(&reified.2),
                <I as ReifyTexture<C, L, D, P3>>::request_of(&reified.3),
                <I as ReifyTexture<C, L, D, P4>>::request_of(&reified.4),
            );
        }
        reified
    }
}

/// A list of six elements is what adding them one by one to the empty
/// list gives.
proof fn list_of_six<A>(
    a0: A, a1: A, a2: A, a3: A, a4: A, a5: A,
)
    ensures
        seq![
            a0, a1, a2, a3, a4, a5,
        ] == Seq::<A>::empty()
            .push(a0).push(a1).push(a2).push(a3).push(a4).push(a5),
{
    let listed = seq![
        a0, a1, a2, a3, a4, a5,
    ];
    let added = Seq::<A>::empty()
        .push(a0).push(a1).push(a2).push(a3).push(a4).push(a5);
    assert(listed =~= added);
}

/// A color slot of six formats.
impl<C, L, D, I, P0, P1, P2, P3, P4, P5> ColorSlot<C, L, D, I> for (P0, P1, P2, P3, P4, P5) where
    L: Layerable,
    D: Dimensionable,
    I: ReifyTexture<C, L, D, P0> + ReifyTexture<C, L, D, P1> + ReifyTexture<C, L, D, P2> + ReifyTexture<C, L, D, P3> + ReifyTexture<C, L, D, P4> + ReifyTexture<C, L, D, P5>,
    P0: ColorPixel + RenderablePixel,
    P1: ColorPixel + RenderablePixel,
    P2: ColorPixel + RenderablePixel,
    P3: ColorPixel + RenderablePixel,
    P4: ColorPixel + RenderablePixel,
    P5: ColorPixel + RenderablePixel,
 {
    type ColorTextures = (
        <I as ReifyTexture<C, L, D, P0>>::Texture,
        <I as ReifyTexture<C, L, D, P1>>::Texture,
        <I as ReifyTexture<C, L, D, P2>>::Texture,
        <I as ReifyTexture<C, L, D, P3>>::Texture,
        <I as ReifyTexture<C, L, D, P4>>::Texture,
        <I as ReifyTexture<C, L, D, P5>>::Texture,
    );

    open spec fn spec_color_formats() -> Seq<PixelFormat> {
        seq![
            P0::spec_pixel_format(),
            P1::spec_pixel_format(),
            P2::spec_pixel_format(),
            P3::spec_pixel_format(),
            P4::spec_pixel_format(),
            P5::spec_pixel_format(),
        ]
    }

    open spec fn requests_of(textures: &Self::ColorTextures) -> Seq<nat> {
        seq![
            <I as ReifyTexture<C, L, D, P0>>::request_of(&textures.0),
            <I as ReifyTexture<C, L, D, P1>>::request_of(&textures.1),
            <I as ReifyTexture<C, L, D, P2>>::request_of(&textures.2),
            <I as ReifyTexture<C, L, D, P3>>::request_of(&textures.3),
            <I as ReifyTexture<C, L, D, P4>>::request_of(&textures.4),
            <I as ReifyTexture<C, L, D, P5>>::request_of(&textures.5),
        ]
    }

    open spec fn formats_of(textures: &Self::ColorTextures) -> Seq<PixelFormat> {
        seq![
            <I as ReifyTexture<C, L, D, P0>>::format_of(&textures.0),
            <I as ReifyTexture<C, L, D, P1>>::format_of(&textures.1),
            <I as ReifyTexture<C, L, D, P2>>::format_of(&textures.2),
            <I as ReifyTexture<C, L, D, P3>>::format_of(&textures.3),
            <I as ReifyTexture<C, L, D, P4>>::format_of(&textures.4),
            <I as ReifyTexture<C, L, D, P5>>::format_of(&textures.5),
        ]
    }

    proof fn color_formats_are_renderable() {
        color_renderable::<P0>();
        color_renderable::<P1>();
        color_renderable::<P2>();
        color_renderable::<P3>();
        color_renderable::<P4>();
        color_renderable::<P5>();
    }

    fn color_formats() -> (formats: Vec<PixelFormat>) {
        vec![
            P0::pixel_format(),
            P1::pixel_format(),
            P2::pixel_format(),
            P3::pixel_format(),
            P4::pixel_format(),
            P5::pixel_format(),
        ]
    }

    fn reify_textures(ctx: &mut C, size: D::Size, mipmaps: usize, state: &mut I) -> (reified:
        Self::ColorTextures) {
        let t0 = <I as ReifyTexture<C, L, D, P0>>::reify_texture(ctx, size, mipmaps, state);
        let t1 = <I as ReifyTexture<C, L, D, P1>>::reify_texture(ctx, size, mipmaps, state);
        let t2 = <I as ReifyTexture<C, L, D, P2>>::reify_texture(ctx, size, mipmaps, state);
        let t3 = <I as ReifyTexture<C, L, D, P3>>::reify_texture(ctx, size, mipmaps, state);
        let t4 = <I as ReifyTexture<C, L, D, P4>>::reify_texture(ctx, size, mipmaps, state);
        let t5 = <I as ReifyTexture<C, L, D, P5>>::reify_texture(ctx, size, mipmaps, state);
        let reified = (t0, t1, t2, t3, t4, t5);
        proof {
            let before = old(state).reified();
            let asked = no_request(before, size, mipmaps);
            let asked = one_more_request(before, asked, P0::spec_pixel_format(), size, mipmaps);
            let asked = one_more_request(before, asked, P1::spec_pixel_format(), size, mipmaps);
            let asked = one_more_request(before, asked, P2::spec_pixel_format(), size, mipmaps);
            let asked = one_more_request(before, asked, P3::spec_pixel_format(), size, mipmaps);
            let asked = one_more_request(before, asked, P4::spec_pixel_format(), size, mipmaps);
            let asked = one_more_request(before, asked, P5::spec_pixel_format(), size, mipmaps);
            list_of_six(
                P0::spec_pixel_format(),
                P1::spec_pixel_format(),
                P2::spec_pixel_format(),
                P3::spec_pixel_format(),
                P4::spec_pixel_format(),
                P5::spec_pixel_format(),
            );
            list_of_six(
                <I as ReifyTexture<C, L, D, P0>>::format_of(&reified.0),
                <I as ReifyTexture<C, L, D, P1>>::format_of(&reified.1),
                <I as ReifyTexture<C, L, D, P2>>::format_of(&reified.2),
                <I as ReifyTexture<C, L, D, P3>>::format_of(&reified.3),
                <I as ReifyTexture<C, L, D, P4>>::format_of(&reified.4),
                <I as ReifyTexture<C, L, D, P5>>::format_of(&reified.5),
            );
            list_of_six(
                <I as ReifyTexture<C, L, D, P0>>::request_of(&reified.0),
                <I as ReifyTexture<C, L, D, P1>>::request_of(&reified.1),
                <I as ReifyTexture<C, L, D, P2>>::request_of(&reified.2),
                <I as ReifyTexture<C, L, D, P3>>::request_of(&reified.3),
                <I as ReifyTexture<C, L, D, P4>>::request_of(&reified.4),
                <I as ReifyTexture<C, L, D, P5>>::request_of(&reified.5),
            );
        }
        reified
    }
}

/// A list of seven elements is what adding them one by one to the empty
/// list gives.
proof fn list_of_seven<A>(
    a0: A, a1: A, a2: A, a3: A, a4: A, a5: A, a6: A,
)
    ensures
        seq![
            a0, a1, a2, a3, a4, a5, a6,
        ] == Seq::<A>::empty()
            .push(a0).push(a1).push(a2).push(a3).push(a4).push(a5).push(a6),
{
    let listed = seq![
        a0, a1, a2, a3, a4, a5, a6,
    ];
    let added = Seq::<A>::empty()
        .push(a0).push(a1).push(a2).push(a3).push(a4).push(a5).push(a6);
    assert(listed =~= added);
}

/// A color slot of seven formats.
impl<C, L, D, I, P0, P1, P2, P3, P4, P5, P6> ColorSlot<C, L, D, I> for (P0, P1, P2, P3, P4, P5, P6) where
    L: Layerable,
    D: Dimensionable,
    I: ReifyTexture<C, L, D, P0> + ReifyTexture<C, L, D, P1> + ReifyTexture<C, L, D, P2> + ReifyTexture<C, L, D, P3> + ReifyTexture<C, L, D, P4> + ReifyTexture<C, L, D, P5> + ReifyTexture<C, L, D, P6>,
    P0: ColorPixel + RenderablePixel,
    P1: ColorPixel + RenderablePixel,
    P2: ColorPixel + RenderablePixel,
    P3: ColorPixel + RenderablePixel,
    P4: ColorPixel + RenderablePixel,
    P5: ColorPixel + RenderablePixel,
    P6: ColorPixel + RenderablePixel,
 {
    type ColorTextures = (
        <I as ReifyTexture<C, L, D, P0>>::Texture,
        <I as ReifyTexture<C, L, D, P1>>::Texture,
        <I as ReifyTexture<C, L, D, P2>>::Texture,
        <I as ReifyTexture<C, L, D, P3>>::Texture,
        <I as ReifyTexture<C, L, D, P4>>::Texture,
        <I as ReifyTexture<C, L, D, P5>>::Texture,
        <I as ReifyTexture<C, L, D, P6>>::Texture,
    );

    open spec fn spec_color_formats() -> Seq<PixelFormat> {
        seq![
            P0::spec_pixel_format(),
            P1::spec_pixel_format(),
            P2::spec_pixel_format(),
            P3::spec_pixel_format(),
            P4::spec_pixel_format(),
            P5::spec_pixel_format(),
            P6::spec_pixel_format(),
        ]
    }

    open spec fn requests_of(textures: &Self::ColorTextures) -> Seq<nat> {
        seq![
            <I as ReifyTexture<C, L, D, P0>>::request_of(&textures.0),
            <I as ReifyTexture<C, L, D, P1>>::request_of(&textures.1),
            <I as ReifyTexture<C, L, D, P2>>::request_of(&textures.2),
            <I as ReifyTexture<C, L, D, P3>>::request_of(&textures.3),
            <I as ReifyTexture<C, L, D, P4>>::request_of(&textures.4),
            <I as ReifyTexture<C, L, D, P5>>::request_of(&textures.5),
            <I as ReifyTexture<C, L, D, P6>>::request_of(&textures.6),
        ]
    }

    open spec fn formats_of(textures: &Self::ColorTextures) -> Seq<PixelFormat> {
        seq![
            <I as ReifyTexture<C, L, D, P0>>::format_of(&textures.0),
            <I as ReifyTexture<C, L, D, P1>>::format_of(&textures.1),
            <I as ReifyTexture<C, L, D, P2>>::format_of(&textures.2),
            <I as ReifyTexture<C, L, D, P3>>::format_of(&textures.3),
            <I as ReifyTexture<C, L, D, P4>>::format_of(&textures.4),
            <I as ReifyTexture<C, L, D, P5>>::format_of(&textures.5),
            <I as ReifyTexture<C, L, D, P6>>::format_of(&textures.6),
        ]
    }

    proof fn color_formats_are_renderable() {
        color_renderable::<P0>();
        color_renderable::<P1>();
        color_renderable::<P2>();
        color_renderable::<P3>();
        color_renderable::<P4>();
        color_renderable::<P5>();
        color_renderable::<P6>();
    }

    fn color_formats() -> (formats: Vec<PixelFormat>) {
        vec![
            P0::pixel_format(),
            P1::pixel_format(),
            P2::pixel_format(),
            P3::pixel_format(),
            P4::pixel_format(),
            P5::pixel_format(),
            P6::pixel_format(),
        ]
    }

    fn reify_textures(ctx: &mut C, size: D::Size, mipmaps: usize, state: &mut I) -> (reified:
        Self::ColorTextures) {
        let t0 = <I as ReifyTexture<C, L, D, P0>>::reify_texture(ctx, size, mipmaps, state);
        let t1 = <I as ReifyTexture<C, L, D, P1>>::reify_texture(ctx, size, mipmaps, state);
        let t2 = <I as ReifyTexture<C, L, D, P2>>::reify_texture(ctx, size, mipmaps, state);
        let t3 = <I as ReifyTexture<C, L, D, P3>>::reify_texture(ctx, size, mipmaps, state);
        let t4 = <I as ReifyTexture<C, L, D, P4>>::reify_texture(ctx, size, mipmaps, state);
        let t5 = <I as ReifyTexture<C, L, D, P5>>::reify_texture(ctx, size, mipmaps, state);
        let t6 = <I as ReifyTexture<C, L, D, P6>>::reify_texture(ctx, size, mipmaps, state);
        let reified = (t0, t1, t2, t3, t4, t5, t6);
        proof {
            let before = old(state).reified();
            let asked = no_request(before, size, mipmaps);
            let asked = one_more_request(before, asked, P0::spec_pixel_format(), size, mipmaps);
            let asked = one_more_request(before, asked, P1::spec_pixel_format(), size, mipmaps);
            let asked = one_more_request(before, asked, P2::spec_pixel_format(), size, mipmaps);
            let asked = one_more_request(before, asked, P3::spec_pixel_format(), size, mipmaps);
            let asked = one_more_request(before, asked, P4::spec_pixel_format(), size, mipmaps);
            let asked = one_more_request(before, asked, P5::spec_pixel_format(), size, mipmaps);
            let asked = one_more_request(before, asked, P6::spec_pixel_format(), size, mipmaps);
            list_of_seven(
                P0::spec_pixel_format(),
                P1::spec_pixel_format(),
                P2::spec_pixel_format(),
                P3::spec_pixel_format(),
                P4::spec_pixel_format(),
                P5::spec_pixel_format(),
                P6::spec_pixel_format(),
            );
            list_of_seven(
                <I as ReifyTexture<C, L, D, P0>>::format_of(&reified.0),
                <I as ReifyTexture<C, L, D, P1>>::format_of(&reified.1),
                <I as ReifyTexture<C, L, D, P2>>::format_of(&reified.2),
                <I as ReifyTexture<C, L, D, P3>>::format_of(&reified.3),
                <I as ReifyTexture<C, L, D, P4>>::format_of(&reified.4),
                <I as ReifyTexture<C, L, D, P5>>::format_of(&reified.5),
                <I as ReifyTexture<C, L, D, P6>>::format_of(&reified.6),
            );
            list_of_seven(
                <I as ReifyTexture<C, L, D, P0>>::request_of(&reified.0),
                <I as ReifyTexture<C, L, D, P1>>::request_of(&reified.1),
                <I as ReifyTexture<C, L, D, P2>>::request_of(&reified.2),
                <I as ReifyTexture<C, L, D, P3>>::request_of(&reified.3),
                <I as ReifyTexture<C, L, D, P4>>::request_of(&reified.4),
                <I as ReifyTexture<C, L, D, P5>>::request_of(&reified.5),
                <I as ReifyTexture<C, L, D, P6>>::request_of(&reified.6),
            );
        }
        reified
    }
}

/// A list of eight elements is what adding them one by one to the empty
/// list gives.
proof fn list_of_eight<A>(
    a0: A, a1: A, a2: A, a3: A, a4: A, a5: A, a6: A, a7: A,
)
    ensures
        seq![
            a0, a1, a2, a3, a4, a5, a6, a7,
        ] == Seq::<A>::empty()
            .push(a0).push(a1).push(a2).push(a3).push(a4).push(a5).push(a6).push(a7),
{
    let listed = seq![
        a0, a1, a2, a3, a4, a5, a6, a7,
    ];
    let added = Seq::<A>::empty()
        .push(a0).push(a1).push(a2).push(a3).push(a4).push(a5).push(a6).push(a7);
    assert(listed =~= added);
}

/// A color slot of eight formats.
impl<C, L, D, I, P0, P1, P2, P3, P4, P5, P6, P7> ColorSlot<C, L, D, I> for (P0, P1, P2, P3, P4, P5, P6, P7) where
    L: Layerable,
    D: Dimensionable,
    I: ReifyTexture<C, L, D, P0> + ReifyTexture<C, L, D, P1> + ReifyTexture<C, L, D, P2> + ReifyTexture<C, L, D, P3> + ReifyTexture<C, L, D, P4> + ReifyTexture<C, L, D, P5> + ReifyTexture<C, L, D, P6> + ReifyTexture<C, L, D, P7>,
    P0: ColorPixel + RenderablePixel,
    P1: ColorPixel + RenderablePixel,
    P2: ColorPixel + RenderablePixel,
    P3: ColorPixel + RenderablePixel,
    P4: ColorPixel + RenderablePixel,
    P5: ColorPixel + RenderablePixel,
    P6: ColorPixel + RenderablePixel,
    P7: ColorPixel + RenderablePixel,
 {
    type ColorTextures = (
        <I as ReifyTexture<C, L, D, P0>>::Texture,
        <I as ReifyTexture<C, L, D, P1>>::Texture,
        <I as ReifyTexture<C, L, D, P2>>::Texture,
        <I as ReifyTexture<C, L, D, P3>>::Texture,
        <I as ReifyTexture<C, L, D, P4>>::Texture,
        <I as ReifyTexture<C, L, D, P5>>::Texture,
        <I as ReifyTexture<C, L, D, P6>>::Texture,
        <I as ReifyTexture<C, L, D, P7>>::Texture,
    );

    open spec fn spec_color_formats() -> Seq<PixelFormat> {
        seq![
            P0::spec_pixel_format(),
            P1::spec_pixel_format(),
            P2::spec_pixel_format(),
            P3::spec_pixel_format(),
            P4::spec_pixel_format(),
            P5::spec_pixel_format(),
            P6::spec_pixel_format(),
            P7::spec_pixel_format(),
        ]
    }

    open spec fn requests_of(textures: &Self::ColorTextures) -> Seq<nat> {
        seq![
            <I as ReifyTexture<C, L, D, P0>>::request_of(&textures.0),
            <I as ReifyTexture<C, L, D, P1>>::request_of(&textures.1),
            <I as ReifyTexture<C, L, D, P2>>::request_of(&textures.2),
            <I as ReifyTexture<C, L, D, P3>>::request_of(&textures.3),
            <I as ReifyTexture<C, L, D, P4>>::request_of(&textures.4),
            <I as ReifyTexture<C, L, D, P5>>::request_of(&textures.5),
            <I as ReifyTexture<C, L, D, P6>>::request_of(&textures.6),
            <I as ReifyTexture<C, L, D, P7>>::request_of(&textures.7),
        ]
    }

    open spec fn formats_of(textures: &Self::ColorTextures) -> Seq<PixelFormat> {
        seq![
            <I as ReifyTexture<C, L, D, P0>>::format_of(&textures.0),
            <I as ReifyTexture<C, L, D, P1>>::format_of(&textures.1),
            <I as ReifyTexture<C, L, D, P2>>::format_of(&textures.2),
            <I as ReifyTexture<C, L, D, P3>>::format_of(&textures.3),
            <I as ReifyTexture<C, L, D, P4>>::format_of(&textures.4),
            <I as ReifyTexture<C, L, D, P5>>::format_of(&textures.5),
            <I as ReifyTexture<C, L, D, P6>>::format_of(&textures.6),
            <I as ReifyTexture<C, L, D, P7>>::format_of(&textures.7),
        ]
    }

    proof fn color_formats_are_renderable() {
        color_renderable::<P0>();
        color_renderable::<P1>();
        color_renderable::<P2>();
        color_renderable::<P3>();
        color_renderable::<P4>();
        color_renderable::<P5>();
        color_renderable::<P6>();
        color_renderable::<P7>();
    }

    fn color_formats() -> (formats: Vec<PixelFormat>) {
        vec![
            P0::pixel_format(),
            P1::pixel_format(),
            P2::pixel_format(),
            P3::pixel_format(),
            P4::pixel_format(),
            P5::pixel_format(),
            P6::pixel_format(),
            P7::pixel_format(),
        ]
    }

    fn reify_textures(ctx: &mut C, size: D::Size, mipmaps: usize, state: &mut I) -> (reified:
        Self::ColorTextures) {
        let t0 = <I as ReifyTexture<C, L, D, P0>>::reify_texture(ctx, size, mipmaps, state);
        let t1 = <I as ReifyTexture<C, L, D, P1>>::reify_texture(ctx, size, mipmaps, state);
        let t2 = <I as ReifyTexture<C, L, D, P2>>::reify_texture(ctx, size, mipmaps, state);
        let t3 = <I as ReifyTexture<C, L, D, P3>>::reify_texture(ctx, size, mipmaps, state);
        let t4 = <I as ReifyTexture<C, L, D, P4>>::reify_texture(ctx, size, mipmaps, state);
        let t5 = <I as ReifyTexture<C, L, D, P5>>::reify_texture(ctx, size, mipmaps, state);
        let t6 = <I as ReifyTexture<C, L, D, P6>>::reify_texture(ctx, size, mipmaps, state);
        let t7 = <I as ReifyTexture<C, L, D, P7>>::reify_texture(ctx, size, mipmaps, state);
        let reified = (t0, t1, t2, t3, t4, t5, t6, t7);
        proof {
            let before = old(state).reified();
            let asked = no_request(before, size, mipmaps);
            let asked = one_more_request(before, asked, P0::spec_pixel_format(), size, mipmaps);
            let asked = one_more_request(before, asked, P1::spec_pixel_format(), size, mipmaps);
            let asked = one_more_request(before, asked, P2::spec_pixel_format(), size, mipmaps);
            let asked = one_more_request(before, asked, P3::spec_pixel_format(), size, mipmaps);
            let asked = one_more_request(before, asked, P4::spec_pixel_format(), size, mipmaps);
            let asked = one_more_request(before, asked, P5::spec_pixel_format(), size, mipmaps);
            let asked = one_more_request(before, asked, P6::spec_pixel_format(), size, mipmaps);
            let asked = one_more_request(before, asked, P7::spec_pixel_format(), size, mipmaps);
            list_of_eight(
                P0::spec_pixel_format(),
                P1::spec_pixel_format(),
                P2::spec_pixel_format(),
                P3::spec_pixel_format(),
                P4::spec_pixel_format(),
                P5::spec_pixel_format(),
                P6::spec_pixel_format(),
                P7::spec_pixel_format(),
            );
            list_of_eight(
                <I as ReifyTexture<C, L, D, P0>>::format_of(&reified.0),
                <I as ReifyTexture<C, L, D, P1>>::format_of(&reified.1),
                <I as ReifyTexture<C, L, D, P2>>::format_of(&reified.2),
                <I as ReifyTexture<C, L, D, P3>>::format_of(&reified.3),
                <I as ReifyTexture<C, L, D, P4>>::format_of(&reified.4),
                <I as ReifyTexture<C, L, D, P5>>::format_of(&reified.5),
                <I as ReifyTexture<C, L, D, P6>>::format_of(&reified.6),
                <I as ReifyTexture<C, L, D, P7>>::format_of(&reified.7),
            );
            list_of_eight(
                <I as ReifyTexture<C, L, D, P0>>::request_of(&reified.0),
                <I as ReifyTexture<C, L, D, P1>>::request_of(&reified.1),
                <I as ReifyTexture<C, L, D, P2>>::request_of(&reified.2),
                <I as ReifyTexture<C, L, D, P3>>::request_of(&reified.3),
                <I as ReifyTexture<C, L, D, P4>>::request_of(&reified.4),
                <I as ReifyTexture<C, L, D, P5>>::request_of(&reified.5),
                <I as ReifyTexture<C, L, D, P6>>::request_of(&reified.6),
                <I as ReifyTexture<C, L, D, P7>>::request_of(&reified.7),
            );
        }
        reified
    }
}

/// A list of nine elements is what adding them one by one to the empty
/// list gives.
proof fn list_of_nine<A>(
    a0: A, a1: A, a2: A, a3: A, a4: A, a5: A, a6: A, a7: A, a8: A,
)
    ensures
        seq![
            a0, a1, a2, a3, a4, a5, a6, a7, a8,
        ] == Seq::<A>::empty()
            .push(a0).push(a1).push(a2).push(a3).push(a4).push(a5).push(a6).push(a7).push(a8),
{
    let listed = seq![
        a0, a1, a2, a3, a4, a5, a6, a7, a8,
    ];
    let added = Seq::<A>::empty()
        .push(a0).push(a1).push(a2).push(a3).push(a4).push(a5).push(a6).push(a7).push(a8);
    assert(listed =~= added);
}

/// A color slot of nine formats.
impl<C, L, D, I, P0, P1, P2, P3, P4, P5, P6, P7, P8> ColorSlot<C, L, D, I> for (P0, P1, P2, P3, P4, P5, P6, P7, P8) where
    L: Layerable,
    D: Dimensionable,
    I: ReifyTexture<C, L, D, P0> + ReifyTexture<C, L, D, P1> + ReifyTexture<C, L, D, P2> + ReifyTexture<C, L, D, P3> + ReifyTexture<C, L, D, P4> + ReifyTexture<C, L, D, P5> + ReifyTexture<C, L, D, P6> + ReifyTexture<C, L, D, P7> + ReifyTexture<C, L, D, P8>,
    P0: ColorPixel + RenderablePixel,
    P1: ColorPixel + RenderablePixel,
    P2: ColorPixel + RenderablePixel,
    P3: ColorPixel + RenderablePixel,
    P4: ColorPixel + RenderablePixel,
    P5: ColorPixel + RenderablePixel,
    P6: ColorPixel + RenderablePixel,
    P7: ColorPixel + RenderablePixel,
    P8: ColorPixel + RenderablePixel,
 {
    type ColorTextures = (
        <I as ReifyTexture<C, L, D, P0>>::Texture,
        <I as ReifyTexture<C, L, D, P1>>::Texture,
        <I as ReifyTexture<C, L, D, P2>>::Texture,
        <I as ReifyTexture<C, L, D, P3>>::Texture,
        <I as ReifyTexture<C, L, D, P4>>::Texture,
        <I as ReifyTexture<C, L, D, P5>>::Texture,
        <I as ReifyTexture<C, L, D, P6>>::Texture,
        <I as ReifyTexture<C, L, D, P7>>::Texture,
        <I as ReifyTexture<C, L, D, P8>>::Texture,
    );

    open spec fn spec_color_formats() -> Seq<PixelFormat> {
        seq![
            P0::spec_pixel_format(),
            P1::spec_pixel_format(),
            P2::spec_pixel_format(),
            P3::spec_pixel_format(),
            P4::spec_pixel_format(),
            P5::spec_pixel_format(),
            P6::spec_pixel_format(),
            P7::spec_pixel_format(),
            P8::spec_pixel_format(),
        ]
    }

    open spec fn requests_of(textures: &Self::ColorTextures) -> Seq<nat> {
        seq![
            <I as ReifyTexture<C, L, D, P0>>::request_of(&textures.0),
            <I as ReifyTexture<C, L, D, P1>>::request_of(&textures.1),
            <I as ReifyTexture<C, L, D, P2>>::request_of(&textures.2),
            <I as ReifyTexture<C, L, D, P3>>::request_of(&textures.3),
            <I as ReifyTexture<C, L, D, P4>>::request_of(&textures.4),
            <I as ReifyTexture<C, L, D, P5>>::request_of(&textures.5),
            <I as ReifyTexture<C, L, D, P6>>::request_of(&textures.6),
            <I as ReifyTexture<C, L, D, P7>>::request_of(&textures.7),
            <I as ReifyTexture<C, L, D, P8>>::request_of(&textures.8),
        ]
    }

    open spec fn formats_of(textures: &Self::ColorTextures) -> Seq<PixelFormat> {
        seq![
            <I as ReifyTexture<C, L, D, P0>>::format_of(&textures.0),
            <I as ReifyTexture<C, L, D, P1>>::format_of(&textures.1),
            <I as ReifyTexture<C, L, D, P2>>::format_of(&textures.2),
            <I as ReifyTexture<C, L, D, P3>>::format_of(&textures.3),
            <I as ReifyTexture<C, L, D, P4>>::format_of(&textures.4),
            <I as ReifyTexture<C, L, D, P5>>::format_of(&textures.5),
            <I as ReifyTexture<C, L, D, P6>>::format_of(&textures.6),
            <I as ReifyTexture<C, L, D, P7>>::format_of(&textures.7),
            <I as ReifyTexture<C, L, D, P8>>::format_of(&textures.8),
        ]
    }

    proof fn color_formats_are_renderable() {
        color_renderable::<P0>();
        color_renderable::<P1>();
        color_renderable::<P2>();
        color_renderable::<P3>();
        color_renderable::<P4>();
        color_renderable::<P5>();
        color_renderable::<P6>();
        color_renderable::<P7>();
        color_renderable::<P8>();
    }

    fn color_formats() -> (formats: Vec<PixelFormat>) {
        vec![
            P0::pixel_format(),
            P1::pixel_format(),
            P2::pixel_format(),
            P3::pixel_format(),
            P4::pixel_format(),
            P5::pixel_format(),
            P6::pixel_format(),
            P7::pixel_format(),
            P8::pixel_format(),
        ]
    }

    fn reify_textures(ctx: &mut C, size: D::Size, mipmaps: usize, state: &mut I) -> (reified:
        Self::ColorTextures) {
        let t0 = <I as ReifyTexture<C, L, D, P0>>::reify_texture(ctx, size, mipmaps, state);
        let t1 = <I as ReifyTexture<C, L, D, P1>>::reify_texture(ctx, size, mipmaps, state);
        let t2 = <I as ReifyTexture<C, L, D, P2>>::reify_texture(ctx, size, mipmaps, state);
        let t3 = <I as ReifyTexture<C, L, D, P3>>::reify_texture(ctx, size, mipmaps, state);
        let t4 = <I as ReifyTexture<C, L, D, P4>>::reify_texture(ctx, size, mipmaps, state);
        let t5 = <I as ReifyTexture<C, L, D, P5>>::reify_texture(ctx, size, mipmaps, state);
        let t6 = <I as ReifyTexture<C, L, D, P6>>::reify_texture(ctx, size, mipmaps, state);
        let t7 = <I as ReifyTexture<C, L, D, P7>>::reify_texture(ctx, size, mipmaps, state);
        let t8 = <I as ReifyTexture<C, L, D, P8>>::reify_texture(ctx, size, mipmaps, state);
        let reified = (t0, t1, t2, t3, t4, t5, t6, t7, t8);
        proof {
            let before = old(state).reified();
            let asked = no_request(before, size, mipmaps);
            let asked = one_more_request(before, asked, P0::spec_pixel_format(), size, mipmaps);
            let asked = one_more_request(before, asked, P1::spec_pixel_format(), size, mipmaps);
            let asked = one_more_request(before, asked, P2::spec_pixel_format(), size, mipmaps);
            let asked = one_more_request(before, asked, P3::spec_pixel_format(), size, mipmaps);
            let asked = one_more_request(before, asked, P4::spec_pixel_format(), size, mipmaps);
            let asked = one_more_request(before, asked, P5::spec_pixel_format(), size, mipmaps);
            let asked = one_more_request(before, asked, P6::spec_pixel_format(), size, mipmaps);
            let asked = one_more_request(before, asked, P7::spec_pixel_format(), size, mipmaps);
            let asked = one_more_request(before, asked, P8::spec_pixel_format(), size, mipmaps);
            list_of_nine(
                P0::spec_pixel_format(),
                P1::spec_pixel_format(),
                P2::spec_pixel_format(),
                P3::spec_pixel_format(),
                P4::spec_pixel_format(),
                P5::spec_pixel_format(),
                P6::spec_pixel_format(),
                P7::spec_pixel_format(),
                P8::spec_pixel_format(),
            );
            list_of_nine(
                <I as ReifyTexture<C, L, D, P0>>::format_of(&reified.0),
                <I as ReifyTexture<C, L, D, P1>>::format_of(&reified.1),
                <I as ReifyTexture<C, L, D, P2>>::format_of(&reified.2),
                <I as ReifyTexture<C, L, D, P3>>::format_of(&reified.3),
                <I as ReifyTexture<C, L, D, P4>>::format_of(&reified.4),
                <I as ReifyTexture<C, L, D, P5>>::format_of(&reified.5),
                <I as ReifyTexture<C, L, D, P6>>::format_of(&reified.6),
                <I as ReifyTexture<C, L, D, P7>>::format_of(&reified.7),
                <I as ReifyTexture<C, L, D, P8>>::format_of(&reified.8),
            );
            list_of_nine(
                <I as ReifyTexture<C, L, D, P0>>::request_of(&reified.0),
                <I as ReifyTexture<C, L, D, P1>>::request_of(&reified.1),
                <I as ReifyTexture<C, L, D, P2>>::request_of(&reified.2),
                <I as ReifyTexture<C, L, D, P3>>::request_of(&reified.3),
                <I as ReifyTexture<C, L, D, P4>>::request_of(&reified.4),
                <I as ReifyTexture<C, L, D, P5>>::request_of(&reified.5),
                <I as ReifyTexture<C, L, D, P6>>::request_of(&reified.6),
                <I as ReifyTexture<C, L, D, P7>>::request_of(&reified.7),
                <I as ReifyTexture<C, L, D, P8>>::request_of(&reified.8),
            );
        }
        reified
    }
}

/// A list of ten elements is what adding them one by one to the empty
/// list gives.
proof fn list_of_ten<A>(
    a0: A, a1: A, a2: A, a3: A, a4: A, a5: A, a6: A, a7: A, a8: A, a9: A,
)
    ensures
        seq![
            a0, a1, a2, a3, a4, a5, a6, a7, a8, a9,
        ] == Seq::<A>::empty()
            .push(a0).push(a1).push(a2).push(a3).push(a4).push(a5).push(a6).push(a7).push(a8)
            .push(a9),
{
    let listed = seq![
        a0, a1, a2, a3, a4, a5, a6, a7, a8, a9,
    ];
    let added = Seq::<A>::empty()
        .push(a0).push(a1).push(a2).push(a3).push(a4).push(a5).push(a6).push(a7).push(a8)
        .push(a9);
    assert(listed =~= added);
}

/// A color slot of ten formats.
impl<C, L, D, I, P0, P1, P2, P3, P4, P5, P6, P7, P8, P9> ColorSlot<C, L, D, I> for (P0, P1, P2, P3, P4, P5, P6, P7, P8, P9) where
    L: Layerable,
    D: Dimensionable,
    I: ReifyTexture<C, L, D, P0> + ReifyTexture<C, L, D, P1> + ReifyTexture<C, L, D, P2> + ReifyTexture<C, L, D, P3> + ReifyTexture<C, L, D, P4> + ReifyTexture<C, L, D, P5> + ReifyTexture<C, L, D, P6> + ReifyTexture<C, L, D, P7> + ReifyTexture<C, L, D, P8> + ReifyTexture<C, L, D, P9>,
    P0: ColorPixel + RenderablePixel,
    P1: ColorPixel + RenderablePixel,
    P2: ColorPixel + RenderablePixel,
    P3: ColorPixel + RenderablePixel,
    P4: ColorPixel + RenderablePixel,
    P5: ColorPixel + RenderablePixel,
    P6: ColorPixel + RenderablePixel,
    P7: ColorPixel + RenderablePixel,
    P8: ColorPixel + RenderablePixel,
    P9: ColorPixel + RenderablePixel,
 {
    type ColorTextures = (
        <I as ReifyTexture<C, L, D, P0>>::Texture,
        <I as ReifyTexture<C, L, D, P1>>::Texture,
        <I as ReifyTexture<C, L, D, P2>>::Texture,
        <I as ReifyTexture<C, L, D, P3>>::Texture,
        <I as ReifyTexture<C, L, D, P4>>::Texture,
        <I as ReifyTexture<C, L, D, P5>>::Texture,
        <I as ReifyTexture<C, L, D, P6>>::Texture,
        <I as ReifyTexture<C, L, D, P7>>::Texture,
        <I as ReifyTexture<C, L, D, P8>>::Texture,
        <I as ReifyTexture<C, L, D, P9>>::Texture,
    );

    open spec fn spec_color_formats() -> Seq<PixelFormat> {
        seq![
            P0::spec_pixel_format(),
            P1::spec_pixel_format(),
            P2::spec_pixel_format(),
            P3::spec_pixel_format(),
            P4::spec_pixel_format(),
            P5::spec_pixel_format(),
            P6::spec_pixel_format(),
            P7::spec_pixel_format(),
            P8::spec_pixel_format(),
            P9::spec_pixel_format(),
        ]
    }

    open spec fn requests_of(textures: &Self::ColorTextures) -> Seq<nat> {
        seq![
            <I as ReifyTexture<C, L, D, P0>>::request_of(&textures.0),
            <I as ReifyTexture<C, L, D, P1>>::request_of(&textures.1),
            <I as ReifyTexture<C, L, D, P2>>::request_of(&textures.2),
            <I as ReifyTexture<C, L, D, P3>>::request_of(&textures.3),
            <I as ReifyTexture<C, L, D, P4>>::request_of(&textures.4),
            <I as ReifyTexture<C, L, D, P5>>::request_of(&textures.5),
            <I as ReifyTexture<C, L, D, P6>>::request_of(&textures.6),
            <I as ReifyTexture<C, L, D, P7>>::request_of(&textures.7),
            <I as ReifyTexture<C, L, D, P8>>::request_of(&textures.8),
            <I as ReifyTexture<C, L, D, P9>>::request_of(&textures.9),
        ]
    }

    open spec fn formats_of(textures: &Self::ColorTextures) -> Seq<PixelFormat> {
        seq![
            <I as ReifyTexture<C, L, D, P0>>::format_of(&textures.0),
            <I as ReifyTexture<C, L, D, P1>>::format_of(&textures.1),
            <I as ReifyTexture<C, L, D, P2>>::format_of(&textures.2),
            <I as ReifyTexture<C, L, D, P3>>::format_of(&textures.3),
            <I as ReifyTexture<C, L, D, P4>>::format_of(&textures.4),
            <I as ReifyTexture<C, L, D, P5>>::format_of(&textures.5),
            <I as ReifyTexture<C, L, D, P6>>::format_of(&textures.6),
            <I as ReifyTexture<C, L, D, P7>>::format_of(&textures.7),
            <I as ReifyTexture<C, L, D, P8>>::format_of(&textures.8),
            <I as ReifyTexture<C, L, D, P9>>::format_of(&textures.9),
        ]
    }

    proof fn color_formats_are_renderable() {
        color_renderable::<P0>();
        color_renderable::<P1>();
        color_renderable::<P2>();
        color_renderable::<P3>();
        color_renderable::<P4>();
        color_renderable::<P5>();
        color_renderable::<P6>();
        color_renderable::<P7>();
        color_renderable::<P8>();
        color_renderable::<P9>();
    }

    fn color_formats() -> (formats: Vec<PixelFormat>) {
        vec![
            P0::pixel_format(),
            P1::pixel_format(),
            P2::pixel_format(),
            P3::pixel_format(),
            P4::pixel_format(),
            P5::pixel_format(),
            P6::pixel_format(),
            P7::pixel_format(),
            P8::pixel_format(),
            P9::pixel_format(),
        ]
    }

    fn reify_textures(ctx: &mut C, size: D::Size, mipmaps: usize, state: &mut I) -> (reified:
        Self::ColorTextures) {
        let t0 = <I as ReifyTexture<C, L, D, P0>>::reify_texture(ctx, size, mipmaps, state);
        let t1 = <I as ReifyTexture<C, L, D, P1>>::reify_texture(ctx, size, mipmaps, state);
        let t2 = <I as ReifyTexture<C, L, D, P2>>::reify_texture(ctx, size, mipmaps, state);
        let t3 = <I as ReifyTexture<C, L, D, P3>>::reify_texture(ctx, size, mipmaps, state);
        let t4 = <I as ReifyTexture<C, L, D, P4>>::reify_texture(ctx, size, mipmaps, state);
        let t5 = <I as ReifyTexture<C, L, D, P5>>::reify_texture(ctx, size, mipmaps, state);
        let t6 = <I as ReifyTexture<C, L, D, P6>>::reify_texture(ctx, size, mipmaps, state);
        let t7 = <I as ReifyTexture<C, L, D, P7>>::reify_texture(ctx, size, mipmaps, state);
        let t8 = <I as ReifyTexture<C, L, D, P8>>::reify_texture(ctx, size, mipmaps, state);
        let t9 = <I as ReifyTexture<C, L, D, P9>>::reify_texture(ctx, size, mipmaps, state);
        let reified = (t0, t1, t2, t3, t4, t5, t6, t7, t8, t9);
        proof {
            let before = old(state).reified();
            let asked = no_request(before, size, mipmaps);
            let asked = one_more_request(before, asked, P0::spec_pixel_format(), size, mipmaps);
            let asked = one_more_request(before, asked, P1::spec_pixel_format(), size, mipmaps);
            let asked = one_more_request(before, asked, P2::spec_pixel_format(), size, mipmaps);
            let asked = one_more_request(before, asked, P3::spec_pixel_format(), size, mipmaps);
            let asked = one_more_request(before, asked, P4::spec_pixel_format(), size, mipmaps);
            let asked = one_more_request(before, asked, P5::spec_pixel_format(), size, mipmaps);
            let asked = one_more_request(before, asked, P6::spec_pixel_format(), size, mipmaps);
            let asked = one_more_request(before, asked, P7::spec_pixel_format(), size, mipmaps);
            let asked = one_more_request(before, asked, P8::spec_pixel_format(), size, mipmaps);
            let asked = one_more_request(before, asked, P9::spec_pixel_format(), size, mipmaps);
            list_of_ten(
                P0::spec_pixel_format(),
                P1::spec_pixel_format(),
                P2::spec_pixel_format(),
                P3::spec_pixel_format(),
                P4::spec_pixel_format(),
                P5::spec_pixel_format(),
                P6::spec_pixel_format(),
                P7::spec_pixel_format(),
                P8::spec_pixel_format(),
                P9::spec_pixel_format(),
            );
            list_of_ten(
                <I as ReifyTexture<C, L, D, P0>>::format_of(&reified.0),
                <I as ReifyTexture<C, L, D, P1>>::format_of(&reified.1),
                <I as ReifyTexture<C, L, D, P2>>::format_of(&reified.2),
                <I as ReifyTexture<C, L, D, P3>>::format_of(&reified.3),
                <I as ReifyTexture<C, L, D, P4>>::format_of(&reified.4),
                <I as ReifyTexture<C, L, D, P5>>::format_of(&reified.5),
                <I as ReifyTexture<C, L, D, P6>>::format_of(&reified.6),
                <I as ReifyTexture<C, L, D, P7>>::format_of(&reified.7),
                <I as ReifyTexture<C, L, D, P8>>::format_of(&reified.8),
                <I as ReifyTexture<C, L, D, P9>>::format_of(&reified.9),
            );
            list_of_ten(
                <I as ReifyTexture<C, L, D, P0>>::request_of(&reified.0),
                <I as ReifyTexture<C, L, D, P1>>::request_of(&reified.1),
                <I as ReifyTexture<C, L, D, P2>>::request_of(&reified.2),
                <I as ReifyTexture<C, L, D, P3>>::request_of(&reified.3),
                <I as ReifyTexture<C, L, D, P4>>::request_of(&reified.4),
                <I as ReifyTexture<C, L, D, P5>>::request_of(&reified.5),
                <I as ReifyTexture<C, L, D, P6>>::request_of(&reified.6),
                <I as ReifyTexture<C, L, D, P7>>::request_of(&reified.7),
                <I as ReifyTexture<C, L, D, P8>>::request_of(&reified.8),
                <I as ReifyTexture<C, L, D, P9>>::request_of(&reified.9),
            );
        }
        reified
    }
}

/// A list of eleven elements is what adding them one by one to the empty
/// list gives.
proof fn list_of_eleven<A>(
    a0: A, a1: A, a2: A, a3: A, a4: A, a5: A, a6: A, a7: A, a8: A, a9: A, a10: A,
)
    ensures
        seq![
            a0, a1, a2, a3, a4, a5, a6, a7, a8, a9, a10,
        ] == Seq::<A>::empty()
            .push(a0).push(a1).push(a2).push(a3).push(a4).push(a5).push(a6).push(a7).push(a8)
            .push(a9).push(a10),
{
    let listed = seq![
        a0, a1, a2, a3, a4, a5, a6, a7, a8, a9, a10,
    ];
    let added = Seq::<A>::empty()
        .push(a0).push(a1).push(a2).push(a3).push(a4).push(a5).push(a6).push(a7).push(a8)
        .push(a9).push(a10);
    assert(listed =~= added);
}

/// A color slot of eleven formats.
impl<C, L, D, I, P0, P1, P2, P3, P4, P5, P6, P7, P8, P9, P10> ColorSlot<C, L, D, I> for (P0, P1, P2, P3, P4, P5, P6, P7, P8, P9, P10) where
    L: Layerable,
    D: Dimensionable,
    I: ReifyTexture<C, L, D, P0> + ReifyTexture<C, L, D, P1> + ReifyTexture<C, L, D, P2> + ReifyTexture<C, L, D, P3> + ReifyTexture<C, L, D, P4> + ReifyTexture<C, L, D, P5> + ReifyTexture<C, L, D, P6> + ReifyTexture<C, L, D, P7> + ReifyTexture<C, L, D, P8> + ReifyTexture<C, L, D, P9> + ReifyTexture<C, L, D, P10>,
    P0: ColorPixel + RenderablePixel,
    P1: ColorPixel + RenderablePixel,
    P2: ColorPixel + RenderablePixel,
    P3: ColorPixel + RenderablePixel,
    P4: ColorPixel + RenderablePixel,
    P5: ColorPixel + RenderablePixel,
    P6: ColorPixel + RenderablePixel,
    P7: ColorPixel + RenderablePixel,
    P8: ColorPixel + RenderablePixel,
    P9: ColorPixel + RenderablePixel,
    P10: ColorPixel + RenderablePixel,
 {
    type ColorTextures = (
        <I as ReifyTexture<C, L, D, P0>>::Texture,
        <I as ReifyTexture<C, L, D, P1>>::Texture,
        <I as ReifyTexture<C, L, D, P2>>::Texture,
        <I as ReifyTexture<C, L, D, P3>>::Texture,
        <I as ReifyTexture<C, L, D, P4>>::Texture,
        <I as ReifyTexture<C, L, D, P5>>::Texture,
        <I as ReifyTexture<C, L, D, P6>>::Texture,
        <I as ReifyTexture<C, L, D, P7>>::Texture,
        <I as ReifyTexture<C, L, D, P8>>::Texture,
        <I as ReifyTexture<C, L, D, P9>>::Texture,
        <I as ReifyTexture<C, L, D, P10>>::Texture,
    );

    open spec fn spec_color_formats() -> Seq<PixelFormat> {
        seq![
            P0::spec_pixel_format(),
            P1::spec_pixel_format(),
            P2::spec_pixel_format(),
            P3::spec_pixel_format(),
            P4::spec_pixel_format(),
            P5::spec_pixel_format(),
            P6::spec_pixel_format(),
            P7::spec_pixel_format(),
            P8::spec_pixel_format(),
            P9::spec_pixel_format(),
            P10::spec_pixel_format(),
        ]
    }

    open spec fn requests_of(textures: &Self::ColorTextures) -> Seq<nat> {
        seq![
            <I as ReifyTexture<C, L, D, P0>>::request_of(&textures.0),
            <I as ReifyTexture<C, L, D, P1>>::request_of(&textures.1),
            <I as ReifyTexture<C, L, D, P2>>::request_of(&textures.2),
            <I as ReifyTexture<C, L, D, P3>>::request_of(&textures.3),
            <I as ReifyTexture<C, L, D, P4>>::request_of(&textures.4),
            <I as ReifyTexture<C, L, D, P5>>::request_of(&textures.5),
            <I as ReifyTexture<C, L, D, P6>>::request_of(&textures.6),
            <I as ReifyTexture<C, L, D, P7>>::request_of(&textures.7),
            <I as ReifyTexture<C, L, D, P8>>::request_of(&textures.8),
            <I as ReifyTexture<C, L, D, P9>>::request_of(&textures.9),
            <I as ReifyTexture<C, L, D, P10>>::request_of(&textures.10),
        ]
    }

    open spec fn formats_of(textures: &Self::ColorTextures) -> Seq<PixelFormat> {
        seq![
            <I as ReifyTexture<C, L, D, P0>>::format_of(&textures.0),
            <I as ReifyTexture<C, L, D, P1>>::format_of(&textures.1),
            <I as ReifyTexture<C, L, D, P2>>::format_of(&textures.2),
            <I as ReifyTexture<C, L, D, P3>>::format_of(&textures.3),
            <I as ReifyTexture<C, L, D, P4>>::format_of(&textures.4),
            <I as ReifyTexture<C, L, D, P5>>::format_of(&textures.5),
            <I as ReifyTexture<C, L, D, P6>>::format_of(&textures.6),
            <I as ReifyTexture<C, L, D, P7>>::format_of(&textures.7),
            <I as ReifyTexture<C, L, D, P8>>::format_of(&textures.8),
            <I as ReifyTexture<C, L, D, P9>>::format_of(&textures.9),
            <I as ReifyTexture<C, L, D, P10>>::format_of(&textures.10),
        ]
    }

    proof fn color_formats_are_renderable() {
        color_renderable::<P0>();
        color_renderable::<P1>();
        color_renderable::<P2>();
        color_renderable::<P3>();
        color_renderable::<P4>();
        color_renderable::<P5>();
        color_renderable::<P6>();
        color_renderable::<P7>();
        color_renderable::<P8>();
        color_renderable::<P9>();
        color_renderable::<P10>();
    }

    fn color_formats() -> (formats: Vec<PixelFormat>) {
        vec![
            P0::pixel_format(),
            P1::pixel_format(),
            P2::pixel_format(),
            P3::pixel_format(),
            P4::pixel_format(),
            P5::pixel_format(),
            P6::pixel_format(),
            P7::pixel_format(),
            P8::pixel_format(),
            P9::pixel_format(),
            P10::pixel_format(),
        ]
    }

    fn reify_textures(ctx: &mut C, size: D::Size, mipmaps: usize, state: &mut I) -> (reified:
        Self::ColorTextures) {
        let t0 = <I as ReifyTexture<C, L, D, P0>>::reify_texture(ctx, size, mipmaps, state);
        let t1 = <I as ReifyTexture<C, L, D, P1>>::reify_texture(ctx, size, mipmaps, state);
        let t2 = <I as ReifyTexture<C, L, D, P2>>::reify_texture(ctx, size, mipmaps, state);
        let t3 = <I as ReifyTexture<C, L, D, P3>>::reify_texture(ctx, size, mipmaps, state);
        let t4 = <I as ReifyTexture<C, L, D, P4>>::reify_texture(ctx, size, mipmaps, state);
        let t5 = <I as ReifyTexture<C, L, D, P5>>::reify_texture(ctx, size, mipmaps, state);
        let t6 = <I as ReifyTexture<C, L, D, P6>>::reify_texture(ctx, size, mipmaps, state);
        let t7 = <I as ReifyTexture<C, L, D, P7>>::reify_texture(ctx, size, mipmaps, state);
        let t8 = <I as ReifyTexture<C, L, D, P8>>::reify_texture(ctx, size, mipmaps, state);
        let t9 = <I as ReifyTexture<C, L, D, P9>>::reify_texture(ctx, size, mipmaps, state);
        let t10 = <I as ReifyTexture<C, L, D, P10>>::reify_texture(ctx, size, mipmaps, state);
        let reified = (t0, t1, t2, t3, t4, t5, t6, t7, t8, t9, t10);
        proof {
            let before = old(state).reified();
            let asked = no_request(before, size, mipmaps);
            let asked = one_more_request(before, asked, P0::spec_pixel_format(), size, mipmaps);
            let asked = one_more_request(before, asked, P1::spec_pixel_format(), size, mipmaps);
            let asked = one_more_request(before, asked, P2::spec_pixel_format(), size, mipmaps);
            let asked = one_more_request(before, asked, P3::spec_pixel_format(), size, mipmaps);
            let asked = one_more_request(before, asked, P4::spec_pixel_format(), size, mipmaps);
            let asked = one_more_request(before, asked, P5::spec_pixel_format(), size, mipmaps);
            let asked = one_more_request(before, asked, P6::spec_pixel_format(), size, mipmaps);
            let asked = one_more_request(before, asked, P7::spec_pixel_format(), size, mipmaps);
            let asked = one_more_request(before, asked, P8::spec_pixel_format(), size, mipmaps);
            let asked = one_more_request(before, asked, P9::spec_pixel_format(), size, mipmaps);
            let asked = one_more_request(before, asked, P10::spec_pixel_format(), size, mipmaps);
            list_of_eleven(
                P0::spec_pixel_format(),
                P1::spec_pixel_format(),
                P2::spec_pixel_format(),
                P3::spec_pixel_format(),
                P4::spec_pixel_format(),
                P5::spec_pixel_format(),
                P6::spec_pixel_format(),
                P7::spec_pixel_format(),
                P8::spec_pixel_format(),
                P9::spec_pixel_format(),
                P10::spec_pixel_format(),
            );
            list_of_eleven(
                <I as ReifyTexture<C, L, D, P0>>::format_of(&reified.0),
                <I as ReifyTexture<C, L, D, P1>>::format_of(&reified.1),
                <I as ReifyTexture<C, L, D, P2>>::format_of(&reified.2),
                <I as ReifyTexture<C, L, D, P3>>::format_of(&reified.3),
                <I as ReifyTexture<C, L, D, P4>>::format_of(&reified.4),
                <I as ReifyTexture<C, L, D, P5>>::format_of(&reified.5),
                <I as ReifyTexture<C, L, D, P6>>::format_of(&reified.6),
                <I as ReifyTexture<C, L, D, P7>>::format_of(&reified.7),
                <I as ReifyTexture<C, L, D, P8>>::format_of(&reified.8),
                <I as ReifyTexture<C, L, D, P9>>::format_of(&reified.9),
                <I as ReifyTexture<C, L, D, P10>>::format_of(&reified.10),
            );
            list_of_eleven(
                <I as ReifyTexture<C, L, D, P0>>::request_of(&reified.0),
                <I as ReifyTexture<C, L, D, P1>>::request_of(&reified.1),
                <I as ReifyTexture<C, L, D, P2>>::request_of(&reified.2),
                <I as ReifyTexture<C, L, D, P3>>::request_of(&reified.3),
                <I as ReifyTexture<C, L, D, P4>>::request_of(&reified.4),
                <I as ReifyTexture<C, L, D, P5>>::request_of(&reified.5),
                <I as ReifyTexture<C, L, D, P6>>::request_of(&reified.6),
                <I as ReifyTexture<C, L, D, P7>>::request_of(&reified.7),
                <I as ReifyTexture<C, L, D, P8>>::request_of(&reified.8),
                <I as ReifyTexture<C, L, D, P9>>::request_of(&reified.9),
                <I as ReifyTexture<C, L, D, P10>>::request_of(&reified.10),
            );
        }
        reified
    }
}

/// A list of twelve elements is what adding them one by one to the empty
/// list gives.
proof fn list_of_twelve<A>(
    a0: A, a1: A, a2: A, a3: A, a4: A, a5: A, a6: A, a7: A, a8: A, a9: A, a10: A, a11: A,
)
    ensures
        seq![
            a0, a1, a2, a3, a4, a5, a6, a7, a8, a9, a10, a11,
        ] == Seq::<A>::empty()
            .push(a0).push(a1).push(a2).push(a3).push(a4).push(a5).push(a6).push(a7).push(a8)
            .push(a9).push(a10).push(a11),
{
    let listed = seq![
        a0, a1, a2, a3, a4, a5, a6, a7, a8, a9, a10, a11,
    ];
    let added = Seq::<A>::empty()
        .push(a0).push(a1).push(a2).push(a3).push(a4).push(a5).push(a6).push(a7).push(a8)
        .push(a9).push(a10).push(a11);
    assert(listed =~= added);
}

/// A color slot of twelve formats.
impl<C, L, D, I, P0, P1, P2, P3, P4, P5, P6, P7, P8, P9, P10, P11> ColorSlot<C, L, D, I> for (P0, P1, P2, P3, P4, P5, P6, P7, P8, P9, P10, P11) where
    L: Layerable,
    D: Dimensionable,
    I: ReifyTexture<C, L, D, P0> + ReifyTexture<C, L, D, P1> + ReifyTexture<C, L, D, P2> + ReifyTexture<C, L, D, P3> + ReifyTexture<C, L, D, P4> + ReifyTexture<C, L, D, P5> + ReifyTexture<C, L, D, P6> + ReifyTexture<C, L, D, P7> + ReifyTexture<C, L, D, P8> + ReifyTexture<C, L, D, P9> + ReifyTexture<C, L, D, P10> + ReifyTexture<C, L, D, P11>,
    P0: ColorPixel + RenderablePixel,
    P1: ColorPixel + RenderablePixel,
    P2: ColorPixel + RenderablePixel,
    P3: ColorPixel + RenderablePixel,
    P4: ColorPixel + RenderablePixel,
    P5: ColorPixel + RenderablePixel,
    P6: ColorPixel + RenderablePixel,
    P7: ColorPixel + RenderablePixel,
    P8: ColorPixel + RenderablePixel,
    P9: ColorPixel + RenderablePixel,
    P10: ColorPixel + RenderablePixel,
    P11: ColorPixel + RenderablePixel,
 {
    type ColorTextures = (
        <I as ReifyTexture<C, L, D, P0>>::Texture,
        <I as ReifyTexture<C, L, D, P1>>::Texture,
        <I as ReifyTexture<C, L, D, P2>>::Texture,
        <I as ReifyTexture<C, L, D, P3>>::Texture,
        <I as ReifyTexture<C, L, D, P4>>::Texture,
        <I as ReifyTexture<C, L, D, P5>>::Texture,
        <I as ReifyTexture<C, L, D, P6>>::Texture,
        <I as ReifyTexture<C, L, D, P7>>::Texture,
        <I as ReifyTexture<C, L, D, P8>>::Texture,
        <I as ReifyTexture<C, L, D, P9>>::Texture,
        <I as ReifyTexture<C, L, D, P10>>::Texture,
        <I as ReifyTexture<C, L, D, P11>>::Texture,
    );

    open spec fn spec_color_formats() -> Seq<PixelFormat> {
        seq![
            P0::spec_pixel_format(),
            P1::spec_pixel_format(),
            P2::spec_pixel_format(),
            P3::spec_pixel_format(),
            P4::spec_pixel_format(),
            P5::spec_pixel_format(),
            P6::spec_pixel_format(),
            P7::spec_pixel_format(),
            P8::spec_pixel_format(),
            P9::spec_pixel_format(),
            P10::spec_pixel_format(),
            P11::spec_pixel_format(),
        ]
    }

    open spec fn requests_of(textures: &Self::ColorTextures) -> Seq<nat> {
        seq![
            <I as ReifyTexture<C, L, D, P0>>::request_of(&textures.0),
            <I as ReifyTexture<C, L, D, P1>>::request_of(&textures.1),
            <I as ReifyTexture<C, L, D, P2>>::request_of(&textures.2),
            <I as ReifyTexture<C, L, D, P3>>::request_of(&textures.3),
            <I as ReifyTexture<C, L, D, P4>>::request_of(&textures.4),
            <I as ReifyTexture<C, L, D, P5>>::request_of(&textures.5),
            <I as ReifyTexture<C, L, D, P6>>::request_of(&textures.6),
            <I as ReifyTexture<C, L, D, P7>>::request_of(&textures.7),
            <I as ReifyTexture<C, L, D, P8>>::request_of(&textures.8),
            <I as ReifyTexture<C, L, D, P9>>::request_of(&textures.9),
            <I as ReifyTexture<C, L, D, P10>>::request_of(&textures.10),
            <I as ReifyTexture<C, L, D, P11>>::request_of(&textures.11),
        ]
    }

    open spec fn formats_of(textures: &Self::ColorTextures) -> Seq<PixelFormat> {
        seq![
            <I as ReifyTexture<C, L, D, P0>>::format_of(&textures.0),
            <I as ReifyTexture<C, L, D, P1>>::format_of(&textures.1),
            <I as ReifyTexture<C, L, D, P2>>::format_of(&textures.2),
            <I as ReifyTexture<C, L, D, P3>>::format_of(&textures.3),
            <I as ReifyTexture<C, L, D, P4>>::format_of(&textures.4),
            <I as ReifyTexture<C, L, D, P5>>::format_of(&textures.5),
            <I as ReifyTexture<C, L, D, P6>>::format_of(&textures.6),
            <I as ReifyTexture<C, L, D, P7>>::format_of(&textures.7),
            <I as ReifyTexture<C, L, D, P8>>::format_of(&textures.8),
            <I as ReifyTexture<C, L, D, P9>>::format_of(&textures.9),
            <I as ReifyTexture<C, L, D, P10>>::format_of(&textures.10),
            <I as ReifyTexture<C, L, D, P11>>::format_of(&textures.11),
        ]
    }

    proof fn color_formats_are_renderable() {
        color_renderable::<P0>();
        color_renderable::<P1>();
        color_renderable::<P2>();
        color_renderable::<P3>();
        color_renderable::<P4>();
        color_renderable::<P5>();
        color_renderable::<P6>();
        color_renderable::<P7>();
        color_renderable::<P8>();
        color_renderable::<P9>();
        color_renderable::<P10>();
        color_renderable::<P11>();
    }

    fn color_formats() -> (formats: Vec<PixelFormat>) {
        vec![
            P0::pixel_format(),
            P1::pixel_format(),
            P2::pixel_format(),
            P3::pixel_format(),
            P4::pixel_format(),
            P5::pixel_format(),
            P6::pixel_format(),
            P7::pixel_format(),
            P8::pixel_format(),
            P9::pixel_format(),
            P10::pixel_format(),
            P11::pixel_format(),
        ]
    }

    fn reify_textures(ctx: &mut C, size: D::Size, mipmaps: usize, state: &mut I) -> (reified:
        Self::ColorTextures) {
        let t0 = <I as ReifyTexture<C, L, D, P0>>::reify_texture(ctx, size, mipmaps, state);
        let t1 = <I as ReifyTexture<C, L, D, P1>>::reify_texture(ctx, size, mipmaps, state);
        let t2 = <I as ReifyTexture<C, L, D, P2>>::reify_texture(ctx, size, mipmaps, state);
        let t3 = <I as ReifyTexture<C, L, D, P3>>::reify_texture(ctx, size, mipmaps, state);
        let t4 = <I as ReifyTexture<C, L, D, P4>>::reify_texture(ctx, size, mipmaps, state);
        let t5 = <I as ReifyTexture<C, L, D, P5>>::reify_texture(ctx, size, mipmaps, state);
        let t6 = <I as ReifyTexture<C, L, D, P6>>::reify_texture(ctx, size, mipmaps, state);
        let t7 = <I as ReifyTexture<C, L, D, P7>>::reify_texture(ctx, size, mipmaps, state);
        let t8 = <I as ReifyTexture<C, L, D, P8>>::reify_texture(ctx, size, mipmaps, state);
        let t9 = <I as ReifyTexture<C, L, D, P9>>::reify_texture(ctx, size, mipmaps, state);
        let t10 = <I as ReifyTexture<C, L, D, P10>>::reify_texture(ctx, size, mipmaps, state);
        let t11 = <I as ReifyTexture<C, L, D, P11>>::reify_texture(ctx, size, mipmaps, state);
        let reified = (t0, t1, t2, t3, t4, t5, t6, t7, t8, t9, t10, t11);
        proof {
            let before = old(state).reified();
            let asked = no_request(before, size, mipmaps);
            let asked = one_more_request(before, asked, P0::spec_pixel_format(), size, mipmaps);
            let asked = one_more_request(before, asked, P1::spec_pixel_format(), size, mipmaps);
            let asked = one_more_request(before, asked, P2::spec_pixel_format(), size, mipmaps);
            let asked = one_more_request(before, asked, P3::spec_pixel_format(), size, mipmaps);
            let asked = one_more_request(before, asked, P4::spec_pixel_format(), size, mipmaps);
            let asked = one_more_request(before, asked, P5::spec_pixel_format(), size, mipmaps);
            let asked = one_more_request(before, asked, P6::spec_pixel_format(), size, mipmaps);
            let asked = one_more_request(before, asked, P7::spec_pixel_format(), size, mipmaps);
            let asked = one_more_request(before, asked, P8::spec_pixel_format(), size, mipmaps);
            let asked = one_more_request(before, asked, P9::spec_pixel_format(), size, mipmaps);
            let asked = one_more_request(before, asked, P10::spec_pixel_format(), size, mipmaps);
            let asked = one_more_request(before, asked, P11::spec_pixel_format(), size, mipmaps);
            list_of_twelve(
                P0::spec_pixel_format(),
                P1::spec_pixel_format(),
                P2::spec_pixel_format(),
                P3::spec_pixel_format(),
                P4::spec_pixel_format(),
                P5::spec_pixel_format(),
                P6::spec_pixel_format(),
                P7::spec_pixel_format(),
                P8::spec_pixel_format(),
                P9::spec_pixel_format(),
                P10::spec_pixel_format(),
                P11::spec_pixel_format(),
            );
            list_of_twelve(
                <I as ReifyTexture<C, L, D, P0>>::format_of(&reified.0),
                <I as ReifyTexture<C, L, D, P1>>::format_of(&reified.1),
                <I as ReifyTexture<C, L, D, P2>>::format_of(&reified.2),
                <I as ReifyTexture<C, L, D, P3>>::format_of(&reified.3),
                <I as ReifyTexture<C, L, D, P4>>::format_of(&reified.4),
                <I as ReifyTexture<C, L, D, P5>>::format_of(&reified.5),
                <I as ReifyTexture<C, L, D, P6>>::format_of(&reified.6),
                <I as ReifyTexture<C, L, D, P7>>::format_of(&reified.7),
                <I as ReifyTexture<C, L, D, P8>>::format_of(&reified.8),
                <I as ReifyTexture<C, L, D, P9>>::format_of(&reified.9),
                <I as ReifyTexture<C, L, D, P10>>::format_of(&reified.10),
                <I as ReifyTexture<C, L, D, P11>>::format_of(&reified.11),
            );
            list_of_twelve(
                <I as ReifyTexture<C, L, D, P0>>::request_of(&reified.0),
                <I as ReifyTexture<C, L, D, P1>>::request_of(&reified.1),
                <I as ReifyTexture<C, L, D, P2>>::request_of(&reified.2),
                <I as ReifyTexture<C, L, D, P3>>::request_of(&reified.3),
                <I as ReifyTexture<C, L, D, P4>>::request_of(&reified.4),
                <I as ReifyTexture<C, L, D, P5>>::request_of(&reified.5),
                <I as ReifyTexture<C, L, D, P6>>::request_of(&reified.6),
                <I as ReifyTexture<C, L, D, P7>>::request_of(&reified.7),
                <I as ReifyTexture<C, L, D, P8>>::request_of(&reified.8),
                <I as ReifyTexture<C, L, D, P9>>::request_of(&reified.9),
                <I as ReifyTexture<C, L, D, P10>>::request_of(&reified.10),
                <I as ReifyTexture<C, L, D, P11>>::request_of(&reified.11),
            );
        }
        reified
    }
}

/// A list of thirteen elements is what adding them one by one to the empty
/// list gives.
proof fn list_of_thirteen<A>(
    a0: A, a1: A, a2: A, a3: A, a4: A, a5: A, a6: A, a7: A, a8: A, a9: A, a10: A, a11: A,
    a12: A,
)
    ensures
        seq![
            a0, a1, a2, a3, a4, a5, a6, a7, a8, a9, a10, a11, a12,
        ] == Seq::<A>::empty()
            .push(a0).push(a1).push(a2).push(a3).push(a4).push(a5).push(a6).push(a7).push(a8)
            .push(a9).push(a10).push(a11).push(a12),
{
    let listed = seq![
        a0, a1, a2, a3, a4, a5, a6, a7, a8, a9, a10, a11, a12,
    ];
    let added = Seq::<A>::empty()
        .push(a0).push(a1).push(a2).push(a3).push(a4).push(a5).push(a6).push(a7).push(a8)
        .push(a9).push(a10).push(a11).push(a12);
    assert(listed =~= added);
}

/// A color slot of thirteen formats.
impl<C, L, D, I, P0, P1, P2, P3, P4, P5, P6, P7, P8, P9, P10, P11, P12> ColorSlot<C, L, D, I> for (P0, P1, P2, P3, P4, P5, P6, P7, P8, P9, P10, P11, P12) where
    L: Layerable,
    D: Dimensionable,
    I: ReifyTexture<C, L, D, P0> + ReifyTexture<C, L, D, P1> + ReifyTexture<C, L, D, P2> + ReifyTexture<C, L, D, P3> + ReifyTexture<C, L, D, P4> + ReifyTexture<C, L, D, P5> + ReifyTexture<C, L, D, P6> + ReifyTexture<C, L, D, P7> + ReifyTexture<C, L, D, P8> + ReifyTexture<C, L, D, P9> + ReifyTexture<C, L, D, P10> + ReifyTexture<C, L, D, P11> + ReifyTexture<C, L, D, P12>,
    P0: ColorPixel + RenderablePixel,
    P1: ColorPixel + RenderablePixel,
    P2: ColorPixel + RenderablePixel,
    P3: ColorPixel + RenderablePixel,
    P4: ColorPixel + RenderablePixel,
    P5: ColorPixel + RenderablePixel,
    P6: ColorPixel + RenderablePixel,
    P7: ColorPixel + RenderablePixel,
    P8: ColorPixel + RenderablePixel,
    P9: ColorPixel + RenderablePixel,
    P10: ColorPixel + RenderablePixel,
    P11: ColorPixel + RenderablePixel,
    P12: ColorPixel + RenderablePixel,
 {
    type ColorTextures = (
        <I as ReifyTexture<C, L, D, P0>>::Texture,
        <I as ReifyTexture<C, L, D, P1>>::Texture,
        <I as ReifyTexture<C, L, D, P2>>::Texture,
        <I as ReifyTexture<C, L, D, P3>>::Texture,
        <I as ReifyTexture<C, L, D, P4>>::Texture,
        <I as ReifyTexture<C, L, D, P5>>::Texture,
        <I as ReifyTexture<C, L, D, P6>>::Texture,
        <I as ReifyTexture<C, L, D, P7>>::Texture,
        <I as ReifyTexture<C, L, D, P8>>::Texture,
        <I as ReifyTexture<C, L, D, P9>>::Texture,
        <I as ReifyTexture<C, L, D, P10>>::Texture,
        <I as ReifyTexture<C, L, D, P11>>::Texture,
        <I as ReifyTexture<C, L, D, P12>>::Texture,
    );

    open spec fn spec_color_formats() -> Seq<PixelFormat> {
        seq![
            P0::spec_pixel_format(),
            P1::spec_pixel_format(),
            P2::spec_pixel_format(),
            P3::spec_pixel_format(),
            P4::spec_pixel_format(),
            P5::spec_pixel_format(),
            P6::spec_pixel_format(),
            P7::spec_pixel_format(),
            P8::spec_pixel_format(),
            P9::spec_pixel_format(),
            P10::spec_pixel_format(),
            P11::spec_pixel_format(),
            P12::spec_pixel_format(),
        ]
    }

    open spec fn requests_of(textures: &Self::ColorTextures) -> Seq<nat> {
        seq![
            <I as ReifyTexture<C, L, D, P0>>::request_of(&textures.0),
            <I as ReifyTexture<C, L, D, P1>>::request_of(&textures.1),
            <I as ReifyTexture<C, L, D, P2>>::request_of(&textures.2),
            <I as ReifyTexture<C, L, D, P3>>::request_of(&textures.3),
            <I as ReifyTexture<C, L, D, P4>>::request_of(&textures.4),
            <I as ReifyTexture<C, L, D, P5>>::request_of(&textures.5),
            <I as ReifyTexture<C, L, D, P6>>::request_of(&textures.6),
            <I as ReifyTexture<C, L, D, P7>>::request_of(&textures.7),
            <I as ReifyTexture<C, L, D, P8>>::request_of(&textures.8),
            <I as ReifyTexture<C, L, D, P9>>::request_of(&textures.9),
            <I as ReifyTexture<C, L, D, P10>>::request_of(&textures.10),
            <I as ReifyTexture<C, L, D, P11>>::request_of(&textures.11),
            <I as ReifyTexture<C, L, D, P12>>::request_of(&textures.12),
        ]
    }

    open spec fn formats_of(textures: &Self::ColorTextures) -> Seq<PixelFormat> {
        seq![
            <I as ReifyTexture<C, L, D, P0>>::format_of(&textures.0),
            <I as ReifyTexture<C, L, D, P1>>::format_of(&textures.1),
            <I as ReifyTexture<C, L, D, P2>>::format_of(&textures.2),
            <I as ReifyTexture<C, L, D, P3>>::format_of(&textures.3),
            <I as ReifyTexture<C, L, D, P4>>::format_of(&textures.4),
            <I as ReifyTexture<C, L, D, P5>>::format_of(&textures.5),
            <I as ReifyTexture<C, L, D, P6>>::format_of(&textures.6),
            <I as ReifyTexture<C, L, D, P7>>::format_of(&textures.7),
            <I as ReifyTexture<C, L, D, P8>>::format_of(&textures.8),
            <I as ReifyTexture<C, L, D, P9>>::format_of(&textures.9),
            <I as ReifyTexture<C, L, D, P10>>::format_of(&textures.10),
            <I as ReifyTexture<C, L, D, P11>>::format_of(&textures.11),
            <I as ReifyTexture<C, L, D, P12>>::format_of(&textures.12),
        ]
    }

    proof fn color_formats_are_renderable() {
        color_renderable::<P0>();
        color_renderable::<P1>();
        color_renderable::<P2>();
        color_renderable::<P3>();
        color_renderable::<P4>();
        color_renderable::<P5>();
        color_renderable::<P6>();
        color_renderable::<P7>();
        color_renderable::<P8>();
        color_renderable::<P9>();
        color_renderable::<P10>();
        color_renderable::<P11>();
        color_renderable::<P12>();
    }

    fn color_formats() -> (formats: Vec<PixelFormat>) {
        vec![
            P0::pixel_format(),
            P1::pixel_format(),
            P2::pixel_format(),
            P3::pixel_format(),
            P4::pixel_format(),
            P5::pixel_format(),
            P6::pixel_format(),
            P7::pixel_format(),
            P8::pixel_format(),
            P9::pixel_format(),
            P10::pixel_format(),
            P11::pixel_format(),
            P12::pixel_format(),
        ]
    }

    fn reify_textures(ctx: &mut C, size: D::Size, mipmaps: usize, state: &mut I) -> (reified:
        Self::ColorTextures) {
        let t0 = <I as ReifyTexture<C, L, D, P0>>::reify_texture(ctx, size, mipmaps, state);
        let t1 = <I as ReifyTexture<C, L, D, P1>>::reify_texture(ctx, size, mipmaps, state);
        let t2 = <I as ReifyTexture<C, L, D, P2>>::reify_texture(ctx, size, mipmaps, state);
        let t3 = <I as ReifyTexture<C, L, D, P3>>::reify_texture(ctx, size, mipmaps, state);
        let t4 = <I as ReifyTexture<C, L, D, P4>>::reify_texture(ctx, size, mipmaps, state);
        let t5 = <I as ReifyTexture<C, L, D, P5>>::reify_texture(ctx, size, mipmaps, state);
        let t6 = <I as ReifyTexture<C, L, D, P6>>::reify_texture(ctx, size, mipmaps, state);
        let t7 = <I as ReifyTexture<C, L, D, P7>>::reify_texture(ctx, size, mipmaps, state);
        let t8 = <I as ReifyTexture<C, L, D, P8>>::reify_texture(ctx, size, mipmaps, state);
        let t9 = <I as ReifyTexture<C, L, D, P9>>::reify_texture(ctx, size, mipmaps, state);
        let t10 = <I as ReifyTexture<C, L, D, P10>>::reify_texture(ctx, size, mipmaps, state);
        let t11 = <I as ReifyTexture<C, L, D, P11>>::reify_texture(ctx, size, mipmaps, state);
        let t12 = <I as ReifyTexture<C, L, D, P12>>::reify_texture(ctx, size, mipmaps, state);
        let reified = (t0, t1, t2, t3, t4, t5, t6, t7, t8, t9, t10, t11, t12);
        proof {
            let before = old(state).reified();
            let asked = no_request(before, size, mipmaps);
            let asked = one_more_request(before, asked, P0::spec_pixel_format(), size, mipmaps);
            let asked = one_more_request(before, asked, P1::spec_pixel_format(), size, mipmaps);
            let asked = one_more_request(before, asked, P2::spec_pixel_format(), size, mipmaps);
            let asked = one_more_request(before, asked, P3::spec_pixel_format(), size, mipmaps);
            let asked = one_more_request(before, asked, P4::spec_pixel_format(), size, mipmaps);
            let asked = one_more_request(before, asked, P5::spec_pixel_format(), size, mipmaps);
            let asked = one_more_request(before, asked, P6::spec_pixel_format(), size, mipmaps);
            let asked = one_more_request(before, asked, P7::spec_pixel_format(), size, mipmaps);
            let asked = one_more_request(before, asked, P8::spec_pixel_format(), size, mipmaps);
            let asked = one_more_request(before, asked, P9::spec_pixel_format(), size, mipmaps);
            let asked = one_more_request(before, asked, P10::spec_pixel_format(), size, mipmaps);
            let asked = one_more_request(before, asked, P11::spec_pixel_format(), size, mipmaps);
            let asked = one_more_request(before, asked, P12::spec_pixel_format(), size, mipmaps);
            list_of_thirteen(
                P0::spec_pixel_format(),
                P1::spec_pixel_format(),
                P2::spec_pixel_format(),
                P3::spec_pixel_format(),
                P4::spec_pixel_format(),
                P5::spec_pixel_format(),
                P6::spec_pixel_format(),
                P7::spec_pixel_format(),
                P8::spec_pixel_format(),
                P9::spec_pixel_format(),
                P10::spec_pixel_format(),
                P11::spec_pixel_format(),
                P12::spec_pixel_format(),
            );
            list_of_thirteen(
                <I as ReifyTexture<C, L, D, P0>>::format_of(&reified.0),
                <I as ReifyTexture<C, L, D, P1>>::format_of(&reified.1),
                <I as ReifyTexture<C, L, D, P2>>::format_of(&reified.2),
                <I as ReifyTexture<C, L, D, P3>>::format_of(&reified.3),
                <I as ReifyTexture<C, L, D, P4>>::format_of(&reified.4),
                <I as ReifyTexture<C, L, D, P5>>::format_of(&reified.5),
                <I as ReifyTexture<C, L, D, P6>>::format_of(&reified.6),
                <I as ReifyTexture<C, L, D, P7>>::format_of(&reified.7),
                <I as ReifyTexture<C, L, D, P8>>::format_of(&reified.8),
                <I as ReifyTexture<C, L, D, P9>>::format_of(&reified.9),
                <I as ReifyTexture<C, L, D, P10>>::format_of(&reified.10),
                <I as ReifyTexture<C, L, D, P11>>::format_of(&reified.11),
                <I as ReifyTexture<C, L, D, P12>>::format_of(&reified.12),
            );
            list_of_thirteen(
                <I as ReifyTexture<C, L, D, P0>>::request_of(&reified.0),
                <I as ReifyTexture<C, L, D, P1>>::request_of(&reified.1),
                <I as ReifyTexture<C, L, D, P2>>::request_of(&reified.2),
                <I as ReifyTexture<C, L, D, P3>>::request_of(&reified.3),
                <I as ReifyTexture<C, L, D, P4>>::request_of(&reified.4),
                <I as ReifyTexture<C, L, D, P5>>::request_of(&reified.5),
                <I as ReifyTexture<C, L, D, P6>>::request_of(&reified.6),
                <I as ReifyTexture<C, L, D, P7>>::request_of(&reified.7),
                <I as ReifyTexture<C, L, D, P8>>::request_of(&reified.8),
                <I as ReifyTexture<C, L, D, P9>>::request_of(&reified.9),
                <I as ReifyTexture<C, L, D, P10>>::request_of(&reified.10),
                <I as ReifyTexture<C, L, D, P11>>::request_of(&reified.11),
                <I as ReifyTexture<C, L, D, P12>>::request_of(&reified.12),
            );
        }
        reified
    }
}

/// A list of fourteen elements is what adding them one by one to the empty
/// list gives.
proof fn list_of_fourteen<A>(
    a0: A, a1: A, a2: A, a3: A, a4: A, a5: A, a6: A, a7: A, a8: A, a9: A, a10: A, a11: A,
    a12: A, a13: A,
)
    ensures
        seq![
            a0, a1, a2, a3, a4, a5, a6, a7, a8, a9, a10, a11, a12, a13,
        ] == Seq::<A>::empty()
            .push(a0).push(a1).push(a2).push(a3).push(a4).push(a5).push(a6).push(a7).push(a8)
            .push(a9).push(a10).push(a11).push(a12).push(a13),
{
    let listed = seq![
        a0, a1, a2, a3, a4, a5, a6, a7, a8, a9, a10, a11, a12, a13,
    ];
    let added = Seq::<A>::empty()
        .push(a0).push(a1).push(a2).push(a3).push(a4).push(a5).push(a6).push(a7).push(a8)
        .push(a9).push(a10).push(a11).push(a12).push(a13);
    assert(listed =~= added);
}

/// A color slot of fourteen formats.
impl<C, L, D, I, P0, P1, P2, P3, P4, P5, P6, P7, P8, P9, P10, P11, P12, P13> ColorSlot<C, L, D, I> for (P0, P1, P2, P3, P4, P5, P6, P7, P8, P9, P10, P11, P12, P13) where
    L: Layerable,
    D: Dimensionable,
    I: ReifyTexture<C, L, D, P0> + ReifyTexture<C, L, D, P1> + ReifyTexture<C, L, D, P2> + ReifyTexture<C, L, D, P3> + ReifyTexture<C, L, D, P4> + ReifyTexture<C, L, D, P5> + ReifyTexture<C, L, D, P6> + ReifyTexture<C, L, D, P7> + ReifyTexture<C, L, D, P8> + ReifyTexture<C, L, D, P9> + ReifyTexture<C, L, D, P10> + ReifyTexture<C, L, D, P11> + ReifyTexture<C, L, D, P12> + ReifyTexture<C, L, D, P13>,
    P0: ColorPixel + RenderablePixel,
    P1: ColorPixel + RenderablePixel,
    P2: ColorPixel + RenderablePixel,
    P3: ColorPixel + RenderablePixel,
    P4: ColorPixel + RenderablePixel,
    P5: ColorPixel + RenderablePixel,
    P6: ColorPixel + RenderablePixel,
    P7: ColorPixel + RenderablePixel,
    P8: ColorPixel + RenderablePixel,
    P9: ColorPixel + RenderablePixel,
    P10: ColorPixel + RenderablePixel,
    P11: ColorPixel + RenderablePixel,
    P12: ColorPixel + RenderablePixel,
    P13: ColorPixel + RenderablePixel,
 {
    type ColorTextures = (
        <I as ReifyTexture<C, L, D, P0>>::Texture,
        <I as ReifyTexture<C, L, D, P1>>::Texture,
        <I as ReifyTexture<C, L, D, P2>>::Texture,
        <I as ReifyTexture<C, L, D, P3>>::Texture,
        <I as ReifyTexture<C, L, D, P4>>::Texture,
        <I as ReifyTexture<C, L, D, P5>>::Texture,
        <I as ReifyTexture<C, L, D, P6>>::Texture,
        <I as ReifyTexture<C, L, D, P7>>::Texture,
        <I as ReifyTexture<C, L, D, P8>>::Texture,
        <I as ReifyTexture<C, L, D, P9>>::Texture,
        <I as ReifyTexture<C, L, D, P10>>::Texture,
        <I as ReifyTexture<C, L, D, P11>>::Texture,
        <I as ReifyTexture<C, L, D, P12>>::Texture,
        <I as ReifyTexture<C, L, D, P13>>::Texture,
    );

    open spec fn spec_color_formats() -> Seq<PixelFormat> {
        seq![
            P0::spec_pixel_format(),
            P1::spec_pixel_format(),
            P2::spec_pixel_format(),
            P3::spec_pixel_format(),
            P4::spec_pixel_format(),
            P5::spec_pixel_format(),
            P6::spec_pixel_format(),
            P7::spec_pixel_format(),
            P8::spec_pixel_format(),
            P9::spec_pixel_format(),
            P10::spec_pixel_format(),
            P11::spec_pixel_format(),
            P12::spec_pixel_format(),
            P13::spec_pixel_format(),
        ]
    }

    open spec fn requests_of(textures: &Self::ColorTextures) -> Seq<nat> {
        seq![
            <I as ReifyTexture<C, L, D, P0>>::request_of(&textures.0),
            <I as ReifyTexture<C, L, D, P1>>::request_of(&textures.1),
            <I as ReifyTexture<C, L, D, P2>>::request_of(&textures.2),
            <I as ReifyTexture<C, L, D, P3>>::request_of(&textures.3),
            <I as ReifyTexture<C, L, D, P4>>::request_of(&textures.4),
            <I as ReifyTexture<C, L, D, P5>>::request_of(&textures.5),
            <I as ReifyTexture<C, L, D, P6>>::request_of(&textures.6),
            <I as ReifyTexture<C, L, D, P7>>::request_of(&textures.7),
            <I as ReifyTexture<C, L, D, P8>>::request_of(&textures.8),
            <I as ReifyTexture<C, L, D, P9>>::request_of(&textures.9),
            <I as ReifyTexture<C, L, D, P10>>::request_of(&textures.10),
            <I as ReifyTexture<C, L, D, P11>>::request_of(&textures.11),
            <I as ReifyTexture<C, L, D, P12>>::request_of(&textures.12),
            <I as ReifyTexture<C, L, D, P13>>::request_of(&textures.13),
        ]
    }

    open spec fn formats_of(textures: &Self::ColorTextures) -> Seq<PixelFormat> {
        seq![
            <I as ReifyTexture<C, L, D, P0>>::format_of(&textures.0),
            <I as ReifyTexture<C, L, D, P1>>::format_of(&textures.1),
            <I as ReifyTexture<C, L, D, P2>>::format_of(&textures.2),
            <I as ReifyTexture<C, L, D, P3>>::format_of(&textures.3),
            <I as ReifyTexture<C, L, D, P4>>::format_of(&textures.4),
            <I as ReifyTexture<C, L, D, P5>>::format_of(&textures.5),
            <I as ReifyTexture<C, L, D, P6>>::format_of(&textures.6),
            <I as ReifyTexture<C, L, D, P7>>::format_of(&textures.7),
            <I as ReifyTexture<C, L, D, P8>>::format_of(&textures.8),
            <I as ReifyTexture<C, L, D, P9>>::format_of(&textures.9),
            <I as ReifyTexture<C, L, D, P10>>::format_of(&textures.10),
            <I as ReifyTexture<C, L, D, P11>>::format_of(&textures.11),
            <I as ReifyTexture<C, L, D, P12>>::format_of(&textures.12),
            <I as ReifyTexture<C, L, D, P13>>::format_of(&textures.13),
        ]
    }

    proof fn color_formats_are_renderable() {
        color_renderable::<P0>();
        color_renderable::<P1>();
        color_renderable::<P2>();
        color_renderable::<P3>();
        color_renderable::<P4>();
        color_renderable::<P5>();
        color_renderable::<P6>();
        color_renderable::<P7>();
        color_renderable::<P8>();
        color_renderable::<P9>();
        color_renderable::<P10>();
        color_renderable::<P11>();
        color_renderable::<P12>();
        color_renderable::<P13>();
    }

    fn color_formats() -> (formats: Vec<PixelFormat>) {
        vec![
            P0::pixel_format(),
            P1::pixel_format(),
            P2::pixel_format(),
            P3::pixel_format(),
            P4::pixel_format(),
            P5::pixel_format(),
            P6::pixel_format(),
            P7::pixel_format(),
            P8::pixel_format(),
            P9::pixel_format(),
            P10::pixel_format(),
            P11::pixel_format(),
            P12::pixel_format(),
            P13::pixel_format(),
        ]
    }

    fn reify_textures(ctx: &mut C, size: D::Size, mipmaps: usize, state: &mut I) -> (reified:
        Self::ColorTextures) {
        let t0 = <I as ReifyTexture<C, L, D, P0>>::reify_texture(ctx, size, mipmaps, state);
        let t1 = <I as ReifyTexture<C, L, D, P1>>::reify_texture(ctx, size, mipmaps, state);
        let t2 = <I as ReifyTexture<C, L, D, P2>>::reify_texture(ctx, size, mipmaps, state);
        let t3 = <I as ReifyTexture<C, L, D, P3>>::reify_texture(ctx, size, mipmaps, state);
        let t4 = <I as ReifyTexture<C, L, D, P4>>::reify_texture(ctx, size, mipmaps, state);
        let t5 = <I as ReifyTexture<C, L, D, P5>>::reify_texture(ctx, size, mipmaps, state);
        let t6 = <I as ReifyTexture<C, L, D, P6>>::reify_texture(ctx, size, mipmaps, state);
        let t7 = <I as ReifyTexture<C, L, D, P7>>::reify_texture(ctx, size, mipmaps, state);
        let t8 = <I as ReifyTexture<C, L, D, P8>>::reify_texture(ctx, size, mipmaps, state);
        let t9 = <I as ReifyTexture<C, L, D, P9>>::reify_texture(ctx, size, mipmaps, state);
        let t10 = <I as ReifyTexture<C, L, D, P10>>::reify_texture(ctx, size, mipmaps, state);
        let t11 = <I as ReifyTexture<C, L, D, P11>>::reify_texture(ctx, size, mipmaps, state);
        let t12 = <I as ReifyTexture<C, L, D, P12>>::reify_texture(ctx, size, mipmaps, state);
        let t13 = <I as ReifyTexture<C, L, D, P13>>::reify_texture(ctx, size, mipmaps, state);
        let reified = (t0, t1, t2, t3, t4, t5, t6, t7, t8, t9, t10, t11, t12, t13);
        proof {
            let before = old(state).reified();
            let asked = no_request(before, size, mipmaps);
            let asked = one_more_request(before, asked, P0::spec_pixel_format(), size, mipmaps);
            let asked = one_more_request(before, asked, P1::spec_pixel_format(), size, mipmaps);
            let asked = one_more_request(before, asked, P2::spec_pixel_format(), size, mipmaps);
            let asked = one_more_request(before, asked, P3::spec_pixel_format(), size, mipmaps);
            let asked = one_more_request(before, asked, P4::spec_pixel_format(), size, mipmaps);
            let asked = one_more_request(before, asked, P5::spec_pixel_format(), size, mipmaps);
            let asked = one_more_request(before, asked, P6::spec_pixel_format(), size, mipmaps);
            let asked = one_more_request(before, asked, P7::spec_pixel_format(), size, mipmaps);
            let asked = one_more_request(before, asked, P8::spec_pixel_format(), size, mipmaps);
            let asked = one_more_request(before, asked, P9::spec_pixel_format(), size, mipmaps);
            let asked = one_more_request(before, asked, P10::spec_pixel_format(), size, mipmaps);
            let asked = one_more_request(before, asked, P11::spec_pixel_format(), size, mipmaps);
            let asked = one_more_request(before, asked, P12::spec_pixel_format(), size, mipmaps);
            let asked = one_more_request(before, asked, P13::spec_pixel_format(), size, mipmaps);
            list_of_fourteen(
                P0::spec_pixel_format(),
                P1::spec_pixel_format(),
                P2::spec_pixel_format(),
                P3::spec_pixel_format(),
                P4::spec_pixel_format(),
                P5::spec_pixel_format(),
                P6::spec_pixel_format(),
                P7::spec_pixel_format(),
                P8::spec_pixel_format(),
                P9::spec_pixel_format(),
                P10::spec_pixel_format(),
                P11::spec_pixel_format(),
                P12::spec_pixel_format(),
                P13::spec_pixel_format(),
            );
            list_of_fourteen(
                <I as ReifyTexture<C, L, D, P0>>::format_of(&reified.0),
                <I as ReifyTexture<C, L, D, P1>>::format_of(&reified.1),
                <I as ReifyTexture<C, L, D, P2>>::format_of(&reified.2),
                <I as ReifyTexture<C, L, D, P3>>::format_of(&reified.3),
                <I as ReifyTexture<C, L, D, P4>>::format_of(&reified.4),
                <I as ReifyTexture<C, L, D, P5>>::format_of(&reified.5),
                <I as ReifyTexture<C, L, D, P6>>::format_of(&reified.6),
                <I as ReifyTexture<C, L, D, P7>>::format_of(&reified.7),
                <I as ReifyTexture<C, L, D, P8>>::format_of(&reified.8),
                <I as ReifyTexture<C, L, D, P9>>::format_of(&reified.9),
                <I as ReifyTexture<C, L, D, P10>>::format_of(&reified.10),
                <I as ReifyTexture<C, L, D, P11>>::format_of(&reified.11),
                <I as ReifyTexture<C, L, D, P12>>::format_of(&reified.12),
                <I as ReifyTexture<C, L, D, P13>>::format_of(&reified.13),
            );
            list_of_fourteen(
                <I as ReifyTexture<C, L, D, P0>>::request_of(&reified.0),
                <I as ReifyTexture<C, L, D, P1>>::request_of(&reified.1),
                <I as ReifyTexture<C, L, D, P2>>::request_of(&reified.2),
                <I as ReifyTexture<C, L, D, P3>>::request_of(&reified.3),
                <I as ReifyTexture<C, L, D, P4>>::request_of(&reified.4),
                <I as ReifyTexture<C, L, D, P5>>::request_of(&reified.5),
                <I as ReifyTexture<C, L, D, P6>>::request_of(&reified.6),
                <I as ReifyTexture<C, L, D, P7>>::request_of(&reified.7),
                <I as ReifyTexture<C, L, D, P8>>::request_of(&reified.8),
                <I as ReifyTexture<C, L, D, P9>>::request_of(&reified.9),
                <I as ReifyTexture<C, L, D, P10>>::request_of(&reified.10),
                <I as ReifyTexture<C, L, D, P11>>::request_of(&reified.11),
                <I as ReifyTexture<C, L, D, P12>>::request_of(&reified.12),
                <I as ReifyTexture<C, L, D, P13>>::request_of(&reified.13),
            );
        }
        reified
    }
}

/// A list of fifteen elements is what adding them one by one to the empty
/// list gives.
proof fn list_of_fifteen<A>(
    a0: A, a1: A, a2: A, a3: A, a4: A, a5: A, a6: A, a7: A, a8: A, a9: A, a10: A, a11: A,
    a12: A, a13: A, a14: A,
)
    ensures
        seq![
            a0, a1, a2, a3, a4, a5, a6, a7, a8, a9, a10, a11, a12, a13, a14,
        ] == Seq::<A>::empty()
            .push(a0).push(a1).push(a2).push(a3).push(a4).push(a5).push(a6).push(a7).push(a8)
            .push(a9).push(a10).push(a11).push(a12).push(a13).push(a14),
{
    let listed = seq![
        a0, a1, a2, a3, a4, a5, a6, a7, a8, a9, a10, a11, a12, a13, a14,
    ];
    let added = Seq::<A>::empty()
        .push(a0).push(a1).push(a2).push(a3).push(a4).push(a5).push(a6).push(a7).push(a8)
        .push(a9).push(a10).push(a11).push(a12).push(a13).push(a14);
    assert(listed =~= added);
}

/// A color slot of fifteen formats.
impl<C, L, D, I, P0, P1, P2, P3, P4, P5, P6, P7, P8, P9, P10, P11, P12, P13, P14> ColorSlot<C, L, D, I> for (P0, P1, P2, P3, P4, P5, P6, P7, P8, P9, P10, P11, P12, P13, P14) where
    L: Layerable,
    D: Dimensionable,
    I: ReifyTexture<C, L, D, P0> + ReifyTexture<C, L, D, P1> + ReifyTexture<C, L, D, P2> + ReifyTexture<C, L, D, P3> + ReifyTexture<C, L, D, P4> + ReifyTexture<C, L, D, P5> + ReifyTexture<C, L, D, P6> + ReifyTexture<C, L, D, P7> + ReifyTexture<C, L, D, P8> + ReifyTexture<C, L, D, P9> + ReifyTexture<C, L, D, P10> + ReifyTexture<C, L, D, P11> + ReifyTexture<C, L, D, P12> + ReifyTexture<C, L, D, P13> + ReifyTexture<C, L, D, P14>,
    P0: ColorPixel + RenderablePixel,
    P1: ColorPixel + RenderablePixel,
    P2: ColorPixel + RenderablePixel,
    P3: ColorPixel + RenderablePixel,
    P4: ColorPixel + RenderablePixel,
    P5: ColorPixel + RenderablePixel,
    P6: ColorPixel + RenderablePixel,
    P7: ColorPixel + RenderablePixel,
    P8: ColorPixel + RenderablePixel,
    P9: ColorPixel + RenderablePixel,
    P10: ColorPixel + RenderablePixel,
    P11: ColorPixel + RenderablePixel,
    P12: ColorPixel + RenderablePixel,
    P13: ColorPixel + RenderablePixel,
    P14: ColorPixel + RenderablePixel,
 {
    type ColorTextures = (
        <I as ReifyTexture<C, L, D, P0>>::Texture,
        <I as ReifyTexture<C, L, D, P1>>::Texture,
        <I as ReifyTexture<C, L, D, P2>>::Texture,
        <I as ReifyTexture<C, L, D, P3>>::Texture,
        <I as ReifyTexture<C, L, D, P4>>::Texture,
        <I as ReifyTexture<C, L, D, P5>>::Texture,
        <I as ReifyTexture<C, L, D, P6>>::Texture,
        <I as ReifyTexture<C, L, D, P7>>::Texture,
        <I as ReifyTexture<C, L, D, P8>>::Texture,
        <I as ReifyTexture<C, L, D, P9>>::Texture,
        <I as ReifyTexture<C, L, D, P10>>::Texture,
        <I as ReifyTexture<C, L, D, P11>>::Texture,
        <I as ReifyTexture<C, L, D, P12>>::Texture,
        <I as ReifyTexture<C, L, D, P13>>::Texture,
        <I as ReifyTexture<C, L, D, P14>>::Texture,
    );

    open spec fn spec_color_formats() -> Seq<PixelFormat> {
        seq![
            P0::spec_pixel_format(),
            P1::spec_pixel_format(),
            P2::spec_pixel_format(),
            P3::spec_pixel_format(),
            P4::spec_pixel_format(),
            P5::spec_pixel_format(),
            P6::spec_pixel_format(),
            P7::spec_pixel_format(),
            P8::spec_pixel_format(),
            P9::spec_pixel_format(),
            P10::spec_pixel_format(),
            P11::spec_pixel_format(),
            P12::spec_pixel_format(),
            P13::spec_pixel_format(),
            P14::spec_pixel_format(),
        ]
    }

    open spec fn requests_of(textures: &Self::ColorTextures) -> Seq<nat> {
        seq![
            <I as ReifyTexture<C, L, D, P0>>::request_of(&textures.0),
            <I as ReifyTexture<C, L, D, P1>>::request_of(&textures.1),
            <I as ReifyTexture<C, L, D, P2>>::request_of(&textures.2),
            <I as ReifyTexture<C, L, D, P3>>::request_of(&textures.3),
            <I as ReifyTexture<C, L, D, P4>>::request_of(&textures.4),
            <I as ReifyTexture<C, L, D, P5>>::request_of(&textures.5),
            <I as ReifyTexture<C, L, D, P6>>::request_of(&textures.6),
            <I as ReifyTexture<C, L, D, P7>>::request_of(&textures.7),
            <I as ReifyTexture<C, L, D, P8>>::request_of(&textures.8),
            <I as ReifyTexture<C, L, D, P9>>::request_of(&textures.9),
            <I as ReifyTexture<C, L, D, P10>>::request_of(&textures.10),
            <I as ReifyTexture<C, L, D, P11>>::request_of(&textures.11),
            <I as ReifyTexture<C, L, D, P12>>::request_of(&textures.12),
            <I as ReifyTexture<C, L, D, P13>>::request_of(&textures.13),
            <I as ReifyTexture<C, L, D, P14>>::request_of(&textures.14),
        ]
    }

    open spec fn formats_of(textures: &Self::ColorTextures) -> Seq<PixelFormat> {
        seq![
            <I as ReifyTexture<C, L, D, P0>>::format_of(&textures.0),
            <I as ReifyTexture<C, L, D, P1>>::format_of(&textures.1),
            <I as ReifyTexture<C, L, D, P2>>::format_of(&textures.2),
            <I as ReifyTexture<C, L, D, P3>>::format_of(&textures.3),
            <I as ReifyTexture<C, L, D, P4>>::format_of(&textures.4),
            <I as ReifyTexture<C, L, D, P5>>::format_of(&textures.5),
            <I as ReifyTexture<C, L, D, P6>>::format_of(&textures.6),
            <I as ReifyTexture<C, L, D, P7>>::format_of(&textures.7),
            <I as ReifyTexture<C, L, D, P8>>::format_of(&textures.8),
            <I as ReifyTexture<C, L, D, P9>>::format_of(&textures.9),
            <I as ReifyTexture<C, L, D, P10>>::format_of(&textures.10),
            <I as ReifyTexture<C, L, D, P11>>::format_of(&textures.11),
            <I as ReifyTexture<C, L, D, P12>>::format_of(&textures.12),
            <I as ReifyTexture<C, L, D, P13>>::format_of(&textures.13),
            <I as ReifyTexture<C, L, D, P14>>::format_of(&textures.14),
        ]
    }

    proof fn color_formats_are_renderable() {
        color_renderable::<P0>();
        color_renderable::<P1>();
        color_renderable::<P2>();
        color_renderable::<P3>();
        color_renderable::<P4>();
        color_renderable::<P5>();
        color_renderable::<P6>();
        color_renderable::<P7>();
        color_renderable::<P8>();
        color_renderable::<P9>();
        color_renderable::<P10>();
        color_renderable::<P11>();
        color_renderable::<P12>();
        color_renderable::<P13>();
        color_renderable::<P14>();
    }

    fn color_formats() -> (formats: Vec<PixelFormat>) {
        vec![
            P0::pixel_format(),
            P1::pixel_format(),
            P2::pixel_format(),
            P3::pixel_format(),
            P4::pixel_format(),
            P5::pixel_format(),
            P6::pixel_format(),
            P7::pixel_format(),
            P8::pixel_format(),
            P9::pixel_format(),
            P10::pixel_format(),
            P11::pixel_format(),
            P12::pixel_format(),
            P13::pixel_format(),
            P14::pixel_format(),
        ]
    }

    fn reify_textures(ctx: &mut C, size: D::Size, mipmaps: usize, state: &mut I) -> (reified:
        Self::ColorTextures) {
        let t0 = <I as ReifyTexture<C, L, D, P0>>::reify_texture(ctx, size, mipmaps, state);
        let t1 = <I as ReifyTexture<C, L, D, P1>>::reify_texture(ctx, size, mipmaps, state);
        let t2 = <I as ReifyTexture<C, L, D, P2>>::reify_texture(ctx, size, mipmaps, state);
        let t3 = <I as ReifyTexture<C, L, D, P3>>::reify_texture(ctx, size, mipmaps, state);
        let t4 = <I as ReifyTexture<C, L, D, P4>>::reify_texture(ctx, size, mipmaps, state);
        let t5 = <I as ReifyTexture<C, L, D, P5>>::reify_texture(ctx, size, mipmaps, state);
        let t6 = <I as ReifyTexture<C, L, D, P6>>::reify_texture(ctx, size, mipmaps, state);
        let t7 = <I as ReifyTexture<C, L, D, P7>>::reify_texture(ctx, size, mipmaps, state);
        let t8 = <I as ReifyTexture<C, L, D, P8>>::reify_texture(ctx, size, mipmaps, state);
        let t9 = <I as ReifyTexture<C, L, D, P9>>::reify_texture(ctx, size, mipmaps, state);
        let t10 = <I as ReifyTexture<C, L, D, P10>>::reify_texture(ctx, size, mipmaps, state);
        let t11 = <I as ReifyTexture<C, L, D, P11>>::reify_texture(ctx, size, mipmaps, state);
        let t12 = <I as ReifyTexture<C, L, D, P12>>::reify_texture(ctx, size, mipmaps, state);
        let t13 = <I as ReifyTexture<C, L, D, P13>>::reify_texture(ctx, size, mipmaps, state);
        let t14 = <I as ReifyTexture<C, L, D, P14>>::reify_texture(ctx, size, mipmaps, state);
        let reified = (t0, t1, t2, t3, t4, t5, t6, t7, t8, t9, t10, t11, t12, t13, t14);
        proof {
            let before = old(state).reified();
            let asked = no_request(before, size, mipmaps);
            let asked = one_more_request(before, asked, P0::spec_pixel_format(), size, mipmaps);
            let asked = one_more_request(before, asked, P1::spec_pixel_format(), size, mipmaps);
            let asked = one_more_request(before, asked, P2::spec_pixel_format(), size, mipmaps);
            let asked = one_more_request(before, asked, P3::spec_pixel_format(), size, mipmaps);
            let asked = one_more_request(before, asked, P4::spec_pixel_format(), size, mipmaps);
            let asked = one_more_request(before, asked, P5::spec_pixel_format(), size, mipmaps);
            let asked = one_more_request(before, asked, P6::spec_pixel_format(), size, mipmaps);
            let asked = one_more_request(before, asked, P7::spec_pixel_format(), size, mipmaps);
            let asked = one_more_request(before, asked, P8::spec_pixel_format(), size, mipmaps);
            let asked = one_more_request(before, asked, P9::spec_pixel_format(), size, mipmaps);
            let asked = one_more_request(before, asked, P10::spec_pixel_format(), size, mipmaps);
            let asked = one_more_request(before, asked, P11::spec_pixel_format(), size, mipmaps);
            let asked = one_more_request(before, asked, P12::spec_pixel_format(), size, mipmaps);
            let asked = one_more_request(before, asked, P13::spec_pixel_format(), size, mipmaps);
            let asked = one_more_request(before, asked, P14::spec_pixel_format(), size, mipmaps);
            list_of_fifteen(
                P0::spec_pixel_format(),
                P1::spec_pixel_format(),
                P2::spec_pixel_format(),
                P3::spec_pixel_format(),
                P4::spec_pixel_format(),
                P5::spec_pixel_format(),
                P6::spec_pixel_format(),
                P7::spec_pixel_format(),
                P8::spec_pixel_format(),
                P9::spec_pixel_format(),
                P10::spec_pixel_format(),
                P11::spec_pixel_format(),
                P12::spec_pixel_format(),
                P13::spec_pixel_format(),
                P14::spec_pixel_format(),
            );
            list_of_fifteen(
                <I as ReifyTexture<C, L, D, P0>>::format_of(&reified.0),
                <I as ReifyTexture<C, L, D, P1>>::format_of(&reified.1),
                <I as ReifyTexture<C, L, D, P2>>::format_of(&reified.2),
                <I as ReifyTexture<C, L, D, P3>>::format_of(&reified.3),
                <I as ReifyTexture<C, L, D, P4>>::format_of(&reified.4),
                <I as ReifyTexture<C, L, D, P5>>::format_of(&reified.5),
                <I as ReifyTexture<C, L, D, P6>>::format_of(&reified.6),
                <I as ReifyTexture<C, L, D, P7>>::format_of(&reified.7),
                <I as ReifyTexture<C, L, D, P8>>::format_of(&reified.8),
                <I as ReifyTexture<C, L, D, P9>>::format_of(&reified.9),
                <I as ReifyTexture<C, L, D, P10>>::format_of(&reified.10),
                <I as ReifyTexture<C, L, D, P11>>::format_of(&reified.11),
                <I as ReifyTexture<C, L, D, P12>>::format_of(&reified.12),
                <I as ReifyTexture<C, L, D, P13>>::format_of(&reified.13),
                <I as ReifyTexture<C, L, D, P14>>::format_of(&reified.14),
            );
            list_of_fifteen(
                <I as ReifyTexture<C, L, D, P0>>::request_of(&reified.0),
                <I as ReifyTexture<C, L, D, P1>>::request_of(&reified.1),
                <I as ReifyTexture<C, L, D, P2>>::request_of(&reified.2),
                <I as ReifyTexture<C, L, D, P3>>::request_of(&reified.3),
                <I as ReifyTexture<C, L, D, P4>>::request_of(&reified.4),
                <I as ReifyTexture<C, L, D, P5>>::request_of(&reified.5),
                <I as ReifyTexture<C, L, D, P6>>::request_of(&reified.6),
                <I as ReifyTexture<C, L, D, P7>>::request_of(&reified.7),
                <I as ReifyTexture<C, L, D, P8>>::request_of(&reified.8),
                <I as ReifyTexture<C, L, D, P9>>::request_of(&reified.9),
                <I as ReifyTexture<C, L, D, P10>>::request_of(&reified.10),
                <I as ReifyTexture<C, L, D, P11>>::request_of(&reified.11),
                <I as ReifyTexture<C, L, D, P12>>::request_of(&reified.12),
                <I as ReifyTexture<C, L, D, P13>>::request_of(&reified.13),
                <I as ReifyTexture<C, L, D, P14>>::request_of(&reified.14),
            );
        }
        reified
    }
}

/// A list of sixteen elements is what adding them one by one to the empty
/// list gives.
proof fn list_of_sixteen<A>(
    a0: A, a1: A, a2: A, a3: A, a4: A, a5: A, a6: A, a7: A, a8: A, a9: A, a10: A, a11: A,
    a12: A, a13: A, a14: A, a15: A,
)
    ensures
        seq![
            a0, a1, a2, a3, a4, a5, a6, a7, a8, a9, a10, a11, a12, a13, a14, a15,
        ] == Seq::<A>::empty()
            .push(a0).push(a1).push(a2).push(a3).push(a4).push(a5).push(a6).push(a7).push(a8)
            .push(a9).push(a10).push(a11).push(a12).push(a13).push(a14).push(a15),
{
    let listed = seq![
        a0, a1, a2, a3, a4, a5, a6, a7, a8, a9, a10, a11, a12, a13, a14, a15,
    ];
    let added = Seq::<A>::empty()
        .push(a0).push(a1).push(a2).push(a3).push(a4).push(a5).push(a6).push(a7).push(a8)
        .push(a9).push(a10).push(a11).push(a12).push(a13).push(a14).push(a15);
    assert(listed =~= added);
}

/// A color slot of sixteen formats.
impl<C, L, D, I, P0, P1, P2, P3, P4, P5, P6, P7, P8, P9, P10, P11, P12, P13, P14, P15> ColorSlot<C, L, D, I> for (P0, P1, P2, P3, P4, P5, P6, P7, P8, P9, P10, P11, P12, P13, P14, P15) where
    L: Layerable,
    D: Dimensionable,
    I: ReifyTexture<C, L, D, P0> + ReifyTexture<C, L, D, P1> + ReifyTexture<C, L, D, P2> + ReifyTexture<C, L, D, P3> + ReifyTexture<C, L, D, P4> + ReifyTexture<C, L, D, P5> + ReifyTexture<C, L, D, P6> + ReifyTexture<C, L, D, P7> + ReifyTexture<C, L, D, P8> + ReifyTexture<C, L, D, P9> + ReifyTexture<C, L, D, P10> + ReifyTexture<C, L, D, P11> + ReifyTexture<C, L, D, P12> + ReifyTexture<C, L, D, P13> + ReifyTexture<C, L, D, P14> + ReifyTexture<C, L, D, P15>,
    P0: ColorPixel + RenderablePixel,
    P1: ColorPixel + RenderablePixel,
    P2: ColorPixel + RenderablePixel,
    P3: ColorPixel + RenderablePixel,
    P4: ColorPixel + RenderablePixel,
    P5: ColorPixel + RenderablePixel,
    P6: ColorPixel + RenderablePixel,
    P7: ColorPixel + RenderablePixel,
    P8: ColorPixel + RenderablePixel,
    P9: ColorPixel + RenderablePixel,
    P10: ColorPixel + RenderablePixel,
    P11: ColorPixel + RenderablePixel,
    P12: ColorPixel + RenderablePixel,
    P13: ColorPixel + RenderablePixel,
    P14: ColorPixel + RenderablePixel,
    P15: ColorPixel + RenderablePixel,
 {
    type ColorTextures = (
        <I as ReifyTexture<C, L, D, P0>>::Texture,
        <I as ReifyTexture<C, L, D, P1>>::Texture,
        <I as ReifyTexture<C, L, D, P2>>::Texture,
        <I as ReifyTexture<C, L, D, P3>>::Texture,
        <I as ReifyTexture<C, L, D, P4>>::Texture,
        <I as ReifyTexture<C, L, D, P5>>::Texture,
        <I as ReifyTexture<C, L, D, P6>>::Texture,
        <I as ReifyTexture<C, L, D, P7>>::Texture,
        <I as ReifyTexture<C, L, D, P8>>::Texture,
        <I as ReifyTexture<C, L, D, P9>>::Texture,
        <I as ReifyTexture<C, L, D, P10>>::Texture,
        <I as ReifyTexture<C, L, D, P11>>::Texture,
        <I as ReifyTexture<C, L, D, P12>>::Texture,
        <I as ReifyTexture<C, L, D, P13>>::Texture,
        <I as ReifyTexture<C, L, D, P14>>::Texture,
        <I as ReifyTexture<C, L, D, P15>>::Texture,
    );

    open spec fn spec_color_formats() -> Seq<PixelFormat> {
        seq![
            P0::spec_pixel_format(),
            P1::spec_pixel_format(),
            P2::spec_pixel_format(),
            P3::spec_pixel_format(),
            P4::spec_pixel_format(),
            P5::spec_pixel_format(),
            P6::spec_pixel_format(),
            P7::spec_pixel_format(),
            P8::spec_pixel_format(),
            P9::spec_pixel_format(),
            P10::spec_pixel_format(),
            P11::spec_pixel_format(),
            P12::spec_pixel_format(),
            P13::spec_pixel_format(),
            P14::spec_pixel_format(),
            P15::spec_pixel_format(),
        ]
    }

    open spec fn requests_of(textures: &Self::ColorTextures) -> Seq<nat> {
        seq![
            <I as ReifyTexture<C, L, D, P0>>::request_of(&textures.0),
            <I as ReifyTexture<C, L, D, P1>>::request_of(&textures.1),
            <I as ReifyTexture<C, L, D, P2>>::request_of(&textures.2),
            <I as ReifyTexture<C, L, D, P3>>::request_of(&textures.3),
            <I as ReifyTexture<C, L, D, P4>>::request_of(&textures.4),
            <I as ReifyTexture<C, L, D, P5>>::request_of(&textures.5),
            <I as ReifyTexture<C, L, D, P6>>::request_of(&textures.6),
            <I as ReifyTexture<C, L, D, P7>>::request_of(&textures.7),
            <I as ReifyTexture<C, L, D, P8>>::request_of(&textures.8),
            <I as ReifyTexture<C, L, D, P9>>::request_of(&textures.9),
            <I as ReifyTexture<C, L, D, P10>>::request_of(&textures.10),
            <I as ReifyTexture<C, L, D, P11>>::request_of(&textures.11),
            <I as ReifyTexture<C, L, D, P12>>::request_of(&textures.12),
            <I as ReifyTexture<C, L, D, P13>>::request_of(&textures.13),
            <I as ReifyTexture<C, L, D, P14>>::request_of(&textures.14),
            <I as ReifyTexture<C, L, D, P15>>::request_of(&textures.15),
        ]
    }

    open spec fn formats_of(textures: &Self::ColorTextures) -> Seq<PixelFormat> {
        seq![
            <I as ReifyTexture<C, L, D, P0>>::format_of(&textures.0),
            <I as ReifyTexture<C, L, D, P1>>::format_of(&textures.1),
            <I as ReifyTexture<C, L, D, P2>>::format_of(&textures.2),
            <I as ReifyTexture<C, L, D, P3>>::format_of(&textures.3),
            <I as ReifyTexture<C, L, D, P4>>::format_of(&textures.4),
            <I as ReifyTexture<C, L, D, P5>>::format_of(&textures.5),
            <I as ReifyTexture<C, L, D, P6>>::format_of(&textures.6),
            <I as ReifyTexture<C, L, D, P7>>::format_of(&textures.7),
            <I as ReifyTexture<C, L, D, P8>>::format_of(&textures.8),
            <I as ReifyTexture<C, L, D, P9>>::format_of(&textures.9),
            <I as ReifyTexture<C, L, D, P10>>::format_of(&textures.10),
            <I as ReifyTexture<C, L, D, P11>>::format_of(&textures.11),
            <I as ReifyTexture<C, L, D, P12>>::format_of(&textures.12),
            <I as ReifyTexture<C, L, D, P13>>::format_of(&textures.13),
            <I as ReifyTexture<C, L, D, P14>>::format_of(&textures.14),
            <I as ReifyTexture<C, L, D, P15>>::format_of(&textures.15),
        ]
    }

    proof fn color_formats_are_renderable() {
        color_renderable::<P0>();
        color_renderable::<P1>();
        color_renderable::<P2>();
        color_renderable::<P3>();
        color_renderable::<P4>();
        color_renderable::<P5>();
        color_renderable::<P6>();
        color_renderable::<P7>();
        color_renderable::<P8>();
        color_renderable::<P9>();
        color_renderable::<P10>();
        color_renderable::<P11>();
        color_renderable::<P12>();
        color_renderable::<P13>();
        color_renderable::<P14>();
        color_renderable::<P15>();
    }

    fn color_formats() -> (formats: Vec<PixelFormat>) {
        vec![
            P0::pixel_format(),
            P1::pixel_format(),
            P2::pixel_format(),
            P3::pixel_format(),
            P4::pixel_format(),
            P5::pixel_format(),
            P6::pixel_format(),
            P7::pixel_format(),
            P8::pixel_format(),
            P9::pixel_format(),
            P10::pixel_format(),
            P11::pixel_format(),
            P12::pixel_format(),
            P13::pixel_format(),
            P14::pixel_format(),
            P15::pixel_format(),
        ]
    }

    fn reify_textures(ctx: &mut C, size: D::Size, mipmaps: usize, state: &mut I) -> (reified:
        Self::ColorTextures) {
        let t0 = <I as ReifyTexture<C, L, D, P0>>::reify_texture(ctx, size, mipmaps, state);
        let t1 = <I as ReifyTexture<C, L, D, P1>>::reify_texture(ctx, size, mipmaps, state);
        let t2 = <I as ReifyTexture<C, L, D, P2>>::reify_texture(ctx, size, mipmaps, state);
        let t3 = <I as ReifyTexture<C, L, D, P3>>::reify_texture(ctx, size, mipmaps, state);
        let t4 = <I as ReifyTexture<C, L, D, P4>>::reify_texture(ctx, size, mipmaps, state);
        let t5 = <I as ReifyTexture<C, L, D, P5>>::reify_texture(ctx, size, mipmaps, state);
        let t6 = <I as ReifyTexture<C, L, D, P6>>::reify_texture(ctx, size, mipmaps, state);
        let t7 = <I as ReifyTexture<C, L, D, P7>>::reify_texture(ctx, size, mipmaps, state);
        let t8 = <I as ReifyTexture<C, L, D, P8>>::reify_texture(ctx, size, mipmaps, state);
        let t9 = <I as ReifyTexture<C, L, D, P9>>::reify_texture(ctx, size, mipmaps, state);
        let t10 = <I as ReifyTexture<C, L, D, P10>>::reify_texture(ctx, size, mipmaps, state);
        let t11 = <I as ReifyTexture<C, L, D, P11>>::reify_texture(ctx, size, mipmaps, state);
        let t12 = <I as ReifyTexture<C, L, D, P12>>::reify_texture(ctx, size, mipmaps, state);
        let t13 = <I as ReifyTexture<C, L, D, P13>>::reify_texture(ctx, size, mipmaps, state);
        let t14 = <I as ReifyTexture<C, L, D, P14>>::reify_texture(ctx, size, mipmaps, state);
        let t15 = <I as ReifyTexture<C, L, D, P15>>::reify_texture(ctx, size, mipmaps, state);
        let reified = (t0, t1, t2, t3, t4, t5, t6, t7, t8, t9, t10, t11, t12, t13, t14, t15);
        proof {
            let before = old(state).reified();
            let asked = no_request(before, size, mipmaps);
            let asked = one_more_request(before, asked, P0::spec_pixel_format(), size, mipmaps);
            let asked = one_more_request(before, asked, P1::spec_pixel_format(), size, mipmaps);
            let asked = one_more_request(before, asked, P2::spec_pixel_format(), size, mipmaps);
            let asked = one_more_request(before, asked, P3::spec_pixel_format(), size, mipmaps);
            let asked = one_more_request(before, asked, P4::spec_pixel_format(), size, mipmaps);
            let asked = one_more_request(before, asked, P5::spec_pixel_format(), size, mipmaps);
            let asked = one_more_request(before, asked, P6::spec_pixel_format(), size, mipmaps);
            let asked = one_more_request(before, asked, P7::spec_pixel_format(), size, mipmaps);
            let asked = one_more_request(before, asked, P8::spec_pixel_format(), size, mipmaps);
            let asked = one_more_request(before, asked, P9::spec_pixel_format(), size, mipmaps);
            let asked = one_more_request(before, asked, P10::spec_pixel_format(), size, mipmaps);
            let asked = one_more_request(before, asked, P11::spec_pixel_format(), size, mipmaps);
            let asked = one_more_request(before, asked, P12::spec_pixel_format(), size, mipmaps);
            let asked = one_more_request(before, asked, P13::spec_pixel_format(), size, mipmaps);
            let asked = one_more_request(before, asked, P14::spec_pixel_format(), size, mipmaps);
            let asked = one_more_request(before, asked, P15::spec_pixel_format(), size, mipmaps);
            list_of_sixteen(
                P0::spec_pixel_format(),
                P1::spec_pixel_format(),
                P2::spec_pixel_format(),
                P3::spec_pixel_format(),
                P4::spec_pixel_format(),
                P5::spec_pixel_format(),
                P6::spec_pixel_format(),
                P7::spec_pixel_format(),
                P8::spec_pixel_format(),
                P9::spec_pixel_format(),
                P10::spec_pixel_format(),
                P11::spec_pixel_format(),
                P12::spec_pixel_format(),
                P13::spec_pixel_format(),
                P14::spec_pixel_format(),
                P15::spec_pixel_format(),
            );
            list_of_sixteen(
                <I as ReifyTexture<C, L, D, P0>>::format_of(&reified.0),
                <I as ReifyTexture<C, L, D, P1>>::format_of(&reified.1),
                <I as ReifyTexture<C, L, D, P2>>::format_of(&reified.2),
                <I as ReifyTexture<C, L, D, P3>>::format_of(&reified.3),
                <I as ReifyTexture<C, L, D, P4>>::format_of(&reified.4),
                <I as ReifyTexture<C, L, D, P5>>::format_of(&reified.5),
                <I as ReifyTexture<C, L, D, P6>>::format_of(&reified.6),
                <I as ReifyTexture<C, L, D, P7>>::format_of(&reified.7),
                <I as ReifyTexture<C, L, D, P8>>::format_of(&reified.8),
                <I as ReifyTexture<C, L, D, P9>>::format_of(&reified.9),
                <I as ReifyTexture<C, L, D, P10>>::format_of(&reified.10),
                <I as ReifyTexture<C, L, D, P11>>::format_of(&reified.11),
                <I as ReifyTexture<C, L, D, P12>>::format_of(&reified.12),
                <I as ReifyTexture<C, L, D, P13>>::format_of(&reified.13),
                <I as ReifyTexture<C, L, D, P14>>::format_of(&reified.14),
                <I as ReifyTexture<C, L, D, P15>>::format_of(&reified.15),
            );
            list_of_sixteen(
                <I as ReifyTexture<C, L, D, P0>>::request_of(&reified.0),
                <I as ReifyTexture<C, L, D, P1>>::request_of(&reified.1),
                <I as ReifyTexture<C, L, D, P2>>::request_of(&reified.2),
                <I as ReifyTexture<C, L, D, P3>>::request_of(&reified.3),
                <I as ReifyTexture<C, L, D, P4>>::request_of(&reified.4),
                <I as ReifyTexture<C, L, D, P5>>::request_of(&reified.5),
                <I as ReifyTexture<C, L, D, P6>>::request_of(&reified.6),
                <I as ReifyTexture<C, L, D, P7>>::request_of(&reified.7),
                <I as ReifyTexture<C, L, D, P8>>::request_of(&reified.8),
                <I as ReifyTexture<C, L, D, P9>>::request_of(&reified.9),
                <I as ReifyTexture<C, L, D, P10>>::request_of(&reified.10),
                <I as ReifyTexture<C, L, D, P11>>::request_of(&reified.11),
                <I as ReifyTexture<C, L, D, P12>>::request_of(&reified.12),
                <I as ReifyTexture<C, L, D, P13>>::request_of(&reified.13),
                <I as ReifyTexture<C, L, D, P14>>::request_of(&reified.14),
                <I as ReifyTexture<C, L, D, P15>>::request_of(&reified.15),
            );
        }
        reified
    }
}

} // verus!
