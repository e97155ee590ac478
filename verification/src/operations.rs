//! The two transforms that can be previewed on a picture: turning it to
//! shades of grey, and inverting a grey picture.

use crate::picture::{Picture, PictureView, PixelLayout};
use vstd::prelude::*;

verus! {

/// The weight of red in a brightness, in units of 2^-27: the
/// single-precision number nearest to 0.3.
pub const RED_WEIGHT: u64 = 40265320;

/// The weight of green, in units of 2^-27: the single-precision number
/// nearest to 0.59.
pub const GREEN_WEIGHT: u64 = 79188456;

/// The weight of blue, in units of 2^-27: the single-precision number
/// nearest to 0.11.
pub const BLUE_WEIGHT: u64 = 14763950;

/// The number one, in units of 2^-27.
pub const UNIT: u64 = 134217728;

/// The distance between neighbouring single-precision numbers around `n`.
/// Numbers below 2^24 units are all representable; from there on the
/// distance doubles with each further bit.
pub open spec fn spacing(n: nat) -> nat
    decreases n,
{
    if n < 0x100_0000 {
        1
    } else {
        2 * spacing(n / 2)
    }
}

/// The single-precision number nearest to `n`, where a tie goes to the
/// neighbour whose last digit is even. All in units of 2^-27.
pub open spec fn to_single(n: nat) -> nat {
    let step = spacing(n);
    let below = n / step;
    let rest = n % step;
    if 2 * rest > step || (2 * rest == step && below % 2 == 1) {
        (below + 1) * step
    } else {
        below * step
    }
}

/// The brightness of a colour: its red, green and blue weighted by 0.3,
/// 0.59 and 0.11 and added up in single precision, each product and each
/// sum rounded on the way, and the total rounded to the nearest whole
/// number, a half going up.
pub open spec fn luma(r: u8, g: u8, b: u8) -> u8 {
    let red = to_single(RED_WEIGHT as nat * r as nat);
    let green = to_single(GREEN_WEIGHT as nat * g as nat);
    let blue = to_single(BLUE_WEIGHT as nat * b as nat);
    let total = to_single(to_single(red + green) + blue);
    ((total + UNIT as nat / 2) / UNIT as nat) as u8
}

/// The brightness of each pixel of `p`, row by row.
pub open spec fn grey_samples(p: PictureView) -> Seq<u8> {
    Seq::new(p.pixel_count(), |i: int| luma(p.rgba(i).0, p.rgba(i).1, p.rgba(i).2))
}

/// The picture `p` in shades of grey: the same size, one brightness per
/// pixel.
pub open spec fn grayscale_spec(p: PictureView) -> PictureView {
    PictureView {
        width: p.width,
        height: p.height,
        layout: PixelLayout::Luma,
        samples: grey_samples(p),
    }
}

/// Each sample taken from 255.
pub open spec fn inverted_samples(samples: Seq<u8>) -> Seq<u8> {
    Seq::new(samples.len(), |i: int| (255 - samples[i]) as u8)
}

/// The negative of `p`. Only a grey picture has one.
pub open spec fn invert_spec(p: PictureView) -> Option<PictureView> {
    match p.layout {
        PixelLayout::Luma => Some(
            PictureView {
                width: p.width,
                height: p.height,
                layout: PixelLayout::Luma,
                samples: inverted_samples(p.samples),
            },
        ),
        PixelLayout::Rgba => None,
    }
}

/// The distance between neighbouring single-precision numbers around `n`
/// is one below 2^24 units, and from there on at most `n / 2^23`.
pub proof fn lemma_spacing_bound(n: nat)
    ensures
        1 <= spacing(n),
        n < 0x100_0000 ==> spacing(n) == 1,
        n >= 0x100_0000 ==> spacing(n) * 0x80_0000 <= n,
    decreases n,
{
    if n >= 0x100_0000 {
        lemma_spacing_bound(n / 2);
    }
}

/// Rounding to single precision moves a number by at most one part in
/// 2^24, up or down.
pub proof fn lemma_to_single_near(n: nat)
    ensures
        (to_single(n) - n) * 0x100_0000 <= n,
        (n - to_single(n)) * 0x100_0000 <= n,
{
    let step = spacing(n);
    let below = n / step;
    let rest = n % step;
    lemma_spacing_bound(n);
    vstd::arithmetic::div_mod::lemma_fundamental_div_mod(n as int, step as int);
    assert(below * step == n - rest) by (nonlinear_arith)
        requires
            n == step * below + rest,
    ;
    assert((below + 1) * step == n - rest + step) by (nonlinear_arith)
        requires
            below * step == n - rest,
    ;
}

/// The brightness of a colour is a whole number nearest to 0.3 of its red,
/// 0.59 of its green and 0.11 of its blue: a hundred times the brightness
/// is within fifty of `30 r + 59 g + 11 b`.
pub proof fn lemma_luma_is_nearest(r: u8, g: u8, b: u8)
    ensures
        -50 <= 100 * luma(r, g, b) - (30 * r + 59 * g + 11 * b) <= 50,
{
    let exact_red = RED_WEIGHT as nat * r as nat;
    let exact_green = GREEN_WEIGHT as nat * g as nat;
    let exact_blue = BLUE_WEIGHT as nat * b as nat;
    let red = to_single(exact_red);
    let green = to_single(exact_green);
    let blue = to_single(exact_blue);
    let first = to_single(red + green);
    let total = to_single(first + blue);
    lemma_to_single_near(exact_red);
    lemma_to_single_near(exact_green);
    lemma_to_single_near(exact_blue);
    lemma_to_single_near(red + green);
    lemma_to_single_near(first + blue);
    let whole = (total + UNIT as nat / 2) / UNIT as nat;
    assert(whole * 134217728 <= total + 67108864 < (whole + 1) * 134217728);
    assert(whole <= 255);
}

/// A colour whose red, green and blue agree has that number as its
/// brightness.
pub proof fn lemma_luma_of_grey(v: u8)
    ensures
        luma(v, v, v) == v,
{
    lemma_luma_is_nearest(v, v, v);
}

/// Turning a grey picture to grey gives the picture back, so turning any
/// picture to grey twice is turning it once.
pub proof fn lemma_grayscale_twice(p: PictureView)
    ensures
        p.wf() && p.layout == PixelLayout::Luma ==> grayscale_spec(p) == p,
        grayscale_spec(grayscale_spec(p)) == grayscale_spec(p),
{
    if p.wf() && p.layout == PixelLayout::Luma {
        assert forall|i: int| 0 <= i < p.samples.len() implies grey_samples(p)[i]
            == p.samples[i] by {
            lemma_luma_of_grey(p.samples[i]);
        }
        assert(grey_samples(p) =~= p.samples);
    }
    let once = grayscale_spec(p);
    assert forall|i: int| 0 <= i < once.samples.len() implies grey_samples(once)[i]
        == once.samples[i] by {
        lemma_luma_of_grey(once.samples[i]);
    }
    assert(grey_samples(once) =~= once.samples);
}

fn spacing_of(n: u64) -> (step: u64)
    requires
        n < 0x100_0000_0000,
    ensures
        step == spacing(n as nat),
        1 <= step,
        n >= 0x100_0000 ==> step * 0x80_0000 <= n,
        n < 0x100_0000 ==> step == 1,
    decreases n,
{
    if n < 0x100_0000 {
        1
    } else {
        let half: u64 = spacing_of(n / 2);
        2 * half
    }
}

fn round_to_single(n: u64) -> (rounded: u64)
    requires
        n < 0x100_0000_0000,
    ensures
        rounded == to_single(n as nat),
        (rounded - n) * 0x100_0000 <= n,
{
    let step: u64 = spacing_of(n);
    let below: u64 = n / step;
    let rest: u64 = n % step;
    proof {
        vstd::arithmetic::div_mod::lemma_fundamental_div_mod(n as int, step as int);
        assert(below * step == n - rest) by (nonlinear_arith)
            requires
                n == step * below + rest,
        ;
        assert((below + 1) * step == n - rest + step) by (nonlinear_arith)
            requires
                below * step == n - rest,
        ;
    }
    if 2 * rest > step || (2 * rest == step && below % 2 == 1) {
        (below + 1) * step
    } else {
        below * step
    }
}

fn brightness(r: u8, g: u8, b: u8) -> (l: u8)
    ensures
        l == luma(r, g, b),
{
    let red: u64 = round_to_single(RED_WEIGHT * (r as u64));
    let green: u64 = round_to_single(GREEN_WEIGHT * (g as u64));
    let blue: u64 = round_to_single(BLUE_WEIGHT * (b as u64));
    let total: u64 = round_to_single(round_to_single(red + green) + blue);
    let whole: u64 = (total + UNIT / 2) / UNIT;
    if whole > 255 {
        255
    } else {
        whole as u8
    }
}

/// Turns a picture to shades of grey: the result has the size of `image` and
/// holds the brightness of each of its pixels. A picture that is grey
/// already is read as a colour picture whose three colours agree.
pub fn grayscale(image: &Picture) -> (out: Option<Picture>)
    ensures
        out matches Some(grey) && grey@ == grayscale_spec(image@),
{
    let n: usize = image.pixel_count();
    let samples = image.samples();
    let total: usize = samples.len();
    let layout = image.layout();
    let mut buf: Vec<u8> = Vec::with_capacity(n);
    let mut i: usize = 0;
    while i < n
        invariant
            image@.wf(),
            n == image@.pixel_count(),
            samples@ == image@.samples,
            layout == image@.layout,
            total == samples@.len(),
            layout == PixelLayout::Luma ==> total == n,
            layout == PixelLayout::Rgba ==> total == 4 * n,
            i <= n,
            buf@ == grey_samples(image@).take(i as int),
        decreases n - i,
    {
        let l: u8 = match layout {
            PixelLayout::Luma => {
                let v: u8 = samples[i];
                brightness(v, v, v)
            },
            PixelLayout::Rgba => brightness(samples[4 * i], samples[4 * i + 1], samples[4 * i + 2]),
        };
        buf.push(l);
        i += 1;
        assert(buf@ =~= grey_samples(image@).take(i as int));
    }
    assert(buf@ == grey_samples(image@));
    Picture::from_raw(image.width(), image.height(), PixelLayout::Luma, buf)
}

/// Inverts a grey picture: each brightness is taken from 255. A picture
/// that is not grey is declined.
pub fn invert(image: &Picture) -> (out: Option<Picture>)
    ensures
        match out {
            Some(negative) => invert_spec(image@) == Some(negative@),
            None => invert_spec(image@) is None,
        },
{
    match image.layout() {
        PixelLayout::Luma => {
            let samples = image.samples();
            let n: usize = samples.len();
            let mut buf: Vec<u8> = Vec::with_capacity(n);
            let mut i: usize = 0;
            while i < n
                invariant
                    n == samples@.len(),
                    i <= n,
                    buf@ == inverted_samples(samples@).take(i as int),
                decreases n - i,
            {
                buf.push(255u8 - samples[i]);
                i += 1;
                assert(buf@ =~= inverted_samples(samples@).take(i as int));
            }
            assert(buf@ == inverted_samples(samples@));
            Picture::from_raw(image.width(), image.height(), PixelLayout::Luma, buf)
        },
        PixelLayout::Rgba => None,
    }
}

/// Inverting a grey picture twice gives the picture back, pixel for pixel.
pub proof fn lemma_invert_twice(p: PictureView)
    requires
        p.layout == PixelLayout::Luma,
    ensures
        invert_spec(p) matches Some(once) && invert_spec(once) == Some(p),
{
    let once = invert_spec(p)->0;
    assert(inverted_samples(once.samples) =~= p.samples);
}

/// Inverting keeps the size of a picture and the number of its samples.
pub proof fn lemma_invert_keeps_shape(p: PictureView)
    requires
        p.wf(),
        p.layout == PixelLayout::Luma,
    ensures
        invert_spec(p) matches Some(n) && n.wf() && n.width == p.width && n.height == p.height,
{
}

/// Turning to grey keeps the size of a picture, and the result is grey.
pub proof fn lemma_grayscale_shape(p: PictureView)
    ensures
        grayscale_spec(p).wf(),
        grayscale_spec(p).layout == PixelLayout::Luma,
        grayscale_spec(p).width == p.width,
        grayscale_spec(p).height == p.height,
{
}

} // verus!
