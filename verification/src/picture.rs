//! A decoded picture held as plain values: its size, how its samples are laid
//! out, and the samples themselves.

use vstd::prelude::*;

verus! {

/// How the 8-bit samples of a picture are grouped into pixels.
#[derive(Clone, Copy, Debug, PartialEq, Eq, Structural)]
pub enum PixelLayout {
    /// One sample per pixel: its brightness.
    Luma,
    /// Four samples per pixel: red, green, blue, alpha.
    Rgba,
}

impl PixelLayout {
    /// The number of samples that make one pixel.
    pub open spec fn channel_count(self) -> nat {
        match self {
            PixelLayout::Luma => 1,
            PixelLayout::Rgba => 4,
        }
    }

    /// The number of samples that make one pixel.
    pub fn channels(self) -> (n: usize)
        ensures
            n == self.channel_count(),
    {
        match self {
            PixelLayout::Luma => 1,
            PixelLayout::Rgba => 4,
        }
    }
}

/// The mathematical value of a picture.
pub struct PictureView {
    pub width: nat,
    pub height: nat,
    pub layout: PixelLayout,
    pub samples: Seq<u8>,
}

impl PictureView {
    /// The number of pixels.
    pub open spec fn pixel_count(self) -> nat {
        self.width * self.height
    }

    /// The number of samples that the pixels take together.
    pub open spec fn sample_count(self) -> nat {
        match self.layout {
            PixelLayout::Luma => self.pixel_count(),
            PixelLayout::Rgba => 4 * self.pixel_count(),
        }
    }

    /// There is exactly one group of samples for each pixel.
    pub open spec fn wf(self) -> bool {
        self.samples.len() == self.sample_count()
    }

    /// Red, green, blue and alpha of pixel `i`. A brightness stands for all
    /// three colours, and a pixel without alpha is opaque.
    pub open spec fn rgba(self, i: int) -> (u8, u8, u8, u8) {
        match self.layout {
            PixelLayout::Luma => (self.samples[i], self.samples[i], self.samples[i], 255u8),
            PixelLayout::Rgba => (
                self.samples[4 * i],
                self.samples[4 * i + 1],
                self.samples[4 * i + 2],
                self.samples[4 * i + 3],
            ),
        }
    }

    /// The samples of the picture as red, green, blue, alpha, pixel by pixel.
    pub open spec fn rgba_samples(self) -> Seq<u8> {
        Seq::new(
            4 * self.pixel_count(),
            |k: int|
                if k % 4 == 0 {
                    self.rgba(k / 4).0
                } else if k % 4 == 1 {
                    self.rgba(k / 4).1
                } else if k % 4 == 2 {
                    self.rgba(k / 4).2
                } else {
                    self.rgba(k / 4).3
                },
        )
    }
}

/// A decoded picture. Every value of this type holds exactly one group of
/// samples for each of its `width * height` pixels, row by row.
pub struct Picture {
    width: u32,
    height: u32,
    layout: PixelLayout,
    samples: Vec<u8>,
}

impl View for Picture {
    type V = PictureView;

    closed spec fn view(&self) -> PictureView {
        PictureView {
            width: self.width as nat,
            height: self.height as nat,
            layout: self.layout,
            samples: self.samples@,
        }
    }
}

impl Picture {
    #[verifier::type_invariant]
    spec fn well_formed(self) -> bool {
        self@.wf()
    }

    /// Builds a picture from its parts. The parts make a picture exactly
    /// when there is one group of samples for each pixel; anything else is
    /// turned down.
    pub fn from_raw(width: u32, height: u32, layout: PixelLayout, samples: Vec<u8>) -> (out: Option<
        Picture,
    >)
        ensures
            out is Some <==> (PictureView {
                width: width as nat,
                height: height as nat,
                layout,
                samples: samples@,
            }).wf(),
            out matches Some(p) ==> p@ == (PictureView {
                width: width as nat,
                height: height as nat,
                layout,
                samples: samples@,
            }),
    {
        assert((width as u128) * (height as u128) <= 0xFFFF_FFFF * 0xFFFF_FFFF) by (nonlinear_arith)
            requires
                width <= 0xFFFF_FFFF,
                height <= 0xFFFF_FFFF,
        ;
        let pixels: u128 = (width as u128) * (height as u128);
        let wanted: u128 = match layout {
            PixelLayout::Luma => pixels,
            PixelLayout::Rgba => 4 * pixels,
        };
        if samples.len() as u128 == wanted {
            Some(Picture { width, height, layout, samples })
        } else {
            None
        }
    }

    /// The number of pixels in a row.
    pub fn width(&self) -> (w: u32)
        ensures
            w == self@.width,
    {
        self.width
    }

    /// The number of rows.
    pub fn height(&self) -> (h: u32)
        ensures
            h == self@.height,
    {
        self.height
    }

    /// How the samples are grouped into pixels.
    pub fn layout(&self) -> (l: PixelLayout)
        ensures
            l == self@.layout,
    {
        self.layout
    }

    /// The samples, row by row.
    pub fn samples(&self) -> (s: &Vec<u8>)
        ensures
            s@ == self@.samples,
            self@.wf(),
    {
        proof {
            use_type_invariant(self);
        }
        &self.samples
    }

    /// The number of pixels.
    pub fn pixel_count(&self) -> (n: usize)
        ensures
            n == self@.pixel_count(),
            self@.wf(),
    {
        proof {
            use_type_invariant(self);
        }
        self.samples.len() / self.layout.channels()
    }

    /// The picture as the samples a display wants: red, green, blue and
    /// alpha of each pixel, row by row.
    pub fn to_rgba8(&self) -> (out: Vec<u8>)
        ensures
            out@ == self@.rgba_samples(),
    {
        proof {
            use_type_invariant(self);
        }
        match self.layout {
            PixelLayout::Rgba => {
                let n: usize = self.samples.len();
                let mut out: Vec<u8> = Vec::with_capacity(n);
                let mut k: usize = 0;
                while k < n
                    invariant
                        self.layout == PixelLayout::Rgba,
                        self@.wf(),
                        n == self.samples@.len(),
                        k <= n,
                        out@ == self.samples@.take(k as int),
                    decreases n - k,
                {
                    out.push(self.samples[k]);
                    k += 1;
                }
                assert forall|j: int| 0 <= j < n implies out@[j] == self@.rgba_samples()[j] by {
                    assert(j == 4 * (j / 4) + j % 4);
                }
                assert(out@ =~= self@.rgba_samples());
                out
            },
            PixelLayout::Luma => {
                let n: usize = self.samples.len();
                let mut out: Vec<u8> = Vec::new();
                let mut i: usize = 0;
                while i < n
                    invariant
                        self.layout == PixelLayout::Luma,
                        self@.wf(),
                        n == self.samples@.len(),
                        i <= n,
                        out@.len() == 4 * i,
                        forall|k: int| 0 <= k < 4 * i ==> out@[k] == self@.rgba_samples()[k],
                    decreases n - i,
                {
                    let l: u8 = self.samples[i];
                    out.push(l);
                    out.push(l);
                    out.push(l);
                    out.push(255u8);
                    i += 1;
                }
                assert(out@ =~= self@.rgba_samples());
                out
            },
        }
    }
}

impl Clone for Picture {
    /// A copy of this picture, sample for sample.
    fn clone(&self) -> (copy: Picture)
        ensures
            copy@ == self@,
    {
        proof {
            use_type_invariant(self);
        }
        let n: usize = self.samples.len();
        let mut samples: Vec<u8> = Vec::with_capacity(n);
        let mut i: usize = 0;
        while i < n
            invariant
                n == self.samples@.len(),
                i <= n,
                samples@ == self.samples@.take(i as int),
            decreases n - i,
        {
            samples.push(self.samples[i]);
            i += 1;
        }
        assert(samples@ == self.samples@);
        Picture { width: self.width, height: self.height, layout: self.layout, samples }
    }
}

} // verus!
