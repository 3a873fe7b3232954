//! The rendered frame: a `width x height` grid of 8-bit RGB pixels, stored
//! row-major with three samples per pixel in an `image::RgbImage`.
use vstd::prelude::*;

verus! {

/// An RGB image of the `image` crate. Verus cannot take the declaration of
/// `image::ImageBuffer` (its `Pixel` bound), so the buffer is held here and
/// seen only through `frame_samples` and `frame_dims`.
#[verifier::external_body]
pub struct Frame {
    img: image::RgbImage,
}

/// The samples of a frame: row-major, three (red, green, blue) per pixel.
pub uninterp spec fn frame_samples(f: Frame) -> Seq<u8>;

/// The width and height that a frame was made with.
pub uninterp spec fn frame_dims(f: Frame) -> (nat, nat);

/// Position of channel `c` of pixel `(x, y)` among the samples of a frame of
/// the given width.
pub open spec fn sample_index(width: nat, x: nat, y: nat, c: nat) -> int {
    (3 * (y * width + x) + c) as int
}

/// Number of samples that a `width x height` frame holds.
pub open spec fn sample_count(width: nat, height: nat) -> nat {
    3 * width * height
}

impl Frame {
    pub open spec fn width_spec(&self) -> nat {
        frame_dims(*self).0
    }

    pub open spec fn height_spec(&self) -> nat {
        frame_dims(*self).1
    }

    /// The samples hold exactly the pixels of the grid, and fit in memory.
    pub open spec fn wf(&self) -> bool {
        &&& frame_samples(*self).len() == sample_count(self.width_spec(), self.height_spec())
        &&& sample_count(self.width_spec(), self.height_spec()) <= usize::MAX
        &&& self.width_spec() <= u32::MAX
        &&& self.height_spec() <= u32::MAX
    }

    /// Relies on image::ImageBuffer::new: a buffer of `3 * width * height`
    /// samples, all zero (black); it panics when that count overflows usize.
    #[verifier::external_body]
    fn blank(width: u32, height: u32) -> (r: Frame)
        requires
            sample_count(width as nat, height as nat) <= usize::MAX,
        ensures
            frame_dims(r) == (width as nat, height as nat),
            frame_samples(r) == Seq::new(sample_count(width as nat, height as nat), |i: int| 0u8),
    {
        Frame { img: image::RgbImage::new(width, height) }
    }

    /// Relies on image::ImageBuffer::put_pixel: the three samples of pixel
    /// `(x, y)`, at `3 * (y * width + x)`, become `rgb`; it panics out of bounds.
    #[verifier::external_body]
    fn put(&mut self, x: u32, y: u32, rgb: [u8; 3])
        requires
            x < old(self).width_spec(),
            y < old(self).height_spec(),
        ensures
            frame_dims(*final(self)) == frame_dims(*old(self)),
            frame_samples(*final(self)) == frame_samples(*old(self)).update(
                sample_index(old(self).width_spec(), x as nat, y as nat, 0),
                rgb[0],
            ).update(sample_index(old(self).width_spec(), x as nat, y as nat, 1), rgb[1]).update(
                sample_index(old(self).width_spec(), x as nat, y as nat, 2),
                rgb[2],
            ),
    {
        self.img.put_pixel(x, y, image::Rgb(rgb))
    }

    /// Relies on image::ImageBuffer::get_pixel: the three samples of pixel
    /// `(x, y)`; it panics out of bounds.
    #[verifier::external_body]
    fn get(&self, x: u32, y: u32) -> (r: [u8; 3])
        requires
            x < self.width_spec(),
            y < self.height_spec(),
        ensures
            forall|c: int|
                0 <= c < 3 ==> #[trigger] r[c] == frame_samples(*self)[sample_index(
                    self.width_spec(),
                    x as nat,
                    y as nat,
                    c as nat,
                )],
    {
        self.img.get_pixel(x, y).0
    }

    /// Relies on image::ImageBuffer::as_raw: the samples of the frame.
    #[verifier::external_body]
    fn raw(&self) -> (r: Vec<u8>)
        ensures
            r@ == frame_samples(*self),
    {
        self.img.as_raw().clone()
    }

    /// Relies on image::ImageBuffer::dimensions: the width and height.
    #[verifier::external_body]
    fn dims(&self) -> (r: (u32, u32))
        ensures
            r.0 as nat == self.width_spec(),
            r.1 as nat == self.height_spec(),
    {
        self.img.dimensions()
    }
    /// The frame holds `pixels`, listed row-major (row 0 is the top row).
    pub open spec fn holds(&self, pixels: Seq<[u8; 3]>) -> bool {
        &&& pixels.len() == self.width_spec() * self.height_spec()
        &&& forall|i: int, c: int|
            0 <= i < pixels.len() && 0 <= c < 3 ==> #[trigger] frame_samples(*self)[3 * i + c]
                == #[trigger] pixels[i][c]
    }

    /// A `width x height` frame whose pixels are `pixels`, row-major.
    pub fn from_pixels(width: u32, height: u32, pixels: &Vec<[u8; 3]>) -> (r: Frame)
        requires
            pixels@.len() == width * height,
            sample_count(width as nat, height as nat) <= usize::MAX,
        ensures
            r.wf(),
            frame_dims(r) == (width as nat, height as nat),
            r.holds(pixels@),
    {
        let mut frame = Frame::blank(width, height);
        let ghost w = width as nat;
        let ghost h = height as nat;
        let mut k: usize = 0;
        let mut y: u32 = 0;
        while y < height
            invariant
                w == width as nat,
                h == height as nat,
                frame.wf(),
                frame_dims(frame) == (w, h),
                pixels@.len() == w * h,
                y <= h,
                k == y * w,
                forall|i: int, c: int|
                    0 <= i < k && 0 <= c < 3 ==> #[trigger] frame_samples(frame)[3 * i + c]
                        == #[trigger] pixels@[i][c],
            decreases h - y,
        {
            assert(k + w <= w * h) by (nonlinear_arith)
                requires
                    k == y * w,
                    y < h,
            ;
            let mut x: u32 = 0;
            while x < width
                invariant
                    w == width as nat,
                    h == height as nat,
                    frame.wf(),
                    frame_dims(frame) == (w, h),
                    pixels@.len() == w * h,
                    y < h,
                    x <= w,
                    k == y * w + x,
                    k <= w * h,
                    y * w + w <= w * h,
                    forall|i: int, c: int|
                        0 <= i < k && 0 <= c < 3 ==> #[trigger] frame_samples(frame)[3 * i + c]
                            == #[trigger] pixels@[i][c],
                decreases w - x,
            {
                assert(k < w * h);
                assert(3 * k + 2 < sample_count(w, h)) by (nonlinear_arith)
                    requires
                        k < w * h,
                ;
                let rgb = pixels[k];
                let ghost before = frame_samples(frame);
                frame.put(x, y, rgb);
                assert(sample_index(w, x as nat, y as nat, 0) == 3 * k);
                assert(frame_samples(frame).len() == before.len());
                assert forall|i: int, c: int|
                    0 <= i < k + 1 && 0 <= c < 3 implies #[trigger] frame_samples(frame)[3 * i
                    + c] == #[trigger] pixels@[i][c] by {
                    assert(3 * i + c < 3 * k + 3);
                    if i < k {
                        assert(before[3 * i + c] == pixels@[i][c]);
                    }
                }
                x = x + 1;
                k = k + 1;
            }
            assert(k == (y + 1) * w) by (nonlinear_arith)
                requires
                    k == y * w + w,
            ;
            y = y + 1;
        }
        assert(k == pixels@.len()) by (nonlinear_arith)
            requires
                k == y * w,
                y == h,
                pixels@.len() == w * h,
        ;
        frame
    }

    /// The frame's width in pixels.
    pub fn width(&self) -> (r: u32)
        requires
            self.wf(),
        ensures
            r as nat == self.width_spec(),
    {
        self.dims().0
    }

    /// The frame's height in pixels.
    pub fn height(&self) -> (r: u32)
        requires
            self.wf(),
        ensures
            r as nat == self.height_spec(),
    {
        self.dims().1
    }

    /// The color of pixel `(x, y)`, column `x` of row `y` (row 0 on top).
    pub fn pixel(&self, x: u32, y: u32) -> (r: [u8; 3])
        requires
            self.wf(),
            x < self.width_spec(),
            y < self.height_spec(),
        ensures
            forall|c: int|
                0 <= c < 3 ==> #[trigger] r[c] == frame_samples(*self)[sample_index(
                    self.width_spec(),
                    x as nat,
                    y as nat,
                    c as nat,
                )],
    {
        self.get(x, y)
    }

    /// The samples of the frame, row-major, three per pixel.
    pub fn to_bytes(&self) -> (r: Vec<u8>)
        requires
            self.wf(),
        ensures
            r@ == frame_samples(*self),
            r@.len() == sample_count(self.width_spec(), self.height_spec()),
    {
        self.raw()
    }
}

/// Reading back a frame filled from row-major pixels gives, at `(x, y)`,
/// the pixel listed at `y * width + x`.
pub proof fn lemma_frame_pixel(f: Frame, pixels: Seq<[u8; 3]>, x: nat, y: nat, c: nat)
    requires
        f.holds(pixels),
        x < f.width_spec(),
        y < f.height_spec(),
        c < 3,
    ensures
        frame_samples(f)[sample_index(f.width_spec(), x, y, c)] == pixels[(y * f.width_spec()
            + x) as int][c as int],
{
    let w = f.width_spec();
    let h = f.height_spec();
    assert(y * w + x < w * h) by (nonlinear_arith)
        requires
            x < w,
            y < h,
    ;
    let i = (y * w + x) as int;
    assert(frame_samples(f)[3 * i + c] == pixels[i][c as int]);
}

} // verus!
