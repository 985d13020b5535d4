//! Full-display frames, the regions a user selects in them, and the
//! single-slot handoff that carries a frame from the grab to the crop.

use vstd::prelude::*;

verus! {

/// A rectangle as the selection overlay reports it. Coordinates are signed
/// so that a selection dragged past the top or left edge is still
/// representable, and is then rejected rather than silently moved.
#[derive(Clone, Copy, Debug, PartialEq, Eq, Structural)]
pub struct Rect {
    pub x: i64,
    pub y: i64,
    pub width: i64,
    pub height: i64,
}

impl Rect {
    /// The rectangle lies wholly inside an image of the given size.
    pub open spec fn within(self, frame_width: int, frame_height: int) -> bool {
        &&& 0 <= self.x
        &&& 0 <= self.y
        &&& 0 <= self.width
        &&& 0 <= self.height
        &&& self.x + self.width <= frame_width
        &&& self.y + self.height <= frame_height
    }

    /// Decides `within` for a concrete image size.
    pub fn fits(&self, frame_width: u32, frame_height: u32) -> (inside: bool)
        ensures
            inside == self.within(frame_width as int, frame_height as int),
    {
        self.x >= 0 && self.y >= 0 && self.width >= 0 && self.height >= 0
            && self.x <= frame_width as i64 && self.width <= frame_width as i64 - self.x
            && self.y <= frame_height as i64 && self.height <= frame_height as i64 - self.y
    }
}

/// The selected rectangle reaches outside the frame.
#[derive(Clone, Copy, Debug, PartialEq, Eq, Structural)]
pub struct CropOutOfBounds;

/// The handoff slot held no frame.
#[derive(Clone, Copy, Debug, PartialEq, Eq, Structural)]
pub struct EmptyHandoff;

/// Mathematical content of a frame: its size and its samples in row-major
/// order, four per pixel.
pub struct FrameView {
    pub width: nat,
    pub height: nat,
    pub pixels: Seq<u8>,
}

/// The sample of channel `channel` of the pixel in column `col` and row `row`
/// of an image `width` pixels wide.
pub open spec fn sample(pixels: Seq<u8>, width: int, col: int, row: int, channel: int) -> u8 {
    pixels[(row * width + col) * 4 + channel]
}

impl FrameView {
    /// The buffer holds exactly one sample per channel and pixel.
    pub open spec fn well_formed(self) -> bool {
        self.pixels.len() == self.width * self.height * 4
    }

    /// `self` shows the part of `source` that `rect` selects.
    pub open spec fn is_crop_of(self, source: FrameView, rect: Rect) -> bool {
        &&& self.width == rect.width
        &&& self.height == rect.height
        &&& self.well_formed()
        &&& forall|col: int, row: int, channel: int|
            0 <= col < rect.width && 0 <= row < rect.height && 0 <= channel < 4 ==> #[trigger] sample(
                self.pixels,
                rect.width as int,
                col,
                row,
                channel,
            ) == sample(source.pixels, source.width as int, rect.x + col, rect.y + row, channel)
    }
}

/// The part of `source` that `rect` selects, as an image of its own.
pub open spec fn crop_of(source: FrameView, rect: Rect) -> FrameView {
    FrameView {
        width: rect.width as nat,
        height: rect.height as nat,
        pixels: Seq::new(
            (rect.width * rect.height * 4) as nat,
            |k: int|
                sample(
                    source.pixels,
                    source.width as int,
                    rect.x + (k / 4) % (rect.width as int),
                    rect.y + (k / 4) / (rect.width as int),
                    k % 4,
                ),
        ),
    }
}

/// Sample `k` of an image `width` pixels wide belongs to the pixel in column
/// `(k / 4) % width` and row `(k / 4) / width`, which lies inside an image of
/// `height` rows.
proof fn lemma_sample_position(k: int, width: int, height: int)
    requires
        0 <= width,
        0 <= height,
        0 <= k < width * height * 4,
    ensures
        0 < width,
        0 <= (k / 4) % width < width,
        0 <= (k / 4) / width < height,
        0 <= k % 4 < 4,
        (((k / 4) / width) * width + (k / 4) % width) * 4 + k % 4 == k,
{
    assert(0 < width) by (nonlinear_arith)
        requires
            0 <= width,
            0 <= k < width * height * 4,
    ;
    let q = k / 4;
    assert(0 <= q < width * height);
    vstd::arithmetic::div_mod::lemma_fundamental_div_mod(q, width);
    vstd::arithmetic::div_mod::lemma_mod_bound(q, width);
    assert(0 <= q / width < height) by (nonlinear_arith)
        requires
            0 < width,
            0 <= q < width * height,
            q == width * (q / width) + q % width,
            0 <= q % width < width,
    ;
    assert((q / width) * width == width * (q / width)) by (nonlinear_arith);
}

/// An image that shows the selected part of another is the crop of it.
pub proof fn lemma_crop_is_determined(region: FrameView, source: FrameView, rect: Rect)
    requires
        0 <= rect.width,
        0 <= rect.height,
        region.is_crop_of(source, rect),
    ensures
        region == crop_of(source, rect),
{
    let expected = crop_of(source, rect);
    assert(region.pixels.len() == expected.pixels.len());
    assert forall|k: int| 0 <= k < region.pixels.len() implies region.pixels[k] == expected.pixels[k] by {
        lemma_sample_position(k, rect.width as int, rect.height as int);
        let col = (k / 4) % (rect.width as int);
        let row = (k / 4) / (rect.width as int);
        assert(sample(region.pixels, rect.width as int, col, row, k % 4) == region.pixels[k]);
    }
    assert(region.pixels =~= expected.pixels);
}

/// An RGBA8 image buffer.
#[derive(Debug, PartialEq, Eq)]
pub struct Frame {
    width: u32,
    height: u32,
    pixels: Vec<u8>,
}

impl View for Frame {
    type V = FrameView;

    closed spec fn view(&self) -> FrameView {
        FrameView { width: self.width as nat, height: self.height as nat, pixels: self.pixels@ }
    }
}

/// `image::imageops::crop_imm` followed by `SubImage::to_image`, on an RGBA8
/// buffer of the given size. For a rectangle inside the image (the crate would
/// otherwise shrink it) the result has one pixel per selected position, each
/// copied from the source at the same offset from the rectangle's corner.
#[verifier::external_body]
fn crop_samples(pixels: Vec<u8>, width: u32, height: u32, x: u32, y: u32, w: u32, h: u32) -> (out: Vec<u8>)
    requires
        pixels@.len() == width * height * 4,
        x + w <= width,
        y + h <= height,
    ensures
        out@.len() == w * h * 4,
        forall|col: int, row: int, channel: int|
            0 <= col < w && 0 <= row < h && 0 <= channel < 4 ==> #[trigger] sample(
                out@,
                w as int,
                col,
                row,
                channel,
            ) == sample(pixels@, width as int, x + col, y + row, channel),
{
    let source = image::RgbaImage::from_raw(width, height, pixels).unwrap();
    image::imageops::crop_imm(&source, x, y, w, h).to_image().into_raw()
}

impl Frame {
    #[verifier::type_invariant]
    spec fn sized(self) -> bool {
        self.pixels@.len() == self.width * self.height * 4
    }

    /// Wraps a buffer of samples. Succeeds exactly when the buffer holds
    /// `width * height * 4` samples.
    pub fn from_raw(width: u32, height: u32, pixels: Vec<u8>) -> (frame: Option<Frame>)
        ensures
            frame.is_some() == (pixels@.len() == width * height * 4),
            frame matches Some(f) ==> f@ == (FrameView {
                width: width as nat,
                height: height as nat,
                pixels: pixels@,
            }),
    {
        assert((width as u128) * (height as u128) <= 0xFFFF_FFFFu128 * 0xFFFF_FFFFu128) by (nonlinear_arith)
            requires
                width <= 0xFFFF_FFFFu128,
                height <= 0xFFFF_FFFFu128,
        ;
        let expected: u128 = (width as u128) * (height as u128) * 4;
        if pixels.len() as u128 == expected {
            Some(Frame { width, height, pixels })
        } else {
            None
        }
    }

    /// Number of pixels in a row.
    pub fn width(&self) -> (w: u32)
        ensures
            w == self@.width,
    {
        self.width
    }

    /// Number of rows.
    pub fn height(&self) -> (h: u32)
        ensures
            h == self@.height,
    {
        self.height
    }

    /// The samples in row-major order: one per channel and pixel.
    pub fn as_raw(&self) -> (pixels: &Vec<u8>)
        ensures
            pixels@ == self@.pixels,
            self@.well_formed(),
    {
        proof {
            use_type_invariant(self);
        }
        &self.pixels
    }

    /// Gives the buffer back.
    pub fn into_raw(self) -> (pixels: Vec<u8>)
        ensures
            pixels@ == self@.pixels,
    {
        self.pixels
    }

    /// Cuts the selected region out into a buffer of its own. Fails exactly
    /// when the rectangle is not wholly inside the frame.
    pub fn crop(self, rect: Rect) -> (cut: Result<Frame, CropOutOfBounds>)
        ensures
            cut.is_ok() == rect.within(self@.width as int, self@.height as int),
            cut matches Ok(region) ==> region@ == crop_of(self@, rect) && region@.is_crop_of(self@, rect),
    {
        proof {
            use_type_invariant(&self);
        }
        if !rect.fits(self.width, self.height) {
            return Err(CropOutOfBounds);
        }
        let x: u32 = rect.x as u32;
        let y: u32 = rect.y as u32;
        let w: u32 = rect.width as u32;
        let h: u32 = rect.height as u32;
        let ghost source = self@;
        let out = crop_samples(self.pixels, self.width, self.height, x, y, w, h);
        let region = Frame { width: w, height: h, pixels: out };
        proof {
            lemma_crop_is_determined(region@, source, rect);
        }
        Ok(region)
    }
}

/// A slot for at most one frame. The grab puts a frame in; the crop takes it
/// out, once.
#[derive(Debug)]
pub struct FrameHandoff {
    slot: Option<Frame>,
}

impl View for FrameHandoff {
    type V = Option<FrameView>;

    closed spec fn view(&self) -> Option<FrameView> {
        match self.slot {
            Some(frame) => Some(frame@),
            None => None,
        }
    }
}

impl FrameHandoff {
    /// An empty slot.
    pub fn new() -> (handoff: FrameHandoff)
        ensures
            handoff@ is None,
    {
        FrameHandoff { slot: None }
    }

    /// Whether a frame is waiting.
    pub fn is_occupied(&self) -> (occupied: bool)
        ensures
            occupied == (self@ is Some),
    {
        self.slot.is_some()
    }

    /// Stores a frame, replacing whatever was there.
    pub fn put(&mut self, frame: Frame)
        ensures
            final(self)@ == Some(frame@),
    {
        self.slot = Some(frame);
    }

    /// Removes the stored frame and returns it. Fails exactly when the slot is
    /// empty; either way the slot is empty afterwards.
    pub fn take(&mut self) -> (taken: Result<Frame, EmptyHandoff>)
        ensures
            final(self)@ is None,
            taken.is_ok() == (old(self)@ is Some),
            taken matches Ok(frame) ==> old(self)@ == Some(frame@),
    {
        match self.slot.take() {
            Some(frame) => Ok(frame),
            None => Err(EmptyHandoff),
        }
    }
}

} // verus!
