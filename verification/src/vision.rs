//! Motion detection by pixel differences on grayscale frames: the count of
//! changed pixels between consecutive frames, the detector's memory of the
//! previous frame, the downscaling target, and synthetic test frames.
use vstd::prelude::*;

use crate::error::Error;
use crate::text::join_str;

verus! {

/// Motion detection algorithms.
#[derive(Debug, Clone, Copy, PartialEq, Eq, Structural)]
pub enum MotionAlgorithm {
    /// Absolute pixel differences between consecutive frames.
    PixelDiff,
    /// Background subtraction (MOG2).
    Mog2,
}

impl MotionAlgorithm {
    /// Pixel differences are the default.
    pub fn default_algorithm() -> (r: Self)
        ensures
            r == MotionAlgorithm::PixelDiff,
    {
        MotionAlgorithm::PixelDiff
    }
}

/// How far apart two pixel values are.
pub open spec fn pixel_distance(a: u8, b: u8) -> int {
    if a > b {
        a - b
    } else {
        b - a
    }
}

/// The number of positions, among the first `n`, where the two frames
/// differ by more than `threshold`.
pub open spec fn changed_count(cur: Seq<u8>, prev: Seq<u8>, threshold: u8, n: int) -> nat
    decreases n,
{
    if n <= 0 {
        0
    } else {
        changed_count(cur, prev, threshold, n - 1) + if pixel_distance(cur[n - 1], prev[n - 1])
            > threshold {
            1nat
        } else {
            0nat
        }
    }
}

/// The changed pixels between two frames, compared position by position
/// over the shorter of the two.
pub open spec fn changed_pixels(cur: Seq<u8>, prev: Seq<u8>, threshold: u8) -> nat {
    changed_count(
        cur,
        prev,
        threshold,
        if cur.len() < prev.len() {
            cur.len() as int
        } else {
            prev.len() as int
        },
    )
}

proof fn lemma_changed_count_bound(cur: Seq<u8>, prev: Seq<u8>, threshold: u8, n: int)
    requires
        n >= 0,
    ensures
        changed_count(cur, prev, threshold, n) <= n,
    decreases n,
{
    if n > 0 {
        lemma_changed_count_bound(cur, prev, threshold, n - 1);
    }
}

/// Counts the pixels that differ by more than `threshold` (see
/// `changed_pixels`).
pub fn calculate_pixel_diff(current_frame: &[u8], previous_frame: &[u8], threshold: u8) -> (r: u32)
    requires
        current_frame@.len() <= u32::MAX,
    ensures
        r == changed_pixels(current_frame@, previous_frame@, threshold),
{
    let n = if current_frame.len() < previous_frame.len() {
        current_frame.len()
    } else {
        previous_frame.len()
    };
    let mut changed: u32 = 0;
    let mut i: usize = 0;
    while i < n
        invariant
            n <= current_frame@.len(),
            n <= previous_frame@.len(),
            n == if current_frame@.len() < previous_frame@.len() {
                current_frame@.len()
            } else {
                previous_frame@.len()
            },
            current_frame@.len() <= u32::MAX,
            i <= n,
            changed == changed_count(current_frame@, previous_frame@, threshold, i as int),
        decreases n - i,
    {
        proof {
            lemma_changed_count_bound(current_frame@, previous_frame@, threshold, i as int);
        }
        let c = current_frame[i];
        let p = previous_frame[i];
        let diff = if c > p {
            c - p
        } else {
            p - c
        };
        if diff > threshold {
            changed = changed + 1;
        }
        i += 1;
    }
    changed
}

/// Two equal frames have no changed pixels.
pub proof fn equal_frames_have_no_change(frame: Seq<u8>, threshold: u8)
    ensures
        changed_pixels(frame, frame, threshold) == 0,
{
    lemma_equal_prefix_no_change(frame, threshold, frame.len() as int);
}

proof fn lemma_equal_prefix_no_change(frame: Seq<u8>, threshold: u8, n: int)
    ensures
        changed_count(frame, frame, threshold, n) == 0,
    decreases n,
{
    if n > 0 {
        lemma_equal_prefix_no_change(frame, threshold, n - 1);
    }
}

/// No more pixels change than the frames have: the change ratio stays
/// between 0 and 1.
pub proof fn changed_pixels_within_frame(cur: Seq<u8>, prev: Seq<u8>, threshold: u8)
    ensures
        changed_pixels(cur, prev, threshold) <= cur.len(),
        changed_pixels(cur, prev, threshold) <= prev.len(),
{
    let n = if cur.len() < prev.len() {
        cur.len() as int
    } else {
        prev.len() as int
    };
    lemma_changed_count_bound(cur, prev, threshold, n);
}

/// A higher threshold never counts more changed pixels.
pub proof fn higher_threshold_counts_fewer(cur: Seq<u8>, prev: Seq<u8>, low: u8, high: u8)
    requires
        low <= high,
    ensures
        changed_pixels(cur, prev, high) <= changed_pixels(cur, prev, low),
{
    let n = if cur.len() < prev.len() {
        cur.len() as int
    } else {
        prev.len() as int
    };
    lemma_threshold_monotone(cur, prev, low, high, n);
}

/// Two detectors that differ only in threshold, holding the same previous
/// frame and given the same frame: the one with the lower threshold counts
/// at least as many changed pixels, so it detects motion whenever the other
/// does.
pub proof fn lower_threshold_detects_whenever_higher_does(
    cur: Seq<u8>,
    prev: Seq<u8>,
    low: u8,
    high: u8,
    min_change_area: u32,
)
    requires
        low <= high,
    ensures
        changed_pixels(cur, prev, high) <= changed_pixels(cur, prev, low),
        changed_pixels(cur, prev, high) >= min_change_area ==> changed_pixels(cur, prev, low)
            >= min_change_area,
{
    higher_threshold_counts_fewer(cur, prev, low, high);
}

proof fn lemma_threshold_monotone(cur: Seq<u8>, prev: Seq<u8>, low: u8, high: u8, n: int)
    requires
        low <= high,
    ensures
        changed_count(cur, prev, high, n) <= changed_count(cur, prev, low, n),
    decreases n,
{
    if n > 0 {
        lemma_threshold_monotone(cur, prev, low, high, n - 1);
    }
}

/// A copy of a frame.
fn copy_frame(frame: &[u8]) -> (r: Vec<u8>)
    ensures
        r@ == frame@,
{
    let mut out: Vec<u8> = Vec::new();
    let mut i: usize = 0;
    while i < frame.len()
        invariant
            i <= frame@.len(),
            out@ == frame@.take(i as int),
        decreases frame@.len() - i,
    {
        out.push(frame[i]);
        i += 1;
        assert(frame@.take(i as int) =~= frame@.take((i - 1) as int).push(frame@[i - 1]));
    }
    assert(frame@.take(frame@.len() as int) =~= frame@);
    out
}

/// What the detector says of one frame, apart from the figures the caller
/// derives from these counts.
#[derive(Debug, Clone, Copy, PartialEq, Eq, Structural)]
pub struct PixelDiffOutcome {
    pub motion_detected: bool,
    pub changed_pixels: u32,
    pub total_pixels: u32,
    /// No comparable previous frame: this frame only becomes the reference.
    pub first_frame: bool,
}

/// Motion detection by pixel differences against the previous frame.
#[derive(Debug)]
pub struct PixelDiffDetector {
    threshold_value: u8,
    min_change_area: u32,
    previous_frame: Option<Vec<u8>>,
    frame_width: u32,
    frame_height: u32,
}

impl PixelDiffDetector {
    /// The per-pixel difference that counts as a change.
    pub closed spec fn spec_threshold(&self) -> u8 {
        self.threshold_value
    }

    /// The number of changed pixels that counts as motion.
    pub closed spec fn spec_min_change_area(&self) -> u32 {
        self.min_change_area
    }

    /// The frame the next one is compared with.
    pub closed spec fn spec_previous(&self) -> Option<Seq<u8>> {
        match self.previous_frame {
            Some(f) => Some(f@),
            None => None,
        }
    }

    /// The dimensions of the last frame seen.
    pub closed spec fn spec_dimensions(&self) -> (u32, u32) {
        (self.frame_width, self.frame_height)
    }

    /// A detector with no previous frame.
    pub fn new(threshold_value: u8, min_change_area: u32) -> (r: Self)
        ensures
            r.spec_threshold() == threshold_value,
            r.spec_min_change_area() == min_change_area,
            r.spec_previous() is None,
            r.spec_dimensions() == (0u32, 0u32),
    {
        PixelDiffDetector {
            threshold_value,
            min_change_area,
            previous_frame: None,
            frame_width: 0,
            frame_height: 0,
        }
    }

    /// Whether a frame is kept to compare the next one with.
    pub fn has_previous_frame(&self) -> (r: bool)
        ensures
            r == self.spec_previous() is Some,
    {
        self.previous_frame.is_some()
    }

    /// The dimensions of the last frame seen, `(0, 0)` before any.
    pub fn frame_dimensions(&self) -> (r: (u32, u32))
        ensures
            r == self.spec_dimensions(),
    {
        (self.frame_width, self.frame_height)
    }

    pub fn algorithm_name(&self) -> (r: &'static str)
        ensures
            r@ == "PixelDiff"@,
    {
        "PixelDiff"
    }

    /// Compares a frame with the previous one.  Without a previous frame of
    /// the same size the frame only becomes the reference and nothing is
    /// detected; otherwise the changed pixels are counted and motion is
    /// detected when they reach the minimum area.  Either way the frame is
    /// the reference for the next one.
    pub fn detect_motion(&mut self, current_frame: &[u8], frame_width: u32, frame_height: u32) -> (r:
        PixelDiffOutcome)
        requires
            frame_width * frame_height <= u32::MAX,
            current_frame@.len() <= u32::MAX,
        ensures
            final(self).spec_threshold() == old(self).spec_threshold(),
            final(self).spec_min_change_area() == old(self).spec_min_change_area(),
            final(self).spec_previous() == Some(current_frame@),
            final(self).spec_dimensions() == (frame_width, frame_height),
            r.total_pixels == frame_width * frame_height,
            match old(self).spec_previous() {
                Some(prev) => if prev.len() == current_frame@.len() {
                    !r.first_frame && r.changed_pixels == changed_pixels(
                        current_frame@,
                        prev,
                        old(self).spec_threshold(),
                    ) && r.motion_detected == (r.changed_pixels
                        >= old(self).spec_min_change_area())
                } else {
                    r.first_frame && !r.motion_detected && r.changed_pixels == 0
                },
                None => r.first_frame && !r.motion_detected && r.changed_pixels == 0,
            },
    {
        self.frame_width = frame_width;
        self.frame_height = frame_height;
        let total_pixels = frame_width * frame_height;
        let comparable = match &self.previous_frame {
            Some(prev) => prev.len() == current_frame.len(),
            None => false,
        };
        if !comparable {
            self.previous_frame = Some(copy_frame(current_frame));
            return PixelDiffOutcome {
                motion_detected: false,
                changed_pixels: 0,
                total_pixels,
                first_frame: true,
            };
        }
        let changed = match &self.previous_frame {
            Some(prev) => calculate_pixel_diff(current_frame, prev.as_slice(), self.threshold_value),
            None => 0,
        };
        let motion = changed >= self.min_change_area;
        self.previous_frame = Some(copy_frame(current_frame));
        PixelDiffOutcome { motion_detected: motion, changed_pixels: changed, total_pixels, first_frame: false }
    }

    /// Forgets the previous frame.
    pub fn reset(&mut self)
        ensures
            final(self).spec_threshold() == old(self).spec_threshold(),
            final(self).spec_min_change_area() == old(self).spec_min_change_area(),
            final(self).spec_previous() is None,
            final(self).spec_dimensions() == (0u32, 0u32),
    {
        self.previous_frame = None;
        self.frame_width = 0;
        self.frame_height = 0;
    }
}

// ---------------------------------------------------------------------------
// Downscaling
// ---------------------------------------------------------------------------

/// The size a frame is scaled to before detection: each side divided by
/// the factor and capped at the maximum; `None` when that is the frame's
/// own size.
pub open spec fn downscale_size(
    width: u32,
    height: u32,
    factor: u32,
    max_width: u32,
    max_height: u32,
) -> Option<(u32, u32)> {
    let w = if width / factor < max_width {
        width / factor
    } else {
        max_width
    };
    let h = if height / factor < max_height {
        height / factor
    } else {
        max_height
    };
    if w == width && h == height {
        None
    } else {
        Some((w as u32, h as u32))
    }
}

/// The size a frame is scaled to (see `downscale_size`).
pub fn downscale_target(width: u32, height: u32, factor: u32, max_width: u32, max_height: u32) -> (r:
    Option<(u32, u32)>)
    requires
        factor > 0,
    ensures
        r == downscale_size(width, height, factor, max_width, max_height),
{
    let w = if width / factor < max_width {
        width / factor
    } else {
        max_width
    };
    let h = if height / factor < max_height {
        height / factor
    } else {
        max_height
    };
    if w == width && h == height {
        None
    } else {
        Some((w, h))
    }
}

// ---------------------------------------------------------------------------
// Decoding, scaling and encoding frames (the `image` crate)
// ---------------------------------------------------------------------------

/// What `image::load_from_memory` followed by `to_luma8` makes of encoded
/// bytes: the grayscale pixels row by row with the width and height, or
/// nothing when the crate reads no image from them.
pub uninterp spec fn decoded_gray(bytes: Seq<u8>) -> Option<(Seq<u8>, u32, u32)>;

/// The text (`Display`) of the error `image::load_from_memory` gives.
pub uninterp spec fn image_decode_error_text(bytes: Seq<u8>) -> Seq<char>;

/// `image::load_from_memory` then `to_luma8`: one byte per pixel, and the
/// crate's default decoding limit (512 MiB of pixel data) bounds the size.
#[verifier::external_body]
fn decode_gray(bytes: &[u8]) -> (r: Result<(Vec<u8>, u32, u32), String>)
    ensures
        match r {
            Ok((p, w, h)) => decoded_gray(bytes@) == Some((p@, w, h)) && p@.len() == w * h && w
                * h <= 0x2000_0000,
            Err(e) => decoded_gray(bytes@) is None && e@ == image_decode_error_text(bytes@),
        },
{
    match image::load_from_memory(bytes) {
        Ok(img) => {
            let gray = img.to_luma8();
            let (w, h) = gray.dimensions();
            Ok((gray.into_raw(), w, h))
        },
        Err(e) => Err(e.to_string()),
    }
}

/// What `image::imageops::resize` with `FilterType::Nearest` makes of a
/// `width` by `height` grayscale frame at the new size.
pub uninterp spec fn resized_gray(
    pixels: Seq<u8>,
    width: u32,
    height: u32,
    new_width: u32,
    new_height: u32,
) -> Seq<u8>;

/// `image::imageops::resize` (nearest neighbour) of the frame held by the
/// first `width * height` bytes; the result has one byte per pixel of the
/// new size.  The crate samples through a buffer of four floats per pixel,
/// so the frame must be small enough for that buffer to be allocated.
#[verifier::external_body]
fn resize_gray(pixels: &[u8], width: u32, height: u32, new_width: u32, new_height: u32) -> (r: Vec<
    u8,
>)
    requires
        pixels@.len() >= width * height,
        new_width <= width,
        new_height <= height,
        16 * (width * height) <= isize::MAX,
    ensures
        r@ == resized_gray(pixels@, width, height, new_width, new_height),
        r@.len() == new_width * new_height,
{
    let filter = image::imageops::FilterType::Nearest;
    match image::GrayImage::from_raw(width, height, pixels.to_vec()) {
        Some(img) => image::imageops::resize(&img, new_width, new_height, filter).into_raw(),
        None => Vec::new(),
    }
}

/// What encoding a grayscale frame as JPEG gives (the frame turned into
/// RGB with `to_rgb8`, written with `ImageFormat::Jpeg`), or nothing when
/// the encoder refuses it.
pub uninterp spec fn jpeg_of_gray(pixels: Seq<u8>, width: u32, height: u32) -> Option<Seq<u8>>;

/// The text (`Display`) of the error the JPEG encoder gives.
pub uninterp spec fn jpeg_error_text(pixels: Seq<u8>, width: u32, height: u32) -> Seq<char>;

/// JPEG encoding of a grayscale frame with the `image` crate.
#[verifier::external_body]
fn encode_gray_jpeg(pixels: &[u8], width: u32, height: u32) -> (r: Result<Vec<u8>, String>)
    requires
        pixels@.len() == width * height,
        3 * (width * height) <= isize::MAX,
    ensures
        match r {
            Ok(b) => jpeg_of_gray(pixels@, width, height) == Some(b@),
            Err(e) => jpeg_of_gray(pixels@, width, height) is None && e@ == jpeg_error_text(
                pixels@,
                width,
                height,
            ),
        },
{
    let mut buffer: Vec<u8> = Vec::new();
    let gray = image::GrayImage::from_raw(width, height, pixels.to_vec()).unwrap_or_default();
    let rgb = image::DynamicImage::ImageLuma8(gray).to_rgb8();
    match rgb.write_to(&mut std::io::Cursor::new(&mut buffer), image::ImageFormat::Jpeg) {
        Ok(()) => Ok(buffer),
        Err(e) => Err(e.to_string()),
    }
}

/// The frame the detector works on: `None` when the frame keeps its size
/// (see `downscale_size`), else the frame scaled to the smaller size.
pub open spec fn scaled_frame(
    pixels: Seq<u8>,
    width: u32,
    height: u32,
    factor: u32,
    max_width: u32,
    max_height: u32,
) -> (Seq<u8>, u32, u32) {
    match downscale_size(width, height, factor, max_width, max_height) {
        None => (pixels, width, height),
        Some((w, h)) => (resized_gray(pixels, width, height, w, h), w, h),
    }
}

/// Scales a frame down before detection: each side divided by `factor`
/// and capped at the maximum, nearest-neighbour sampling; a frame already
/// at that size is kept as it is.
pub fn scale_frame(
    pixels: &[u8],
    width: u32,
    height: u32,
    factor: u32,
    max_width: u32,
    max_height: u32,
) -> (r: (Vec<u8>, u32, u32))
    requires
        factor > 0,
        pixels@.len() >= width * height,
        16 * (width * height) <= isize::MAX,
    ensures
        (r.0@, r.1, r.2) == scaled_frame(pixels@, width, height, factor, max_width, max_height),
{
    match downscale_target(width, height, factor, max_width, max_height) {
        None => (copy_frame(pixels), width, height),
        Some((w, h)) => (resize_gray(pixels, width, height, w, h), w, h),
    }
}

/// The frame to detect motion in, from encoded image bytes (JPEG, PNG):
/// decoded to grayscale, then scaled (see `scaled_frame`).  Bytes that are
/// no image are a validation error with the decoder's text; so is a frame
/// too large to be scaled on this machine.
pub fn frame_from_image_bytes(image_data: &[u8], factor: u32, max_width: u32, max_height: u32) -> (r:
    Result<(Vec<u8>, u32, u32), Error>)
    requires
        factor > 0,
    ensures
        match decoded_gray(image_data@) {
            None => r matches Err(e) && e is Validation && e.spec_detail()
                == "Failed to decode image: "@ + image_decode_error_text(image_data@),
            Some((p, w, h)) => if 16 * (w * h) <= isize::MAX {
                r matches Ok(f) && (f.0@, f.1, f.2) == scaled_frame(
                    p,
                    w,
                    h,
                    factor,
                    max_width,
                    max_height,
                )
            } else {
                r matches Err(e) && e is Validation && e.spec_detail()
                    == "Image too large to process"@
            },
        },
{
    let (pixels, w, h) = match decode_gray(image_data) {
        Ok(d) => d,
        Err(e) => return Err(Error::Validation(join_str("Failed to decode image: ", e.as_str()))),
    };
    let n = (w as u64) * (h as u64);
    if n > (isize::MAX as u64) / 16 {
        return Err(Error::Validation(String::from_str("Image too large to process")));
    }
    Ok(scale_frame(pixels.as_slice(), w, h, factor, max_width, max_height))
}

/// The frame to detect motion in, from raw grayscale bytes of a `width` by
/// `height` frame: a buffer shorter than the frame is a validation error;
/// otherwise the frame is scaled (see `scaled_frame`).
pub fn frame_from_raw(
    frame_data: &[u8],
    width: u32,
    height: u32,
    factor: u32,
    max_width: u32,
    max_height: u32,
) -> (r: Result<(Vec<u8>, u32, u32), Error>)
    requires
        factor > 0,
        16 * (width * height) <= isize::MAX,
    ensures
        match r {
            Ok(f) => frame_data@.len() >= width * height && (f.0@, f.1, f.2) == scaled_frame(
                frame_data@,
                width,
                height,
                factor,
                max_width,
                max_height,
            ),
            Err(e) => frame_data@.len() < width * height && e is Validation && e.spec_detail()
                == "Invalid frame data dimensions"@,
        },
{
    if !frame_fits(frame_data.len(), width, height) {
        return Err(Error::Validation(String::from_str("Invalid frame data dimensions")));
    }
    Ok(scale_frame(frame_data, width, height, factor, max_width, max_height))
}

/// A grayscale frame as JPEG bytes; the encoder's refusal is a validation
/// error with its text.
pub fn image_to_jpeg_bytes(pixels: &[u8], width: u32, height: u32) -> (r: Result<Vec<u8>, Error>)
    requires
        pixels@.len() == width * height,
        3 * (width * height) <= isize::MAX,
    ensures
        match jpeg_of_gray(pixels@, width, height) {
            Some(b) => r matches Ok(v) && v@ == b,
            None => r matches Err(e) && e is Validation && e.spec_detail()
                == "Failed to encode JPEG: "@ + jpeg_error_text(pixels@, width, height),
        },
{
    match encode_gray_jpeg(pixels, width, height) {
        Ok(b) => Ok(b),
        Err(e) => Err(Error::Validation(join_str("Failed to encode JPEG: ", e.as_str()))),
    }
}

/// Whether a buffer holds a whole frame: `GrayImage::from_raw` accepts at
/// least one byte per pixel.
pub fn frame_fits(len: usize, width: u32, height: u32) -> (r: bool)
    ensures
        r == (len >= width * height),
{
    let w = width as u64;
    let h = height as u64;
    assert(w * h <= 0xffff_ffff_ffff_ffffu64) by (nonlinear_arith)
        requires
            w <= 0xffff_ffff,
            h <= 0xffff_ffff,
    ;
    (len as u64) >= w * h
}

proof fn lemma_cell_before_row(yy: int, y: int, xx: int, width: int)
    requires
        0 <= yy < y,
        0 <= xx < width,
    ensures
        0 <= yy * width + xx < y * width,
{
    assert(yy * width + xx < (yy + 1) * width) by (nonlinear_arith)
        requires
            xx < width,
    ;
    assert((yy + 1) * width <= y * width) by (nonlinear_arith)
        requires
            yy + 1 <= y,
            0 <= width,
    ;
    assert(0 <= yy * width) by (nonlinear_arith)
        requires
            0 <= yy,
            0 <= width,
    ;
}

// ---------------------------------------------------------------------------
// Test frames
// ---------------------------------------------------------------------------

/// The value of pixel `(x, y)` of a test frame: `intensity` inside the
/// rectangle at `(mx, my)` of size `mw` by `mh` (clipped to the frame),
/// dark gray (64) elsewhere.
pub open spec fn test_pixel(
    x: int,
    y: int,
    mx: u32,
    my: u32,
    mw: u32,
    mh: u32,
    intensity: u8,
) -> u8 {
    if mx <= x < mx + mw && my <= y < my + mh {
        intensity
    } else {
        64
    }
}

/// The position of pixel `(x, y)` in a frame `width` pixels wide.
pub open spec fn cell(y: int, x: int, width: int) -> int {
    y * width + x
}

proof fn lemma_cells_before_row(y: int, width: int)
    requires
        0 <= y,
        0 <= width,
    ensures
        forall|yy: int, xx: int|
            0 <= yy < y && 0 <= xx < width ==> 0 <= #[trigger] cell(yy, xx, width) < y * width,
{
    assert forall|yy: int, xx: int| 0 <= yy < y && 0 <= xx < width implies 0 <= #[trigger] cell(
        yy,
        xx,
        width,
    ) < y * width by {
        lemma_cell_before_row(yy, y, xx, width);
    }
}

/// A grayscale test frame, row by row: a dark background with a bright
/// rectangle where motion is to be seen.
pub fn create_test_frame_with_motion(
    width: u32,
    height: u32,
    motion_x: u32,
    motion_y: u32,
    motion_width: u32,
    motion_height: u32,
    intensity: u8,
) -> (r: Vec<u8>)
    requires
        width * height <= usize::MAX,
        motion_x + motion_width <= u32::MAX,
        motion_y + motion_height <= u32::MAX,
    ensures
        r@.len() == width * height,
        forall|y: int, x: int|
            0 <= y < height && 0 <= x < width ==> #[trigger] r@[y * width + x] == test_pixel(
                x,
                y,
                motion_x,
                motion_y,
                motion_width,
                motion_height,
                intensity,
            ),
{
    let mut out: Vec<u8> = Vec::new();
    let mut y: u32 = 0;
    while y < height
        invariant
            y <= height,
            width * height <= usize::MAX,
            motion_x + motion_width <= u32::MAX,
            motion_y + motion_height <= u32::MAX,
            out@.len() == y * width,
            forall|yy: int, x: int|
                0 <= yy < y && 0 <= x < width ==> out@[#[trigger] cell(yy, x, width as int)]
                    == test_pixel(x, yy, motion_x, motion_y, motion_width, motion_height, intensity),
        decreases height - y,
    {
        let mut x: u32 = 0;
        let ghost row_start = out@.len();
        proof {
            lemma_cells_before_row(y as int, width as int);
            assert((y + 1) * width <= height * width) by (nonlinear_arith)
                requires
                    y < height,
            ;
            assert(height * width == width * height) by (nonlinear_arith);
        }
        while x < width
            invariant
                y < height,
                x <= width,
                width * height <= usize::MAX,
                (y + 1) * width <= width * height,
                motion_x + motion_width <= u32::MAX,
                motion_y + motion_height <= u32::MAX,
                row_start == y * width,
                out@.len() == row_start + x,
                forall|yy: int, xx: int|
                    0 <= yy < y && 0 <= xx < width ==> 0 <= #[trigger] cell(yy, xx, width as int)
                        < row_start,
                forall|yy: int, xx: int|
                    0 <= yy < y && 0 <= xx < width ==> out@[#[trigger] cell(yy, xx, width as int)]
                        == test_pixel(
                        xx,
                        yy,
                        motion_x,
                        motion_y,
                        motion_width,
                        motion_height,
                        intensity,
                    ),
                forall|xx: int|
                    0 <= xx < x ==> #[trigger] out@[row_start + xx] == test_pixel(
                        xx,
                        y as int,
                        motion_x,
                        motion_y,
                        motion_width,
                        motion_height,
                        intensity,
                    ),
            decreases width - x,
        {
            proof {
                assert(row_start + x < (y + 1) * width) by (nonlinear_arith)
                    requires
                        row_start == y * width,
                        x < width,
                ;
            }
            let inside = motion_x <= x && x < motion_x + motion_width && motion_y <= y && y
                < motion_y + motion_height;
            let v: u8 = if inside {
                intensity
            } else {
                64
            };
            out.push(v);
            x += 1;
        }
        proof {
            assert forall|yy: int, xx: int|
                0 <= yy < y + 1 && 0 <= xx < width implies out@[#[trigger] cell(yy, xx, width as int)]
                == test_pixel(xx, yy, motion_x, motion_y, motion_width, motion_height, intensity) by {
                if yy == y {
                    assert(cell(yy, xx, width as int) == row_start + xx);
                }
            }
            assert(out@.len() == (y + 1) * width) by (nonlinear_arith)
                requires
                    out@.len() == y * width + width,
            ;
        }
        y += 1;
    }
    proof {
        assert(out@.len() == width * height) by (nonlinear_arith)
            requires
                out@.len() == y * width,
                y == height,
        ;
        assert forall|yy: int, xx: int|
            0 <= yy < height && 0 <= xx < width implies #[trigger] out@[yy * width + xx]
            == test_pixel(xx, yy, motion_x, motion_y, motion_width, motion_height, intensity) by {
            assert(out@[cell(yy, xx, width as int)] == test_pixel(
                xx,
                yy,
                motion_x,
                motion_y,
                motion_width,
                motion_height,
                intensity,
            ));
        }
    }
    out
}

/// Two test frames: a plain dark frame and the same with a bright 50 by 50
/// square at `(10, 10)`.
pub fn create_test_frame_pair(width: u32, height: u32) -> (r: (Vec<u8>, Vec<u8>))
    requires
        width * height <= usize::MAX,
    ensures
        r.0@.len() == width * height,
        r.1@.len() == width * height,
        forall|y: int, x: int|
            0 <= y < height && 0 <= x < width ==> #[trigger] r.0@[y * width + x] == 64,
        forall|y: int, x: int|
            0 <= y < height && 0 <= x < width ==> #[trigger] r.1@[y * width + x] == test_pixel(
                x,
                y,
                10,
                10,
                50,
                50,
                200,
            ),
{
    let a = create_test_frame_with_motion(width, height, 0, 0, 0, 0, 64);
    let b = create_test_frame_with_motion(width, height, 10, 10, 50, 50, 200);
    (a, b)
}

} // verus!
