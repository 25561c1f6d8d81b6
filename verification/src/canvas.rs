//! The pixel canvas patterns are drawn on, backed by a `tiny_skia::Pixmap`.
//!
//! The canvas tracks its pixel dimensions as plain fields, so everything the
//! sizing logic states about them is verified; the pixel buffer itself is
//! opaque and only crossed through the trusted items below.

use vstd::prelude::*;

verus! {

#[verifier::external_type_specification]
#[verifier::external_body]
pub struct ExPixmap(tiny_skia::Pixmap);

/// The width and height, in pixels, recorded in a PNG byte stream.
pub uninterp spec fn png_dims(bytes: Seq<u8>) -> (u32, u32);

/// Largest width or height `tiny_skia::Pixmap::new` accepts: four bytes per
/// pixel per row must fit in an `i32`.
pub const CANVAS_DIM_LIMIT: u32 = 536_870_911;

/// A pixel canvas of known dimensions.
pub struct Canvas {
    wd: u32,
    ht: u32,
    pix: tiny_skia::Pixmap,
}

impl Canvas {
    /// The pixel dimensions of the canvas.
    pub closed spec fn dims(&self) -> (u32, u32) {
        (self.wd, self.ht)
    }

    /// Allocates a blank canvas.
    ///
    /// Relies on `tiny_skia::Pixmap::new`, which returns a pixmap of the
    /// requested size whenever both dimensions are non-zero and each row's
    /// four bytes per pixel fit in an `i32`.
    #[verifier::external_body]
    pub fn new(width: u32, height: u32) -> (r: Canvas)
        requires
            1 <= width <= CANVAS_DIM_LIMIT,
            1 <= height <= CANVAS_DIM_LIMIT,
        ensures
            r.dims() == (width, height),
    {
        Canvas { wd: width, ht: height, pix: tiny_skia::Pixmap::new(width, height).unwrap() }
    }

    /// The canvas width in pixels.
    pub fn width(&self) -> (r: u32)
        ensures
            r == self.dims().0,
    {
        self.wd
    }

    /// The canvas height in pixels.
    pub fn height(&self) -> (r: u32)
        ensures
            r == self.dims().1,
    {
        self.ht
    }

    /// Encodes the canvas as PNG bytes.
    ///
    /// Relies on `tiny_skia::Pixmap::encode_png` (via `PixmapRef`): it
    /// writes a PNG whose header carries the pixmap's own width and height,
    /// and it cannot fail for a live pixmap — the dimensions are non-zero,
    /// RGBA with eight-bit depth is a valid combination, the image data has
    /// exactly the expected length, and every write goes into a `Vec`.
    #[verifier::external_body]
    fn encode_inner(&self) -> (r: Option<Vec<u8>>)
        ensures
            r is Some,
            r matches Some(b) ==> png_dims(b@) == self.dims(),
    {
        self.pix.encode_png().ok()
    }

    /// Encodes the canvas as PNG bytes.  Encoding a live canvas always
    /// succeeds, and the PNG records exactly this canvas's dimensions.
    pub fn encode_png(&self) -> (r: Option<Vec<u8>>)
        ensures
            r is Some,
            r matches Some(b) ==> png_dims(b@) == self.dims(),
    {
        self.encode_inner()
    }

    /// Decodes PNG bytes back into a canvas, or `None` when the bytes are
    /// not a PNG this backend can read.
    ///
    /// Relies on `tiny_skia::Pixmap::decode_png`, which returns a pixmap
    /// whose `width`/`height` are the ones recorded in the PNG.
    #[verifier::external_body]
    fn decode_inner(bytes: &Vec<u8>) -> (r: Option<Canvas>)
        ensures
            r matches Some(c) ==> c.dims() == png_dims(bytes@),
    {
        match tiny_skia::Pixmap::decode_png(bytes.as_slice()) {
            Ok(p) => Some(Canvas { wd: p.width(), ht: p.height(), pix: p }),
            Err(_) => None,
        }
    }

    /// Decodes PNG bytes back into a canvas.  A decoded canvas has the
    /// dimensions recorded in the PNG.
    pub fn decode_png(bytes: &Vec<u8>) -> (r: Option<Canvas>)
        ensures
            r matches Some(c) ==> c.dims() == png_dims(bytes@),
    {
        Canvas::decode_inner(bytes)
    }

    /// Hands the underlying pixmap to the caller, for rasterization and
    /// export.
    #[verifier::external_body]
    pub fn into_pixmap(self) -> tiny_skia::Pixmap {
        self.pix
    }
}

} // verus!
