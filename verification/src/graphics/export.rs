//! The frame buffer as an image of the `image` crate.

use vstd::prelude::*;
use crate::graphics::attributes::{raw_byte, FrameBuffer};

verus! {

/// An RGBA image with eight bits per channel, held by the `image` crate.
#[verifier::external_body]
pub struct Image {
    inner: image::RgbaImage,
}

/// The samples of an image: row after row from the top, four bytes (red,
/// green, blue, alpha) per pixel.
pub uninterp spec fn image_samples(img: Image) -> Seq<u8>;

/// The width and the height of an image.
pub uninterp spec fn image_dimensions(img: Image) -> (u32, u32);

/// `image::ImageBuffer::from_raw`: an image over the given samples. For a
/// width whose four samples per pixel can be counted in a `usize`, it is
/// `None` exactly where the samples are fewer than four per pixel;
/// otherwise the image has the given size and holds the samples as they
/// are.
#[verifier::external_body]
fn image_from_raw(width: u32, height: u32, samples: Vec<u8>) -> (r: Option<Image>)
    requires
        4 * width <= usize::MAX,
    ensures
        r is Some <==> 4 * width * height <= samples@.len(),
        r is Some ==> image_samples(r->Some_0) == samples@ && image_dimensions(r->Some_0) == (
            width,
            height,
        ),
{
    match image::RgbaImage::from_raw(width, height, samples) {
        Some(inner) => Some(Image { inner }),
        None => None,
    }
}

/// `image::ImageBuffer::into_raw`: the samples that the image holds.
#[verifier::external_body]
fn image_into_raw(img: Image) -> (r: Vec<u8>)
    ensures
        r@ == image_samples(img),
{
    img.inner.into_raw()
}

/// `image::ImageBuffer::dimensions`: the width and the height of the image.
#[verifier::external_body]
fn image_size(img: &Image) -> (r: (u32, u32))
    ensures
        r == image_dimensions(*img),
{
    img.inner.dimensions()
}

impl Image {
    /// The width and the height of the image.
    pub fn dimensions(&self) -> (r: (u32, u32))
        ensures
            r == image_dimensions(*self),
    {
        image_size(self)
    }

    /// Gives up the image for its samples.
    pub fn into_raw(self) -> (r: Vec<u8>)
        ensures
            r@ == image_samples(self),
    {
        image_into_raw(self)
    }
}

impl FrameBuffer {
    /// The colours of the buffer as an image of the same size: the pixel in
    /// column `x` of row `y` has the colour of the cell in column `x` of
    /// row `y`.
    pub fn render(&self) -> (r: Image)
        requires
            self.wf(),
        ensures
            image_dimensions(r) == (self.spec_width() as u32, self.spec_height() as u32),
            image_samples(r).len() == 4 * self.spec_width() * self.spec_height(),
            forall|k: int|
                0 <= k < image_samples(r).len() ==> image_samples(r)[k] == raw_byte(
                    self@,
                    self.spec_width() as int,
                    k,
                ),
    {
        let width = self.width();
        let height = self.height();
        let samples = self.as_raw();
        proof {
            assert(4 * (width as u32) * (height as u32) == 4 * self.spec_width()
                * self.spec_height()) by (nonlinear_arith)
                requires
                    width as u32 == self.spec_width(),
                    height as u32 == self.spec_height(),
            ;
        }
        match image_from_raw(width as u32, height as u32, samples) {
            Some(img) => img,
            None => vstd::pervasive::unreached(),
        }
    }
}

} // verus!
