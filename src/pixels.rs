use vstd::prelude::*;

verus! {

/// An RGB image buffer of the `image` crate (`image::RgbImage`): eight-bit
/// samples, three per pixel, row by row. It is held behind a struct of its own
/// because Verus cannot declare `image::ImageBuffer`, whose pixel parameter is
/// bounded by the crate's `Pixel` trait; its contents go by the two names below.
#[verifier::external_body]
pub struct RgbPixels {
    inner: image::RgbImage,
}

/// The interleaved samples held by an RGB image buffer, three per pixel.
pub uninterp spec fn image_samples(img: RgbPixels) -> Seq<u8>;

/// The width and height that an RGB image buffer was made with.
pub uninterp spec fn image_dimensions(img: RgbPixels) -> (u32, u32);

/// Relies on `image::ImageBuffer::from_raw`: it returns `None` exactly when
/// three samples per pixel over `width * height` pixels do not fit in `buf`
/// (its `check_image_fits`), and otherwise keeps `buf` and the dimensions.
#[verifier::external_body]
pub(crate) fn rgb_from_raw(width: u32, height: u32, buf: Vec<u8>) -> (r: Option<RgbPixels>)
    ensures
        r.is_some() <==> 3 * (width as int) * (height as int) <= buf@.len(),
        r matches Some(img) ==> image_samples(img) == buf@ && image_dimensions(img) == (width, height),
{
    image::RgbImage::from_raw(width, height, buf).map(|inner| RgbPixels { inner })
}

impl RgbPixels {
    /// Relies on `image::ImageBuffer::width`: the width the buffer was made with.
    #[verifier::external_body]
    pub(crate) fn width(&self) -> (r: u32)
        ensures
            r == image_dimensions(*self).0,
    {
        self.inner.width()
    }

    /// Relies on `image::ImageBuffer::height`: the height the buffer was made with.
    #[verifier::external_body]
    pub(crate) fn height(&self) -> (r: u32)
        ensures
            r == image_dimensions(*self).1,
    {
        self.inner.height()
    }

    /// Relies on `image::ImageBuffer::as_raw`: the container it was made from.
    #[verifier::external_body]
    pub(crate) fn samples(&self) -> (r: &Vec<u8>)
        ensures
            r@ == image_samples(*self),
    {
        self.inner.as_raw()
    }
}

/// Image size fields of the native decoder's metadata record.
#[allow(non_camel_case_types)]
#[derive(Debug, Copy, Clone)]
pub struct libraw_image_sizes_t {
    pub width: u16,
    pub height: u16,
}

/// The metadata record copied out of a native decoding session.
#[allow(non_camel_case_types)]
#[derive(Debug, Copy, Clone)]
pub struct libraw_data_t {
    pub sizes: libraw_image_sizes_t,
}

/// A decoded image: its metadata and an owned RGB pixel buffer.
pub struct ImageResult {
    pub metadata: libraw_data_t,
    pub image: RgbPixels,
}

impl ImageResult {
    /// The image's width in pixels.
    pub fn width(&self) -> (r: u32)
        ensures
            r == image_dimensions(self.image).0,
    {
        self.image.width()
    }

    /// The image's height in pixels.
    pub fn height(&self) -> (r: u32)
        ensures
            r == image_dimensions(self.image).1,
    {
        self.image.height()
    }

    /// The interleaved RGB samples, row by row, three per pixel.
    pub fn pixels(&self) -> (r: &Vec<u8>)
        ensures
            r@ == image_samples(self.image),
    {
        self.image.samples()
    }
}

/// The photographic negative of one eight-bit sample.
pub fn invert_sample(v: u8) -> (r: u8)
    ensures
        r as int == 255 - v as int,
{
    255 - v
}

} // verus!
