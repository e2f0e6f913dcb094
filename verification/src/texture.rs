use vstd::prelude::*;

verus! {

/// `image::DynamicImage`, a decoded image in the pixel format the file had.
#[verifier::external_type_specification]
#[verifier::external_body]
pub struct ExDynamicImage(image::DynamicImage);

/// `image::ImageError`, why an image could not be decoded.
#[verifier::external_type_specification]
#[verifier::external_body]
pub struct ExImageError(image::ImageError);

/// `egui::ColorImage`, an image of premultiplied sRGBA pixels that egui can upload.
#[verifier::external_type_specification]
#[verifier::external_body]
pub struct ExColorImage(egui::ColorImage);

/// The width, the height and the RGBA8 samples of the image that
/// `image::load_from_memory_with_format` decodes these bytes into as a PNG, or
/// `None` when they do not decode.
pub uninterp spec fn png_rgba8(bytes: Seq<u8>) -> Option<(u32, u32, Seq<u8>)>;

/// The width, the height and the raw samples of the RGBA8 buffer that
/// `image::DynamicImage::to_rgba8` makes of an image.
pub uninterp spec fn rgba8_of(image: image::DynamicImage) -> (u32, u32, Seq<u8>);

/// The size, width then height, of an egui image.
pub uninterp spec fn color_image_size(image: egui::ColorImage) -> (usize, usize);

/// The pixels of an egui image, row by row, each as premultiplied sRGBA bytes.
pub uninterp spec fn color_image_pixels(image: egui::ColorImage) -> Seq<(u8, u8, u8, u8)>;

/// What premultiplying unmultiplied RGBA bytes, four per pixel, gives for
/// certain: one pixel per four bytes, each with its alpha kept; a fully
/// transparent pixel becomes all zero and an opaque one keeps its colour.
/// (The colour of a partly transparent pixel comes from a floating-point
/// table and is left open.)
pub open spec fn premultiplies(rgba: Seq<u8>, pixels: Seq<(u8, u8, u8, u8)>) -> bool {
    &&& rgba.len() == pixels.len() * 4
    &&& forall|i: int|
        0 <= i < pixels.len() ==> {
            let p = #[trigger] pixels[i];
            let a = rgba[4 * i + 3];
            &&& p.3 == a
            &&& a == 0 ==> p == (0u8, 0u8, 0u8, 0u8)
            &&& a == 255 ==> p == (rgba[4 * i], rgba[4 * i + 1], rgba[4 * i + 2], 255u8)
        }
}

/// Calls `image::load_from_memory_with_format` with the PNG format, which
/// decodes the bytes with the built-in PNG decoder under the default limits
/// (no format guessing, so no registered hook takes part). Trusted: the
/// result is `Ok` exactly when `png_rgba8(bytes)` is `Some`, and then the
/// image's RGBA8 form is that; a decoded image's buffer holds exactly four
/// samples per pixel once converted to RGBA8 (the decoder fills a buffer of
/// exactly its total byte count, and the conversion allocates one per pixel).
/// Which error comes out on failure is not stated.
#[verifier::external_body]
fn load_png(bytes: &[u8]) -> (res: Result<image::DynamicImage, image::ImageError>)
    ensures
        res is Ok <==> png_rgba8(bytes@) is Some,
        res matches Ok(image) ==> png_rgba8(bytes@) == Some(rgba8_of(image)),
        res matches Ok(image) ==> rgba8_of(image).2.len() == rgba8_of(image).0 * rgba8_of(
            image,
        ).1 * 4,
{
    image::load_from_memory_with_format(bytes, image::ImageFormat::Png)
}

/// Calls `image::DynamicImage::to_rgba8` and takes the buffer apart into its
/// width, height and raw samples. Trusted: these are `rgba8_of(image)`, and
/// the buffer holds at least four samples per pixel (an `ImageBuffer` is only
/// ever built over a container that long).
#[verifier::external_body]
fn to_rgba8(image: &image::DynamicImage) -> (res: (u32, u32, Vec<u8>))
    ensures
        (res.0, res.1, res.2@) == rgba8_of(*image),
        res.2@.len() >= res.0 * res.1 * 4,
{
    let buffer = image.to_rgba8();
    (buffer.width(), buffer.height(), buffer.into_raw())
}

/// Calls `egui::ColorImage::from_rgba_unmultiplied`, which asserts that the
/// bytes hold exactly four per pixel (hence the `requires`) and turns each
/// four bytes into a pixel with `Color32::from_rgba_unmultiplied`. Trusted:
/// the image has the given size, and its pixels are what `premultiplies`
/// says of the bytes. The colour of partly transparent pixels is not stated:
/// it goes through `powf`, whose rounding the platform decides.
#[verifier::external_body]
fn color_image_from_rgba_unmultiplied(size: [usize; 2], rgba: &[u8]) -> (res: egui::ColorImage)
    requires
        size[0] * size[1] * 4 == rgba@.len(),
    ensures
        color_image_size(res) == (size[0], size[1]),
        premultiplies(rgba@, color_image_pixels(res)),
{
    egui::ColorImage::from_rgba_unmultiplied(size, rgba)
}

/// What a texture image is: its size in pixels and its RGBA bytes, four per
/// pixel, row by row.
pub struct TextureView {
    pub width: usize,
    pub height: usize,
    pub rgba: Seq<u8>,
}

/// An image ready to become an egui texture: unmultiplied RGBA bytes, exactly
/// four per pixel.
#[derive(Debug)]
pub struct TextureImage {
    width: usize,
    height: usize,
    rgba: Vec<u8>,
}

impl View for TextureImage {
    type V = TextureView;

    closed spec fn view(&self) -> TextureView {
        TextureView { width: self.width, height: self.height, rgba: self.rgba@ }
    }
}

impl TextureImage {
    #[verifier::type_invariant]
    spec fn four_bytes_per_pixel(self) -> bool {
        self.rgba@.len() == self.width * self.height * 4
    }

    /// Makes a texture image of `width` x `height` pixels from RGBA bytes;
    /// `None` when the bytes are not exactly four per pixel.
    pub fn from_rgba8(width: u32, height: u32, rgba: Vec<u8>) -> (res: Option<TextureImage>)
        ensures
            res is Some <==> rgba@.len() == width * height * 4,
            res matches Some(t) ==> t@ == (TextureView {
                width: width as usize,
                height: height as usize,
                rgba: rgba@,
            }),
    {
        let w: u128 = width as u128;
        let h: u128 = height as u128;
        assert(w * h <= 0xffff_ffff_ffff_ffff) by (nonlinear_arith)
            requires
                w <= 0xffff_ffff,
                h <= 0xffff_ffff,
        ;
        let wanted: u128 = w * h * 4;
        if (rgba.len() as u128) == wanted {
            Some(TextureImage { width: width as usize, height: height as usize, rgba })
        } else {
            None
        }
    }

    /// Width in pixels.
    pub fn width(&self) -> (res: usize)
        ensures
            res == self@.width,
    {
        self.width
    }

    /// Height in pixels.
    pub fn height(&self) -> (res: usize)
        ensures
            res == self@.height,
    {
        self.height
    }

    /// The RGBA bytes, exactly four per pixel.
    pub fn rgba(&self) -> (res: &Vec<u8>)
        ensures
            res@ == self@.rgba,
            res@.len() == self@.width * self@.height * 4,
    {
        proof {
            use_type_invariant(self);
        }
        &self.rgba
    }

    /// Turns the texture image into the egui image that the UI uploads as a
    /// texture (egui premultiplies the alpha).
    pub fn to_color_image(&self) -> (res: egui::ColorImage)
        ensures
            color_image_size(res) == (self@.width, self@.height),
            premultiplies(self@.rgba, color_image_pixels(res)),
    {
        proof {
            use_type_invariant(self);
        }
        let size: [usize; 2] = [self.width, self.height];
        color_image_from_rgba_unmultiplied(size, self.rgba.as_slice())
    }
}

/// The texture that the bytes of a PNG file give: the RGBA8 form of the
/// decoded image, or `None` when the bytes do not decode.
pub open spec fn spec_decoded_texture(bytes: Seq<u8>) -> Option<TextureView> {
    match png_rgba8(bytes) {
        None => None,
        Some((width, height, rgba)) => Some(
            TextureView { width: width as usize, height: height as usize, rgba },
        ),
    }
}

/// Decodes the bytes of a PNG file (such as the embedded image) into a
/// texture image, in RGBA8: `None` exactly when the bytes do not decode.
pub fn decode_texture(bytes: &[u8]) -> (res: Option<TextureImage>)
    ensures
        res is Some <==> spec_decoded_texture(bytes@) is Some,
        res matches Some(t) ==> spec_decoded_texture(bytes@) == Some(t@),
        res matches Some(t) ==> t@.rgba.len() == t@.width * t@.height * 4,
        png_rgba8(bytes@) is None ==> res is None,
        png_rgba8(bytes@) matches Some((w, h, px)) ==> (res matches Some(t) && t@.width == w
            && t@.height == h && t@.rgba == px),
{
    match load_png(bytes) {
        Err(_) => None,
        Ok(image) => {
            let (width, height, rgba) = to_rgba8(&image);
            TextureImage::from_rgba8(width, height, rgba)
        },
    }
}

/// Decoding law: the texture of a PNG file is exactly the RGBA8 form of the
/// decoded image, with the image's own width and height in that order and its
/// samples, alpha included, unchanged; bytes that do not decode give none.
pub proof fn lemma_decoded_texture_is_the_rgba8_image(bytes: Seq<u8>)
    ensures
        png_rgba8(bytes) is None ==> spec_decoded_texture(bytes) is None,
        png_rgba8(bytes) matches Some((w, h, px)) ==> (spec_decoded_texture(bytes) matches Some(t)
            && t.width == w && t.height == h && t.rgba == px),
{
}

} // verus!
