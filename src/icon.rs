//! The icon converter: one source raster image becomes a multi-resolution
//! icon container, each size resampled from the original.

use vstd::prelude::*;
use crate::error::{error_detail, Error};
use crate::text::join2;
use icns::{IconFamily, IconType, PixelFormat};
use image::imageops::FilterType;
use image::{DynamicImage, ImageError};

verus! {

/// image::DynamicImage, a decoded image; carried through unopened.
#[verifier::external_type_specification]
#[verifier::external_body]
pub struct ExDynamicImage(DynamicImage);

/// image::ImageError, why decoding failed; only told apart from success.
#[verifier::external_type_specification]
#[verifier::external_body]
pub struct ExImageError(ImageError);

/// image::imageops::FilterType, the resampling filters, a fieldless enum.
#[verifier::external_type_specification]
pub struct ExFilterType(FilterType);

/// icns::Image, pixel data of one icon size; carried through unopened.
#[verifier::external_type_specification]
#[verifier::external_body]
pub struct ExIcnsImage(icns::Image);

/// icns::IconFamily, the icon container being filled; carried through unopened.
#[verifier::external_type_specification]
#[verifier::external_body]
pub struct ExIconFamily(IconFamily);

/// icns::IconType, the kinds of icon in a container, a fieldless enum.
#[verifier::external_type_specification]
pub struct ExIconType(IconType);

/// icns::PixelFormat, the pixel layouts of icon data, a fieldless enum.
#[verifier::external_type_specification]
pub struct ExPixelFormat(PixelFormat);

/// std::io::Error, as returned by the icon container's encoder; only told apart from success.
#[verifier::external_type_specification]
#[verifier::external_body]
pub struct ExIoError(std::io::Error);

/// Whether the image crate decodes `bytes` into an image. What
/// image::load_from_memory returns depends on the bytes alone.
pub uninterp spec fn decodes(bytes: Seq<u8>) -> bool;

/// Relies on image::load_from_memory, which guesses the format from the
/// bytes and decodes them.
pub assume_specification[ image::load_from_memory ](buffer: &[u8]) -> (r: Result<DynamicImage, ImageError>)
    ensures
        r is Ok <==> decodes(buffer@),
;

/// Bits per pixel of each pixel layout, as icns::PixelFormat::bits_per_pixel
/// gives them.
pub open spec fn bits_per_pixel(format: PixelFormat) -> int {
    match format {
        PixelFormat::RGBA => 32,
        PixelFormat::RGB => 24,
        PixelFormat::GrayAlpha => 16,
        PixelFormat::Gray => 8,
        PixelFormat::Alpha => 8,
    }
}

/// The icon image that icns::Image::from_data makes of its arguments: a
/// record of the format, the dimensions and the pixel data.
pub uninterp spec fn icns_image_of(format: PixelFormat, width: u32, height: u32, data: Seq<u8>) -> icns::Image;

/// Relies on icns::Image::from_data, which wraps pixel data of the given
/// format and dimensions, and refuses data whose length is not the bits of
/// all pixels rounded up to bytes. It computes that bit count in `u32`,
/// hence the bound.
pub assume_specification[ icns::Image::from_data ](
    format: PixelFormat,
    width: u32,
    height: u32,
    data: Vec<u8>,
) -> (r: std::io::Result<icns::Image>)
    requires
        32 * (width as int) * (height as int) + 7 <= u32::MAX,
    ensures
        r is Ok <==> data@.len() == (bits_per_pixel(format) * width * height + 7) / 8,
        r matches Ok(img) ==> img == icns_image_of(format, width, height, data@),
;

/// Relies on icns::IconFamily::new, an empty icon family.
pub assume_specification[ IconFamily::new ]() -> IconFamily;

/// The pixel width and height of an RGBA icon type, as
/// icns::IconType::pixel_width gives them; `None` for the other types.
pub open spec fn rgba32_pixels(t: IconType) -> Option<u32> {
    match t {
        IconType::RGBA32_16x16 => Some(16),
        IconType::RGBA32_16x16_2x => Some(32),
        IconType::RGBA32_32x32 => Some(32),
        IconType::RGBA32_32x32_2x => Some(64),
        IconType::RGBA32_64x64 => Some(64),
        IconType::RGBA32_128x128 => Some(128),
        IconType::RGBA32_128x128_2x => Some(256),
        IconType::RGBA32_256x256 => Some(256),
        IconType::RGBA32_256x256_2x => Some(512),
        IconType::RGBA32_512x512 => Some(512),
        IconType::RGBA32_512x512_2x => Some(1024),
        _ => None,
    }
}

/// Whether `image` is RGBA data of exactly the dimensions of the RGBA icon
/// type `t`.
pub open spec fn fits_rgba_type(image: icns::Image, t: IconType) -> bool {
    match rgba32_pixels(t) {
        Some(p) => exists|d: Seq<u8>|
            d.len() == 4 * p * p && image == #[trigger] icns_image_of(PixelFormat::RGBA, p, p, d),
        None => false,
    }
}

/// Relies on icns::IconFamily::add_icon_with_type, which encodes the image
/// into the family under the given type. It fails only when the image's
/// dimensions differ from the type's; RGBA types are stored as PNG, which
/// encodes any RGBA data of the right length.
pub assume_specification[ IconFamily::add_icon_with_type ](
    family: &mut IconFamily,
    image: &icns::Image,
    icon_type: IconType,
) -> (r: std::io::Result<()>)
    ensures
        fits_rgba_type(*image, icon_type) ==> r is Ok,
;

/// Relies on image::DynamicImage::resize_exact, which resamples the image
/// to exactly `size` by `size` pixels with `filter`; the result is converted
/// to 8-bit RGBA bytes, row by row, four per pixel.
#[verifier::external_body]
fn resize_exact_rgba(img: &DynamicImage, size: u32, filter: FilterType) -> (r: Vec<u8>)
    ensures
        r@.len() == 4 * (size as int) * (size as int),
{
    img.resize_exact(size, size, filter).to_rgba8().into_raw()
}

/// Relies on icns::IconFamily::write, which writes the family in the icon
/// container format; here into memory, which does not fail.
#[verifier::external_body]
fn write_family(family: &IconFamily) -> (r: std::io::Result<Vec<u8>>)
    ensures
        r is Ok,
{
    let mut bytes: Vec<u8> = Vec::new();
    family.write(&mut bytes)?;
    Ok(bytes)
}

/// The icon sizes of the container in pixels, standard and double density of
/// 16, 32, 128, 256 and 512 points.
pub open spec fn icon_sizes() -> Seq<u32> {
    seq![16, 32, 32, 64, 128, 256, 256, 512, 512, 1024]
}

/// The icon type of each size.
pub open spec fn icon_types() -> Seq<IconType> {
    seq![
        IconType::RGBA32_16x16,
        IconType::RGBA32_16x16_2x,
        IconType::RGBA32_32x32,
        IconType::RGBA32_32x32_2x,
        IconType::RGBA32_128x128,
        IconType::RGBA32_128x128_2x,
        IconType::RGBA32_256x256,
        IconType::RGBA32_256x256_2x,
        IconType::RGBA32_512x512,
        IconType::RGBA32_512x512_2x,
    ]
}

/// The icon layers to produce: each type with its size in pixels.
pub fn icon_layers() -> (r: Vec<(IconType, u32)>)
    ensures
        r@.len() == 10,
        forall|i: int| 0 <= i < 10 ==> #[trigger] r@[i] == (icon_types()[i], icon_sizes()[i]),
{
    let r = vec![
        (IconType::RGBA32_16x16, 16u32),
        (IconType::RGBA32_16x16_2x, 32u32),
        (IconType::RGBA32_32x32, 32u32),
        (IconType::RGBA32_32x32_2x, 64u32),
        (IconType::RGBA32_128x128, 128u32),
        (IconType::RGBA32_128x128_2x, 256u32),
        (IconType::RGBA32_256x256, 256u32),
        (IconType::RGBA32_256x256_2x, 512u32),
        (IconType::RGBA32_512x512, 512u32),
        (IconType::RGBA32_512x512_2x, 1024u32),
    ];
    r
}

/// Whether `e` is an image error whose text begins with `path`.
pub open spec fn names_source(e: Error, path: Seq<char>) -> bool {
    &&& e is Image
    &&& error_detail(e).len() >= path.len()
    &&& error_detail(e).subrange(0, path.len() as int) == path
}

/// The error for a source image that could not be turned into icons.
pub fn icon_error(source_path: &str, reason: &str) -> (r: Error)
    ensures
        r matches Error::Image(s) && s@ == source_path@ + ": "@ + reason@,
        names_source(r, source_path@),
{
    let mut s = join2(source_path, ": ");
    s.append(reason);
    assert(s@.subrange(0, source_path@.len() as int) =~= source_path@);
    Error::Image(s)
}

proof fn lemma_layer_fits(i: int)
    requires
        0 <= i < 10,
    ensures
        rgba32_pixels(icon_types()[i]) == Some(icon_sizes()[i]),
        icon_sizes()[i] <= 1024,
{
}

/// Converts the image in `bytes`, read from `source_path`, into an icon
/// container holding every size of [`icon_layers`], each resampled with a
/// Lanczos filter from the original. It succeeds exactly when the bytes
/// decode; otherwise the error is an image error that names `source_path`.
pub fn generate_icns_from_image(source_path: &str, bytes: &[u8]) -> (r: Result<Vec<u8>, Error>)
    ensures
        r is Ok <==> decodes(bytes@),
        r matches Err(e) ==> names_source(e, source_path@),
{
    let img = match image::load_from_memory(bytes) {
        Ok(img) => img,
        Err(_) => return Err(icon_error(source_path, "the image could not be decoded")),
    };
    let layers = icon_layers();
    let mut family = IconFamily::new();
    let mut i: usize = 0;
    while i < layers.len()
        invariant
            decodes(bytes@),
            i <= layers@.len(),
            layers@.len() == 10,
            forall|q: int| 0 <= q < 10 ==> #[trigger] layers@[q] == (icon_types()[q], icon_sizes()[q]),
        decreases layers@.len() - i,
    {
        let (icon_type, size) = layers[i];
        proof {
            lemma_layer_fits(i as int);
        }
        let ghost x = (size as int) * (size as int);
        assert(x <= 1024 * 1024) by (nonlinear_arith)
            requires
                x == (size as int) * (size as int),
                size <= 1024,
        ;
        let raw = resize_exact_rgba(&img, size, FilterType::Lanczos3);
        let ghost d = raw@;
        assert((32 * x + 7) / 8 == 4 * x);
        let layer = match icns::Image::from_data(PixelFormat::RGBA, size, size, raw) {
            Ok(layer) => layer,
            Err(_) => return Err(icon_error(source_path, "a resampled size could not be built")),
        };
        assert(fits_rgba_type(layer, icon_type)) by {
            assert(layers@[i as int] == (icon_types()[i as int], icon_sizes()[i as int]));
            assert(rgba32_pixels(icon_type) == Some(size));
            assert(d.len() == 4 * size * size);
            assert(layer == icns_image_of(PixelFormat::RGBA, size, size, d));
            let p = rgba32_pixels(icon_type)->0;
            assert(p == size);
            assert(d.len() == 4 * p * p && layer == icns_image_of(PixelFormat::RGBA, p, p, d));
        }
        if family.add_icon_with_type(&layer, icon_type).is_err() {
            return Err(icon_error(source_path, "a size could not be encoded"));
        }
        i = i + 1;
    }
    match write_family(&family) {
        Ok(out) => Ok(out),
        Err(_) => Err(icon_error(source_path, "the icon container could not be written")),
    }
}

} // verus!
