//! Telling what kind of image some bytes are, and how large it is.

use crate::strings::{ends_with, is_suffix, replace_char, replaced};
use crate::validation::{outcome, text_outcome, ValidationError, ValidationErrorView};
use bytes::Bytes;
use vstd::prelude::*;
use vstd::string::StringExecFns;

verus! {

#[verifier::external_type_specification]
#[verifier::external_body]
pub struct ExBytes(Bytes);

/// The bytes that a buffer holds.
pub uninterp spec fn held(data: Bytes) -> Seq<u8>;

/// The buffer as a slice (`AsRef<[u8]>`): the bytes that it holds.
#[verifier::external_body]
pub(crate) fn as_slice(data: &Bytes) -> (r: &[u8])
    ensures
        r@ == held(*data),
{
    data.as_ref()
}

/// The image formats that are told apart.
#[derive(Copy, Clone, PartialEq, Eq, Debug, Structural)]
pub enum ImageFormat {
    Jpg,
    Png,
    Webp,
    Gif,
}

/// What the header of an image says of it.
#[derive(Copy, Clone, PartialEq, Eq, Debug, Structural)]
pub struct ImageData {
    pub height: u32,
    pub width: u32,
    pub format: ImageFormat,
}

/// The smallest and the largest side of an icon, in pixels.
pub const ICON_MIN_SIDE: u32 = 96;

pub const ICON_MAX_SIDE: u32 = 2048;

/// The media type of a format.
pub open spec fn media_type(format: ImageFormat) -> Seq<char> {
    match format {
        ImageFormat::Jpg => "image/jpeg"@,
        ImageFormat::Png => "image/png"@,
        ImageFormat::Webp => "image/webp"@,
        ImageFormat::Gif => "image/gif"@,
    }
}

/// Two bytes as a number, the first one weighing most.
pub open spec fn be16(high: u8, low: u8) -> nat {
    high as nat * 256 + low as nat
}

/// Four bytes as a number, the first one weighing most.
pub open spec fn be32(b0: u8, b1: u8, b2: u8, b3: u8) -> nat {
    b0 as nat * 16777216 + b1 as nat * 65536 + b2 as nat * 256 + b3 as nat
}

/// Three bytes as a number, the first one weighing least.
pub open spec fn le24(b0: u8, b1: u8, b2: u8) -> nat {
    b2 as nat * 65536 + b1 as nat * 256 + b0 as nat
}

/// Whether `data` has `prefix` at `at`.
pub open spec fn has_at(data: Seq<u8>, at: int, prefix: Seq<u8>) -> bool {
    0 <= at && at + prefix.len() <= data.len() && data.subrange(at, at + prefix.len()) == prefix
}

/// The start of every JPEG file.
pub open spec fn jpeg_magic() -> Seq<u8> {
    seq![0xFFu8, 0xD8u8, 0xFFu8]
}

/// The start of every PNG file.
pub open spec fn png_magic() -> Seq<u8> {
    seq![0x89u8, 0x50u8, 0x4Eu8, 0x47u8, 0x0Du8, 0x0Au8, 0x1Au8, 0x0Au8]
}

/// `RIFF`, the start of every WebP file.
pub open spec fn riff_magic() -> Seq<u8> {
    seq![0x52u8, 0x49u8, 0x46u8, 0x46u8]
}

/// `WEBP`, which follows the length in a WebP file.
pub open spec fn webp_magic() -> Seq<u8> {
    seq![0x57u8, 0x45u8, 0x42u8, 0x50u8]
}

/// `IHDR`, the name of the first chunk of a PNG file.
pub open spec fn ihdr_tag() -> Seq<u8> {
    seq![0x49u8, 0x48u8, 0x44u8, 0x52u8]
}

/// `VP8X`, the chunk of an extended WebP file.
pub open spec fn vp8x_tag() -> Seq<u8> {
    seq![0x56u8, 0x50u8, 0x38u8, 0x58u8]
}

/// `VP8 `, the chunk of a lossy WebP file.
pub open spec fn vp8_tag() -> Seq<u8> {
    seq![0x56u8, 0x50u8, 0x38u8, 0x20u8]
}

/// `VP8L`, the chunk of a lossless WebP file.
pub open spec fn vp8l_tag() -> Seq<u8> {
    seq![0x56u8, 0x50u8, 0x38u8, 0x4Cu8]
}

/// The format that the first bytes announce: JPEG, PNG or WebP. A file that
/// starts with `RIFF` and is too short to say `WEBP` announces nothing.
pub open spec fn announced(data: Seq<u8>) -> Option<ImageFormat> {
    if has_at(data, 0, jpeg_magic()) {
        Some(ImageFormat::Jpg)
    } else if has_at(data, 0, png_magic()) {
        Some(ImageFormat::Png)
    } else if has_at(data, 0, riff_magic()) && has_at(data, 8, webp_magic()) {
        Some(ImageFormat::Webp)
    } else {
        None
    }
}

/// The name under which an image is stored: slashes become hyphens, and the
/// extension of the announced format is added unless the name has it already
/// (`.jpeg` counts for JPEG).
pub open spec fn stored_name(path: Seq<char>, data: Seq<u8>) -> Seq<char> {
    let flat = replaced(path, '/', '-');
    match announced(data) {
        Some(ImageFormat::Jpg) => if is_suffix(flat, ".jpg"@) || is_suffix(flat, ".jpeg"@) {
            flat
        } else {
            flat + ".jpg"@
        },
        Some(ImageFormat::Png) => if is_suffix(flat, ".png"@) {
            flat
        } else {
            flat + ".png"@
        },
        Some(ImageFormat::Webp) => if is_suffix(flat, ".webp"@) {
            flat
        } else {
            flat + ".webp"@
        },
        _ => flat,
    }
}

/// A marker that starts a frame: `C0` to `CF` but for `C4`, `C8` and `CC`.
pub open spec fn is_frame_marker(marker: u8) -> bool {
    0xC0 <= marker <= 0xCF && marker != 0xC4 && marker != 0xC8 && marker != 0xCC
}

/// Height and width in the first frame header that a walk over the segments
/// of a JPEG file reaches from `at`, with nine bytes still ahead of it. A
/// byte that is not `FF` is stepped over; after another marker the segment is
/// skipped by the length that it gives; a walk that runs out of bytes finds
/// nothing.
pub open spec fn frame_from(data: Seq<u8>, at: int) -> Option<(nat, nat)>
    decreases data.len() - at,
{
    if at < 0 || at + 9 > data.len() {
        None
    } else if data[at] != 0xFF {
        frame_from(data, at + 1)
    } else if is_frame_marker(data[at + 1]) {
        Some((be16(data[at + 5], data[at + 6]), be16(data[at + 7], data[at + 8])))
    } else {
        let next = at + 2 + be16(data[at + 2], data[at + 3]);
        if next + 9 > data.len() {
            None
        } else {
            frame_from(data, next)
        }
    }
}

/// What a JPEG file says of its size.
pub open spec fn jpeg_outcome(data: Seq<u8>) -> Result<ImageData, ValidationErrorView> {
    if data.len() < 2 {
        Err(ValidationErrorView::ImageTooShort { needed: 2, got: data.len() as usize })
    } else {
        match frame_from(data, 2) {
            Some((height, width)) => Ok(
                ImageData { height: height as u32, width: width as u32, format: ImageFormat::Jpg },
            ),
            None => Err(
                ValidationErrorView::InvalidImageFormat {
                    format: "JPEG"@,
                    reason: "no Start of Frame marker found"@,
                },
            ),
        }
    }
}

/// What a PNG file says of its size: width and height stand in its first
/// chunk, which must be `IHDR`, and neither may be zero.
pub open spec fn png_outcome(data: Seq<u8>) -> Result<ImageData, ValidationErrorView> {
    if data.len() < 29 {
        Err(ValidationErrorView::ImageTooShort { needed: 29, got: data.len() as usize })
    } else if !has_at(data, 12, ihdr_tag()) {
        Err(
            ValidationErrorView::InvalidImageFormat {
                format: "PNG"@,
                reason: "missing IHDR chunk"@,
            },
        )
    } else {
        let width = be32(data[16], data[17], data[18], data[19]);
        let height = be32(data[20], data[21], data[22], data[23]);
        if width == 0 || height == 0 {
            Err(
                ValidationErrorView::InvalidImageFormat {
                    format: "PNG"@,
                    reason: "width or height is zero"@,
                },
            )
        } else {
            Ok(ImageData { height: height as u32, width: width as u32, format: ImageFormat::Png })
        }
    }
}

/// What a WebP file says of its size, by the kind of its first chunk.
pub open spec fn webp_outcome(data: Seq<u8>) -> Result<ImageData, ValidationErrorView> {
    if data.len() < 30 {
        Err(ValidationErrorView::ImageTooShort { needed: 30, got: data.len() as usize })
    } else if has_at(data, 12, vp8x_tag()) {
        Ok(
            ImageData {
                height: (1 + le24(data[23], data[24], data[25])) as u32,
                width: (1 + le24(data[20], data[21], data[22])) as u32,
                format: ImageFormat::Webp,
            },
        )
    } else if has_at(data, 12, vp8_tag()) {
        let width = be16(data[27], data[26]) % 16384;
        let height = be16(data[29], data[28]) % 16384;
        if width == 0 || height == 0 {
            Err(
                ValidationErrorView::InvalidImageFormat {
                    format: "WebP"@,
                    reason: "VP8 width or height is zero"@,
                },
            )
        } else {
            Ok(ImageData { height: height as u32, width: width as u32, format: ImageFormat::Webp })
        }
    } else if has_at(data, 12, vp8l_tag()) {
        let bits = be32(data[24], data[23], data[22], data[21]);
        let width = 1 + bits % 16384;
        let height = 1 + (bits / 16384) % 16384;
        if width == 1 || height == 1 {
            Err(
                ValidationErrorView::InvalidImageFormat {
                    format: "WebP"@,
                    reason: "VP8L width or height is invalid"@,
                },
            )
        } else {
            Ok(ImageData { height: height as u32, width: width as u32, format: ImageFormat::Webp })
        }
    } else {
        Err(
            ValidationErrorView::InvalidImageFormat {
                format: "WebP"@,
                reason: "unrecognized chunk type (expected VP8, VP8L, or VP8X)"@,
            },
        )
    }
}

/// What a GIF file says of its size.
pub open spec fn gif_outcome(data: Seq<u8>) -> Result<ImageData, ValidationErrorView> {
    if data.len() < 10 {
        Err(ValidationErrorView::ImageTooShort { needed: 10, got: data.len() as usize })
    } else {
        let width = be16(data[7], data[6]);
        let height = be16(data[9], data[8]);
        if width == 0 || height == 0 {
            Err(
                ValidationErrorView::InvalidImageFormat {
                    format: "GIF"@,
                    reason: "width or height is zero"@,
                },
            )
        } else {
            Ok(ImageData { height: height as u32, width: width as u32, format: ImageFormat::Gif })
        }
    }
}

/// What some bytes say of the image that they are.
pub open spec fn image_outcome(data: Seq<u8>) -> Result<ImageData, ValidationErrorView> {
    match announced(data) {
        Some(ImageFormat::Jpg) => jpeg_outcome(data),
        Some(ImageFormat::Png) => png_outcome(data),
        Some(ImageFormat::Webp) => webp_outcome(data),
        _ => Err(ValidationErrorView::UnknownImageFormat),
    }
}

/// Whether an image can be an icon: square, with a side of 96 to 2048
/// pixels. The answer is its media type.
pub open spec fn icon_outcome(data: Seq<u8>) -> Result<Seq<char>, ValidationErrorView> {
    match image_outcome(data) {
        Err(error) => Err(error),
        Ok(image) => if image.height != image.width {
            Err(ValidationErrorView::InvalidData("Icon should be of ratio 1:1"@))
        } else if image.height < ICON_MIN_SIDE {
            Err(ValidationErrorView::InvalidData("Icon too small: min 96x96"@))
        } else if image.height > ICON_MAX_SIDE {
            Err(ValidationErrorView::InvalidData("Icon too large: max 2048x2048"@))
        } else {
            Ok(media_type(image.format))
        },
    }
}

/// Whether an image can be a banner: any image of a known format can. The
/// answer is its media type.
pub open spec fn banner_outcome(data: Seq<u8>) -> Result<Seq<char>, ValidationErrorView> {
    match image_outcome(data) {
        Err(error) => Err(error),
        Ok(image) => Ok(media_type(image.format)),
    }
}

impl ImageFormat {
    /// The media type of the format.
    pub fn to_string(&self) -> (r: String)
        ensures
            r@ == media_type(*self),
    {
        match self {
            ImageFormat::Jpg => "image/jpeg".to_owned(),
            ImageFormat::Png => "image/png".to_owned(),
            ImageFormat::Webp => "image/webp".to_owned(),
            ImageFormat::Gif => "image/gif".to_owned(),
        }
    }
}

fn read_be16(high: u8, low: u8) -> (r: u32)
    ensures
        r == be16(high, low),
        r < 65536,
{
    high as u32 * 256 + low as u32
}

fn read_be32(b0: u8, b1: u8, b2: u8, b3: u8) -> (r: u32)
    ensures
        r == be32(b0, b1, b2, b3),
{
    b0 as u32 * 16777216 + b1 as u32 * 65536 + b2 as u32 * 256 + b3 as u32
}

fn read_le24(b0: u8, b1: u8, b2: u8) -> (r: u32)
    ensures
        r == le24(b0, b1, b2),
        r < 16777216,
{
    b2 as u32 * 65536 + b1 as u32 * 256 + b0 as u32
}

/// Whether `data` has the bytes of `prefix` at `at`.
fn starts_at(data: &[u8], at: usize, prefix: &[u8]) -> (r: bool)
    requires
        at + prefix@.len() <= usize::MAX,
    ensures
        r == has_at(data@, at as int, prefix@),
{
    if data.len() < prefix.len() || at > data.len() - prefix.len() {
        return false;
    }
    let mut k: usize = 0;
    while k < prefix.len()
        invariant
            k <= prefix@.len(),
            at + prefix@.len() <= data@.len() <= usize::MAX,
            forall|j: int| 0 <= j < k ==> data@[at + j] == prefix@[j],
        decreases prefix@.len() - k,
    {
        if data[at + k] != prefix[k] {
            assert(data@.subrange(at as int, at + prefix@.len())[k as int] != prefix@[k as int]);
            return false;
        }
        k += 1;
    }
    assert(data@.subrange(at as int, at + prefix@.len()) =~= prefix@);
    true
}

fn invalid_format(format: &str, reason: &str) -> (r: ValidationError)
    ensures
        r@ == (ValidationErrorView::InvalidImageFormat { format: format@, reason: reason@ }),
{
    ValidationError::InvalidImageFormat { format: format.to_owned(), reason: reason.to_owned() }
}

/// Reads the size of a JPEG image from its first frame header.
pub fn jpeg_resolution(data: &[u8]) -> (r: Result<ImageData, ValidationError>)
    ensures
        outcome(r) == jpeg_outcome(data@),
{
    let len = data.len();
    if len < 2 {
        return Err(ValidationError::ImageTooShort { needed: 2, got: len });
    }
    let mut i: usize = 2;
    while len >= 9 && i <= len - 9
        invariant
            len == data@.len(),
            frame_from(data@, i as int) == frame_from(data@, 2),
        decreases len - i,
    {
        if data[i] != 0xFF {
            i += 1;
        } else {
            let marker = data[i + 1];
            if 0xC0 <= marker && marker <= 0xCF && marker != 0xC4 && marker != 0xC8 && marker
                != 0xCC {
                let height = read_be16(data[i + 5], data[i + 6]);
                let width = read_be16(data[i + 7], data[i + 8]);
                return Ok(ImageData { height, width, format: ImageFormat::Jpg });
            }
            let skip = read_be16(data[i + 2], data[i + 3]) as usize;
            if skip > len - (i + 2) {
                return Err(invalid_format("JPEG", "no Start of Frame marker found"));
            }
            i = i + 2 + skip;
        }
    }
    Err(invalid_format("JPEG", "no Start of Frame marker found"))
}

/// Reads the size of a PNG image from its header chunk.
pub fn png_resolution(data: &[u8]) -> (r: Result<ImageData, ValidationError>)
    ensures
        outcome(r) == png_outcome(data@),
{
    let len = data.len();
    if len < 29 {
        return Err(ValidationError::ImageTooShort { needed: 29, got: len });
    }
    let tag: [u8; 4] = [0x49, 0x48, 0x44, 0x52];
    assert(tag@ =~= ihdr_tag());
    if !starts_at(data, 12, tag.as_slice()) {
        return Err(invalid_format("PNG", "missing IHDR chunk"));
    }
    let width = read_be32(data[16], data[17], data[18], data[19]);
    let height = read_be32(data[20], data[21], data[22], data[23]);
    if width == 0 || height == 0 {
        return Err(invalid_format("PNG", "width or height is zero"));
    }
    Ok(ImageData { height, width, format: ImageFormat::Png })
}

/// Reads the size of a WebP image from its first chunk.
pub fn webp_resolution(data: &[u8]) -> (r: Result<ImageData, ValidationError>)
    ensures
        outcome(r) == webp_outcome(data@),
{
    let len = data.len();
    if len < 30 {
        return Err(ValidationError::ImageTooShort { needed: 30, got: len });
    }
    let extended: [u8; 4] = [0x56, 0x50, 0x38, 0x58];
    let lossy: [u8; 4] = [0x56, 0x50, 0x38, 0x20];
    let lossless: [u8; 4] = [0x56, 0x50, 0x38, 0x4C];
    assert(extended@ =~= vp8x_tag());
    assert(lossy@ =~= vp8_tag());
    assert(lossless@ =~= vp8l_tag());
    if starts_at(data, 12, extended.as_slice()) {
        let w = 1 + read_le24(data[20], data[21], data[22]);
        let h = 1 + read_le24(data[23], data[24], data[25]);
        return Ok(ImageData { height: h, width: w, format: ImageFormat::Webp });
    }
    if starts_at(data, 12, lossy.as_slice()) {
        let width = read_be16(data[27], data[26]) % 16384;
        let height = read_be16(data[29], data[28]) % 16384;
        if width == 0 || height == 0 {
            return Err(invalid_format("WebP", "VP8 width or height is zero"));
        }
        return Ok(ImageData { height, width, format: ImageFormat::Webp });
    }
    if starts_at(data, 12, lossless.as_slice()) {
        let bits = read_be32(data[24], data[23], data[22], data[21]);
        let w = 1 + bits % 16384;
        let h = 1 + (bits / 16384) % 16384;
        if w == 1 || h == 1 {
            return Err(invalid_format("WebP", "VP8L width or height is invalid"));
        }
        return Ok(ImageData { height: h, width: w, format: ImageFormat::Webp });
    }
    Err(invalid_format("WebP", "unrecognized chunk type (expected VP8, VP8L, or VP8X)"))
}

/// Reads the size of a GIF image from its screen descriptor.
pub fn gif_resolution(data: &[u8]) -> (r: Result<ImageData, ValidationError>)
    ensures
        outcome(r) == gif_outcome(data@),
{
    let len = data.len();
    if len < 10 {
        return Err(ValidationError::ImageTooShort { needed: 10, got: len });
    }
    let width = read_be16(data[7], data[6]);
    let height = read_be16(data[9], data[8]);
    if width == 0 || height == 0 {
        return Err(invalid_format("GIF", "width or height is zero"));
    }
    Ok(ImageData { width, height, format: ImageFormat::Gif })
}

/// Tells the format of an image from its first bytes, gives the file name
/// the matching extension, and reads the size of the image.
pub fn get_image_data(filepath: &mut String, data: &[u8]) -> (r: Result<ImageData, ValidationError>)
    ensures
        outcome(r) == image_outcome(data@),
        final(filepath)@ == stored_name(old(filepath)@, data@),
{
    *filepath = replace_char(filepath.as_str(), '/', '-');
    let jpeg: [u8; 3] = [0xFF, 0xD8, 0xFF];
    let png: [u8; 8] = [0x89, 0x50, 0x4E, 0x47, 0x0D, 0x0A, 0x1A, 0x0A];
    let riff: [u8; 4] = [0x52, 0x49, 0x46, 0x46];
    let webp: [u8; 4] = [0x57, 0x45, 0x42, 0x50];
    assert(jpeg@ =~= jpeg_magic());
    assert(png@ =~= png_magic());
    assert(riff@ =~= riff_magic());
    assert(webp@ =~= webp_magic());
    if starts_at(data, 0, jpeg.as_slice()) {
        if !ends_with(filepath.as_str(), ".jpg") && !ends_with(filepath.as_str(), ".jpeg") {
            filepath.append(".jpg");
        }
        return jpeg_resolution(data);
    }
    if starts_at(data, 0, png.as_slice()) {
        if !ends_with(filepath.as_str(), ".png") {
            filepath.append(".png");
        }
        return png_resolution(data);
    }
    if starts_at(data, 0, riff.as_slice()) && starts_at(data, 8, webp.as_slice()) {
        if !ends_with(filepath.as_str(), ".webp") {
            filepath.append(".webp");
        }
        return webp_resolution(data);
    }
    Err(ValidationError::UnknownImageFormat)
}

/// Decides whether an image can be an icon, given what its header says.
pub fn check_icon(image: Result<ImageData, ValidationError>) -> (r: Result<String, ValidationError>)
    ensures
        text_outcome(r) == match outcome(image) {
            Err(error) => Err(error),
            Ok(image) => if image.height != image.width {
                Err(ValidationErrorView::InvalidData("Icon should be of ratio 1:1"@))
            } else if image.height < ICON_MIN_SIDE {
                Err(ValidationErrorView::InvalidData("Icon too small: min 96x96"@))
            } else if image.height > ICON_MAX_SIDE {
                Err(ValidationErrorView::InvalidData("Icon too large: max 2048x2048"@))
            } else {
                Ok(media_type(image.format))
            },
        },
{
    match image {
        Err(error) => Err(error),
        Ok(imgdata) => {
            if imgdata.height != imgdata.width {
                return Err(ValidationError::InvalidData("Icon should be of ratio 1:1".to_owned()));
            }
            if imgdata.height < ICON_MIN_SIDE {
                return Err(ValidationError::InvalidData("Icon too small: min 96x96".to_owned()));
            }
            if imgdata.height > ICON_MAX_SIDE {
                return Err(ValidationError::InvalidData("Icon too large: max 2048x2048".to_owned()));
            }
            Ok(imgdata.format.to_string())
        },
    }
}

/// Checks that a buffer holds an image that can be an icon, and names its
/// media type. The file name gets the stored form on the way.
pub fn is_icon_valid(filepath: &mut String, data: &Bytes) -> (r: Result<String, ValidationError>)
    ensures
        text_outcome(r) == icon_outcome(held(*data)),
        final(filepath)@ == stored_name(old(filepath)@, held(*data)),
{
    let imgdata = get_image_data(filepath, as_slice(data));
    check_icon(imgdata)
}

/// Checks that a buffer holds an image that can be a banner, and names its
/// media type. The file name gets the stored form on the way.
pub fn is_banner_valid(filepath: &mut String, data: &Bytes) -> (r: Result<String, ValidationError>)
    ensures
        text_outcome(r) == banner_outcome(held(*data)),
        final(filepath)@ == stored_name(old(filepath)@, held(*data)),
{
    match get_image_data(filepath, as_slice(data)) {
        Ok(imgdata) => Ok(imgdata.format.to_string()),
        Err(error) => Err(error),
    }
}

} // verus!
