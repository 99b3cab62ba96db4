use bytes::Bytes;
use identity::validation::image::{
    check_icon, get_image_data, gif_resolution, is_banner_valid, is_icon_valid, jpeg_resolution,
    png_resolution, webp_resolution, ImageData, ImageFormat,
};
use identity::validation::ValidationError;

fn png(width: u32, height: u32) -> Vec<u8> {
    let mut data = vec![0x89, 0x50, 0x4E, 0x47, 0x0D, 0x0A, 0x1A, 0x0A, 0, 0, 0, 13];
    data.extend_from_slice(b"IHDR");
    data.extend_from_slice(&width.to_be_bytes());
    data.extend_from_slice(&height.to_be_bytes());
    data.extend_from_slice(&[8, 6, 0, 0, 0]);
    data
}

fn jpeg(width: u16, height: u16) -> Vec<u8> {
    let mut data = vec![0xFF, 0xD8, 0xFF, 0xE0, 0x00, 0x04, 0x00, 0x00];
    data.extend_from_slice(&[0xFF, 0xC0, 0x00, 0x11, 0x08]);
    data.extend_from_slice(&height.to_be_bytes());
    data.extend_from_slice(&width.to_be_bytes());
    data.extend_from_slice(&[0x03, 0x01, 0x22]);
    data
}

fn webp(chunk: &[u8; 4], tail: &[u8]) -> Vec<u8> {
    let mut data = b"RIFF".to_vec();
    data.extend_from_slice(&[0, 0, 0, 0]);
    data.extend_from_slice(b"WEBP");
    data.extend_from_slice(chunk);
    data.extend_from_slice(&[0, 0, 0, 0]);
    data.extend_from_slice(tail);
    data
}

fn invalid(format: &str, reason: &str) -> ValidationError {
    ValidationError::InvalidImageFormat { format: format.to_string(), reason: reason.to_string() }
}

#[test]
fn png_size_is_read_from_the_header() {
    assert_eq!(
        png_resolution(&png(640, 480)),
        Ok(ImageData { height: 480, width: 640, format: ImageFormat::Png })
    );
    assert_eq!(
        png_resolution(&png(0x01020304, 0x0A0B0C0D)),
        Ok(ImageData { height: 0x0A0B0C0D, width: 0x01020304, format: ImageFormat::Png })
    );
    assert_eq!(
        png_resolution(&png(u32::MAX, 1)),
        Ok(ImageData { height: 1, width: u32::MAX, format: ImageFormat::Png })
    );
}

#[test]
fn png_faults() {
    assert_eq!(png_resolution(&png(0, 480)), Err(invalid("PNG", "width or height is zero")));
    assert_eq!(png_resolution(&png(640, 0)), Err(invalid("PNG", "width or height is zero")));
    let mut wrong = png(640, 480);
    wrong[15] = b'X';
    assert_eq!(png_resolution(&wrong), Err(invalid("PNG", "missing IHDR chunk")));
    let short = &png(640, 480)[..28];
    assert_eq!(png_resolution(short), Err(ValidationError::ImageTooShort { needed: 29, got: 28 }));
    assert_eq!(png_resolution(&[]), Err(ValidationError::ImageTooShort { needed: 29, got: 0 }));
}

#[test]
fn jpeg_size_is_read_from_the_first_frame() {
    assert_eq!(
        jpeg_resolution(&jpeg(640, 480)),
        Ok(ImageData { height: 480, width: 640, format: ImageFormat::Jpg })
    );
    assert_eq!(
        jpeg_resolution(&jpeg(0xFFFF, 0x0102)),
        Ok(ImageData { height: 0x0102, width: 0xFFFF, format: ImageFormat::Jpg })
    );
    // bytes that are no marker are stepped over one by one
    let mut padded = vec![0xFF, 0xD8, 0x00, 0x00, 0x00];
    padded.extend_from_slice(&jpeg(96, 97)[8..]);
    assert_eq!(
        jpeg_resolution(&padded),
        Ok(ImageData { height: 97, width: 96, format: ImageFormat::Jpg })
    );
}

#[test]
fn jpeg_faults() {
    let none = invalid("JPEG", "no Start of Frame marker found");
    assert_eq!(jpeg_resolution(&[0xFF]), Err(ValidationError::ImageTooShort { needed: 2, got: 1 }));
    assert_eq!(jpeg_resolution(&[0xFF, 0xD8]), Err(none));
    // a frame header with less than nine bytes from its marker on is not read
    let cut = &jpeg(640, 480)[..16];
    assert_eq!(jpeg_resolution(cut), Err(invalid("JPEG", "no Start of Frame marker found")));
    // C4, C8 and CC start no frame
    for marker in [0xC4u8, 0xC8, 0xCC] {
        let mut data = jpeg(640, 480);
        data[9] = marker;
        assert_eq!(
            jpeg_resolution(&data),
            Err(invalid("JPEG", "no Start of Frame marker found"))
        );
    }
    // a segment that reaches beyond the end
    let mut far = jpeg(640, 480);
    far[4] = 0xFF;
    far[5] = 0xFF;
    assert_eq!(jpeg_resolution(&far), Err(invalid("JPEG", "no Start of Frame marker found")));
}

#[test]
fn every_frame_marker_is_taken() {
    for marker in 0xC0u8..=0xCF {
        if marker == 0xC4 || marker == 0xC8 || marker == 0xCC {
            continue;
        }
        let mut data = jpeg(100, 200);
        data[9] = marker;
        assert_eq!(
            jpeg_resolution(&data),
            Ok(ImageData { height: 200, width: 100, format: ImageFormat::Jpg })
        );
    }
}

#[test]
fn webp_extended() {
    let data = webp(b"VP8X", &[0x5F, 0x00, 0x00, 0xFF, 0x07, 0x00, 0, 0, 0, 0]);
    assert_eq!(data.len(), 30);
    assert_eq!(
        webp_resolution(&data),
        Ok(ImageData { height: 2048, width: 96, format: ImageFormat::Webp })
    );
    let data = webp(b"VP8X", &[0xFF, 0xFF, 0xFF, 0x00, 0x00, 0x01, 0, 0, 0, 0]);
    assert_eq!(
        webp_resolution(&data),
        Ok(ImageData { height: 65537, width: 16777216, format: ImageFormat::Webp })
    );
}

#[test]
fn webp_lossy() {
    let data = webp(b"VP8 ", &[0, 0, 0, 0, 0, 0, 0x60, 0xC0, 0x00, 0x48]);
    assert_eq!(
        webp_resolution(&data),
        Ok(ImageData { height: 0x0800, width: 0x0060, format: ImageFormat::Webp })
    );
    let zero = webp(b"VP8 ", &[0, 0, 0, 0, 0, 0, 0x00, 0xC0, 0x01, 0x00]);
    assert_eq!(webp_resolution(&zero), Err(invalid("WebP", "VP8 width or height is zero")));
}

#[test]
fn webp_lossless() {
    // width - 1 = 95 in bits 0..14, height - 1 = 2047 in bits 14..28
    let bits: u32 = 95 | (2047 << 14);
    let b = bits.to_le_bytes();
    let data = webp(b"VP8L", &[0x2F, b[0], b[1], b[2], b[3], 0, 0, 0, 0, 0]);
    assert_eq!(
        webp_resolution(&data),
        Ok(ImageData { height: 2048, width: 96, format: ImageFormat::Webp })
    );
    let flat = (5u32 << 14).to_le_bytes();
    let data = webp(b"VP8L", &[0x2F, flat[0], flat[1], flat[2], flat[3], 0, 0, 0, 0, 0]);
    assert_eq!(webp_resolution(&data), Err(invalid("WebP", "VP8L width or height is invalid")));
}

#[test]
fn webp_faults() {
    let data = webp(b"ALPH", &[0; 10]);
    assert_eq!(
        webp_resolution(&data),
        Err(invalid("WebP", "unrecognized chunk type (expected VP8, VP8L, or VP8X)"))
    );
    let short = &webp(b"VP8X", &[0; 10])[..29];
    assert_eq!(webp_resolution(short), Err(ValidationError::ImageTooShort { needed: 30, got: 29 }));
}

#[test]
fn gif_size() {
    let mut data = b"GIF89a".to_vec();
    data.extend_from_slice(&[0x40, 0x01, 0xF0, 0x00]);
    assert_eq!(
        gif_resolution(&data),
        Ok(ImageData { height: 240, width: 320, format: ImageFormat::Gif })
    );
    assert_eq!(gif_resolution(&data[..9]), Err(ValidationError::ImageTooShort { needed: 10, got: 9 }));
    data[6] = 0;
    data[7] = 0;
    assert_eq!(gif_resolution(&data), Err(invalid("GIF", "width or height is zero")));
}

#[test]
fn the_format_is_told_from_the_first_bytes() {
    let mut name = "a/b/photo".to_string();
    assert_eq!(
        get_image_data(&mut name, &png(96, 96)),
        Ok(ImageData { height: 96, width: 96, format: ImageFormat::Png })
    );
    assert_eq!(name, "a-b-photo.png");
    let mut name = "photo.png".to_string();
    assert!(get_image_data(&mut name, &png(96, 96)).is_ok());
    assert_eq!(name, "photo.png");
    let mut name = "photo.png".to_string();
    assert!(get_image_data(&mut name, &jpeg(96, 96)).is_ok());
    assert_eq!(name, "photo.png.jpg");
    let mut name = "photo.jpeg".to_string();
    assert!(get_image_data(&mut name, &jpeg(96, 96)).is_ok());
    assert_eq!(name, "photo.jpeg");
    let mut name = "photo.jpg".to_string();
    assert!(get_image_data(&mut name, &jpeg(96, 96)).is_ok());
    assert_eq!(name, "photo.jpg");
    let mut name = "photo".to_string();
    let data = webp(b"VP8X", &[0x5F, 0, 0, 0x5F, 0, 0, 0, 0, 0, 0]);
    assert_eq!(
        get_image_data(&mut name, &data),
        Ok(ImageData { height: 96, width: 96, format: ImageFormat::Webp })
    );
    assert_eq!(name, "photo.webp");
}

#[test]
fn unknown_formats_are_turned_down() {
    let mut name = "x/y.gif".to_string();
    assert_eq!(
        get_image_data(&mut name, b"GIF89a\x40\x01\xF0\x00"),
        Err(ValidationError::UnknownImageFormat)
    );
    assert_eq!(name, "x-y.gif");
    let mut name = "y".to_string();
    assert_eq!(get_image_data(&mut name, &[]), Err(ValidationError::UnknownImageFormat));
    assert_eq!(get_image_data(&mut name, b"RIFF"), Err(ValidationError::UnknownImageFormat));
    assert_eq!(get_image_data(&mut name, b"RIFF\0\0\0\0WEB"), Err(ValidationError::UnknownImageFormat));
    assert_eq!(
        get_image_data(&mut name, b"RIFF\0\0\0\0WAVEfmt "),
        Err(ValidationError::UnknownImageFormat)
    );
    assert_eq!(
        get_image_data(&mut name, b"RIFF\0\0\0\0WEBP"),
        Err(ValidationError::ImageTooShort { needed: 30, got: 12 })
    );
    assert_eq!(name, "y.webp");
}

#[test]
fn icons_are_square_and_of_a_fitting_size() {
    let data = |w, h| Bytes::from(png(w, h));
    let mut name = "icon".to_string();
    assert_eq!(is_icon_valid(&mut name, &data(96, 96)), Ok("image/png".to_string()));
    assert_eq!(name, "icon.png");
    assert_eq!(is_icon_valid(&mut name, &data(2048, 2048)), Ok("image/png".to_string()));
    assert_eq!(
        is_icon_valid(&mut name, &data(95, 95)),
        Err(ValidationError::InvalidData("Icon too small: min 96x96".to_string()))
    );
    assert_eq!(
        is_icon_valid(&mut name, &data(2049, 2049)),
        Err(ValidationError::InvalidData("Icon too large: max 2048x2048".to_string()))
    );
    assert_eq!(
        is_icon_valid(&mut name, &data(96, 97)),
        Err(ValidationError::InvalidData("Icon should be of ratio 1:1".to_string()))
    );
    assert_eq!(
        is_icon_valid(&mut name, &data(10, 4000)),
        Err(ValidationError::InvalidData("Icon should be of ratio 1:1".to_string()))
    );
    assert_eq!(
        is_icon_valid(&mut name, &Bytes::from_static(b"plain text")),
        Err(ValidationError::UnknownImageFormat)
    );
    assert_eq!(is_icon_valid(&mut name, &Bytes::from(jpeg(128, 128))), Ok("image/jpeg".to_string()));
    assert_eq!(name, "icon.png.jpg");
}

#[test]
fn banners_are_images_of_any_size() {
    let mut name = "b".to_string();
    assert_eq!(is_banner_valid(&mut name, &Bytes::from(png(1, 4000))), Ok("image/png".to_string()));
    assert_eq!(name, "b.png");
    let data = webp(b"VP8X", &[0x5F, 0, 0, 0x5F, 0, 0, 0, 0, 0, 0]);
    let mut name = "b".to_string();
    assert_eq!(is_banner_valid(&mut name, &Bytes::from(data)), Ok("image/webp".to_string()));
    assert_eq!(
        is_banner_valid(&mut name, &Bytes::new()),
        Err(ValidationError::UnknownImageFormat)
    );
}

#[test]
fn media_types() {
    assert_eq!(ImageFormat::Jpg.to_string(), "image/jpeg");
    assert_eq!(ImageFormat::Png.to_string(), "image/png");
    assert_eq!(ImageFormat::Webp.to_string(), "image/webp");
    assert_eq!(ImageFormat::Gif.to_string(), "image/gif");
    assert_eq!(
        check_icon(Ok(ImageData { height: 100, width: 100, format: ImageFormat::Gif })),
        Ok("image/gif".to_string())
    );
    assert_eq!(check_icon(Err(ValidationError::BioTooLong)), Err(ValidationError::BioTooLong));
}
