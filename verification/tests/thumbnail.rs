use ratatube::thumbnail::{decode_thumbnail, ThumbnailError};

fn png(width: u32, height: u32) -> Vec<u8> {
    let image = image::DynamicImage::new_rgba8(width, height);
    let mut encoded = std::io::Cursor::new(Vec::new());
    image.write_to(&mut encoded, image::ImageFormat::Png).expect("encode png");
    encoded.into_inner()
}

#[test]
fn thumbnail_decoder_rejects_dimensions_above_limit() {
    assert!(decode_thumbnail(&png(4097, 1)).is_err());
}

#[test]
fn thumbnails_within_limits_decode_to_rgba() {
    let picture = decode_thumbnail(&png(3, 2)).expect("decodes");
    assert_eq!((picture.width, picture.height), (3, 2));
    assert_eq!(picture.rgba.len(), 24);
}

#[test]
fn garbage_is_not_an_image() {
    assert!(matches!(decode_thumbnail(b"not an image"), Err(ThumbnailError::Undecodable)));
}
