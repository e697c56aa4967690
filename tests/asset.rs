use std::io::Cursor;

use rsx::asset::{
    embedded_bytes, image_descriptor, load_font, load_image, to_font_data_uri, to_image_data_uri,
    AssetError, ImageFormat,
};

fn png_of_size(width: u32, height: u32) -> Vec<u8> {
    let img = image::RgbImage::new(width, height);
    let mut out = Cursor::new(Vec::new());
    img.write_to(&mut out, image::ImageOutputFormat::Png).unwrap();
    out.into_inner()
}

#[test]
fn data_uris_hold_the_base64_of_the_bytes() {
    assert_eq!(to_font_data_uri(b"abc"), "data:application/x-font-woff;base64,YWJj");
    assert_eq!(to_image_data_uri(ImageFormat::Png, &[0, 1, 2]), "data:image/png;base64,AAEC");
    assert_eq!(to_image_data_uri(ImageFormat::Jpeg, b"ab"), "data:image/jpeg;base64,YWI=");
    assert_eq!(to_image_data_uri(ImageFormat::Gif, b""), "data:image/gif;base64,");
}

#[test]
fn png_fixture_loads_with_format_and_size() {
    let bytes = png_of_size(512, 529);
    let d = load_image(bytes.clone()).unwrap();
    assert_eq!(d.format, Some(ImageFormat::Png));
    assert_eq!(d.dimensions, Some((512, 529)));
    assert!(d.data_uri.starts_with("data:image/png;base64,"));
    assert_eq!(*d.bytes, bytes);
}

#[test]
fn embedded_image_data_uri_decodes_to_its_bytes() {
    let bytes = png_of_size(3, 2);
    let d = load_image(bytes.clone()).unwrap();
    assert_eq!(embedded_bytes(&d), Some(bytes));
}

#[test]
fn embedded_font_data_uri_decodes_to_its_bytes() {
    let bytes = vec![0u8, 1, 0, 0, 0, 18, 1, 0, 0, 4, 0, 32, 255];
    let d = load_font(bytes.clone());
    assert_eq!(d.format, None);
    assert_eq!(d.dimensions, None);
    assert!(d.data_uri.starts_with("data:application/x-font-woff;base64,"));
    assert_eq!(*d.bytes, bytes);
    assert_eq!(embedded_bytes(&d), Some(bytes));
}

#[test]
fn unknown_bytes_are_no_image() {
    assert!(matches!(load_image(vec![1, 2, 3]), Err(AssetError::UnknownFormat)));
    assert!(matches!(load_image(Vec::new()), Err(AssetError::UnknownFormat)));
}

#[test]
fn truncated_png_has_no_size() {
    let mut bytes = b"\x89PNG\r\n\x1a\n".to_vec();
    bytes.extend_from_slice(&[0, 0, 0]);
    assert!(matches!(load_image(bytes), Err(AssetError::NoDimensions)));
}

#[test]
fn descriptor_from_found_format_and_size() {
    let d = image_descriptor(vec![7, 8, 9], Some(ImageFormat::WebP), Some((4, 5))).unwrap();
    assert_eq!(d.format, Some(ImageFormat::WebP));
    assert_eq!(d.dimensions, Some((4, 5)));
    assert_eq!(*d.data_uri, "data:image/webp;base64,BwgJ");
    assert!(matches!(
        image_descriptor(vec![1], None, Some((1, 1))),
        Err(AssetError::UnknownFormat)
    ));
    assert!(matches!(
        image_descriptor(vec![1], Some(ImageFormat::Bmp), None),
        Err(AssetError::NoDimensions)
    ));
}

#[test]
fn format_tags() {
    assert_eq!(ImageFormat::Png.tag(), "png");
    assert_eq!(ImageFormat::Jpeg.tag(), "jpeg");
    assert_eq!(ImageFormat::Ico.tag(), "ico");
    assert_eq!(ImageFormat::Bmp.tag(), "bmp");
}

#[test]
fn webp_size_is_never_read() {
    let bytes = b"RIFF\x24\x00\x00\x00WEBPVP8 ".to_vec();
    assert!(matches!(load_image(bytes), Err(AssetError::NoDimensions)));
}

#[test]
fn unmodelled_formats_are_unknown() {
    assert!(matches!(load_image(b"II*\x00\x08\x00\x00\x00".to_vec()), Err(AssetError::UnknownFormat)));
    assert!(matches!(load_image(b"qoif\x00\x00".to_vec()), Err(AssetError::UnknownFormat)));
    assert!(matches!(load_image(b"GIF88a".to_vec()), Err(AssetError::UnknownFormat)));
}

#[test]
fn signature_alone_gives_a_format_but_no_size() {
    assert!(matches!(load_image(b"GIF87a".to_vec()), Err(AssetError::NoDimensions)));
    assert!(matches!(load_image(b"BM".to_vec()), Err(AssetError::NoDimensions)));
    assert!(matches!(load_image(vec![0xff, 0xd8, 0xff]), Err(AssetError::NoDimensions)));
}
