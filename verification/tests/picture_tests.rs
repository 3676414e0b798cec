use slappyshot::picture::decode_image;

#[test]
fn decodes_a_binary_ppm() {
    let mut bytes = b"P6\n2 1\n255\n".to_vec();
    bytes.extend_from_slice(&[255, 0, 0, 0, 255, 0]);
    let p = decode_image(&bytes).unwrap();
    assert_eq!((p.width, p.height), (2, 1));
    assert_eq!(p.pixels, vec![255, 0, 0, 255, 0, 255, 0, 255]);
}

#[test]
fn decodes_a_png() {
    let img = image::RgbaImage::from_raw(1, 2, vec![1, 2, 3, 4, 5, 6, 7, 8]).unwrap();
    let mut png = Vec::new();
    image::DynamicImage::ImageRgba8(img)
        .write_to(&mut std::io::Cursor::new(&mut png), image::ImageFormat::Png)
        .unwrap();
    let p = decode_image(&png).unwrap();
    assert_eq!((p.width, p.height), (1, 2));
    assert_eq!(p.pixels, vec![1, 2, 3, 4, 5, 6, 7, 8]);
}

#[test]
fn rejects_bytes_that_hold_no_image() {
    assert!(decode_image(b"not an image at all").is_none());
    assert!(decode_image(&[]).is_none());
}
