use emerge::error::Error;
use emerge::icon::{generate_icns_from_image, icon_layers};

#[test]
fn undecodable_icon_is_an_image_error_naming_the_source() {
    let r = generate_icns_from_image("/p/icon.png", b"definitely not an image");
    match r {
        Err(Error::Image(msg)) => assert!(msg.starts_with("/p/icon.png")),
        other => panic!("unexpected {:?}", other.map(|b| b.len())),
    }
}

#[test]
fn layers_cover_both_densities() {
    let sizes: Vec<u32> = icon_layers().iter().map(|l| l.1).collect();
    assert_eq!(sizes, vec![16, 32, 32, 64, 128, 256, 256, 512, 512, 1024]);
}

#[test]
fn png_becomes_icon_container() {
    let img = image::RgbaImage::from_pixel(8, 8, image::Rgba([200, 30, 30, 255]));
    let mut png: Vec<u8> = Vec::new();
    image::DynamicImage::ImageRgba8(img)
        .write_to(&mut std::io::Cursor::new(&mut png), image::ImageFormat::Png)
        .unwrap();
    let out = generate_icns_from_image("/p/icon.png", &png).unwrap();
    assert_eq!(&out[0..4], b"icns");
    let family = icns::IconFamily::read(std::io::Cursor::new(&out)).unwrap();
    assert!(family.has_icon_with_type(icns::IconType::RGBA32_16x16));
    assert!(family.has_icon_with_type(icns::IconType::RGBA32_512x512_2x));
}
