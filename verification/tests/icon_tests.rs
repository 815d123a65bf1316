use image::{ImageEncoder, Rgba, RgbaImage};
use rustybird::icon::{icon_from_ico, resize_to};

fn ico_bytes(img: &RgbaImage) -> Vec<u8> {
    let mut out = Vec::new();
    image::codecs::ico::IcoEncoder::new(&mut out)
        .write_image(img.as_raw(), img.width(), img.height(), image::ColorType::Rgba8)
        .unwrap();
    out
}

#[test]
fn icon_has_three_sizes() {
    let img = RgbaImage::from_pixel(8, 8, Rgba([10, 20, 30, 255]));
    let icon = icon_from_ico(&ico_bytes(&img)).expect("icon");
    assert_eq!(icon.small.len(), 16 * 16 * 4);
    assert_eq!(icon.medium.len(), 32 * 32 * 4);
    assert_eq!(icon.big.len(), 64 * 64 * 4);
    for px in icon.big.chunks(4) {
        assert_eq!(px, &[10, 20, 30, 255]);
    }
}

#[test]
fn icon_scales_nearest() {
    // left half red, right half blue
    let img = RgbaImage::from_fn(2, 2, |x, _| if x == 0 { Rgba([255, 0, 0, 255]) } else { Rgba([0, 0, 255, 255]) });
    let icon = icon_from_ico(&ico_bytes(&img)).expect("icon");
    let row = &icon.small[0..16 * 4];
    assert_eq!(&row[0..4], &[255, 0, 0, 255]);
    assert_eq!(&row[15 * 4..16 * 4], &[0, 0, 255, 255]);
    let expected = image::imageops::resize(&img, 16, 16, image::imageops::FilterType::Nearest).into_raw();
    assert_eq!(icon.small, expected);
}

#[test]
fn bad_icon_bytes_give_none() {
    assert!(icon_from_ico(&vec![1, 2, 3, 4]).is_none());
    assert!(icon_from_ico(&vec![]).is_none());
}

#[test]
fn resize_to_checks_length() {
    let px = vec![7u8; 2 * 2 * 4];
    let r = resize_to(2, 2, &px, 16, 16 * 16 * 4).expect("fits");
    assert_eq!(r.len(), 1024);
    assert!(r.iter().all(|&b| b == 7));
    assert!(resize_to(2, 2, &px, 16, 1000).is_none());
}

#[test]
fn resize_to_empty_picture_gives_blank_square() {
    let r = resize_to(0, 0, &vec![], 16, 16 * 16 * 4).expect("fits");
    assert_eq!(r, vec![0u8; 1024]);
    let r = resize_to(0, 3, &vec![], 32, 32 * 32 * 4).expect("fits");
    assert_eq!(r, vec![0u8; 4096]);
    let r = resize_to(3, 0, &vec![], 16, 16 * 16 * 4).expect("fits");
    assert_eq!(r, vec![0u8; 1024]);
}
