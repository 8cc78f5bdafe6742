use nyan_browser::framing::{add_kawaii_frame, PixelImage};

const PINK: (u8, u8, u8, u8) = (255, 183, 197, 255);

#[test]
fn a_mismatched_pixel_count_is_a_configuration_error() {
    assert!(PixelImage::from_pixels(2, 2, vec![(0, 0, 0, 0); 3]).is_err());
    assert!(PixelImage::from_pixels(2, 2, vec![(0, 0, 0, 0); 4]).is_ok());
}

#[test]
fn framing_adds_a_twenty_pixel_pink_border() {
    let inner = (9, 8, 7, 6);
    let image = PixelImage::from_pixels(1, 1, vec![inner]).unwrap();
    let framed = add_kawaii_frame(&image).unwrap();
    assert_eq!(framed.width(), 41);
    assert_eq!(framed.height(), 41);
    assert_eq!(framed.pixel(0, 0), PINK);
    assert_eq!(framed.pixel(40, 40), PINK);
    assert_eq!(framed.pixel(19, 20), PINK);
    assert_eq!(framed.pixel(20, 19), PINK);
    assert_eq!(framed.pixel(21, 20), PINK);
    assert_eq!(framed.pixel(20, 20), inner);
}

#[test]
fn framing_keeps_the_picture_in_place() {
    let pixels = vec![(1, 0, 0, 255), (2, 0, 0, 255), (3, 0, 0, 255), (4, 0, 0, 255)];
    let image = PixelImage::from_pixels(2, 2, pixels).unwrap();
    let framed = add_kawaii_frame(&image).unwrap();
    assert_eq!(framed.width(), 42);
    assert_eq!(framed.height(), 42);
    assert_eq!(framed.pixel(20, 20), (1, 0, 0, 255));
    assert_eq!(framed.pixel(21, 20), (2, 0, 0, 255));
    assert_eq!(framed.pixel(20, 21), (3, 0, 0, 255));
    assert_eq!(framed.pixel(21, 21), (4, 0, 0, 255));
    assert_eq!(framed.pixel(22, 21), PINK);
}
