use rayt::frame::Frame;
use rayt::settings::RenderSettings;

#[test]
fn frame_holds_pixels_row_major() {
    let pixels = vec![[1, 2, 3], [4, 5, 6], [7, 8, 9], [10, 11, 12], [13, 14, 15], [16, 17, 18]];
    let f = Frame::from_pixels(3, 2, &pixels);
    assert_eq!(f.width(), 3);
    assert_eq!(f.height(), 2);
    assert_eq!(f.pixel(0, 0), [1, 2, 3]);
    assert_eq!(f.pixel(2, 0), [7, 8, 9]);
    assert_eq!(f.pixel(0, 1), [10, 11, 12]);
    assert_eq!(f.pixel(2, 1), [16, 17, 18]);
    assert_eq!(
        f.to_bytes(),
        vec![1, 2, 3, 4, 5, 6, 7, 8, 9, 10, 11, 12, 13, 14, 15, 16, 17, 18]
    );
}

#[test]
fn two_by_two_frame_one_sample() {
    let s = RenderSettings::new(2, 2, 1, 50).unwrap();
    let n = s.pixel_count();
    assert_eq!(n, 4);
    let mut pixels = Vec::new();
    for i in 0..n {
        let (x, y) = s.pixel_position(i);
        pixels.push([(x * 255) as u8, (y * 200) as u8, 7]);
    }
    let f = Frame::from_pixels(s.width, s.height, &pixels);
    let bytes = f.to_bytes();
    assert_eq!(bytes.len(), 12);
    assert_eq!(bytes, vec![0, 0, 7, 255, 0, 7, 0, 200, 7, 255, 200, 7]);
    assert_eq!(f.pixel(1, 1), [255, 200, 7]);
}

#[test]
fn empty_frame() {
    let f = Frame::from_pixels(0, 0, &Vec::new());
    assert_eq!(f.width(), 0);
    assert_eq!(f.height(), 0);
    assert!(f.to_bytes().is_empty());
}
