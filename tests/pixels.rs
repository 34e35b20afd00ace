use cameraview::pixels::bgra_to_rgb;

#[test]
fn bgra_frame_to_rgb() {
    let bgra = vec![1, 2, 3, 4, 5, 6, 7, 8];
    assert_eq!(bgra_to_rgb(&bgra, 2, 2), vec![3, 2, 1, 7, 6, 5, 0, 0, 0, 0, 0, 0]);
}

#[test]
fn bgra_partial_pixel_is_dropped() {
    let bgra = vec![10, 20, 30, 40, 50];
    assert_eq!(bgra_to_rgb(&bgra, 1, 1), vec![30, 20, 10]);
}

#[test]
fn bgra_empty_frame() {
    assert_eq!(bgra_to_rgb(&Vec::new(), 0, 0), Vec::<u8>::new());
    assert_eq!(bgra_to_rgb(&Vec::new(), 1, 2), vec![0; 6]);
}
