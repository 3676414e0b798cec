use slappyshot::region::{blur_extent, clip_span, crop_extent, paste_pixels};

#[test]
fn extents_are_clamped() {
    assert_eq!(crop_extent(50, 100, 80), 20);
    assert_eq!(crop_extent(0, 100, 10), 1);
    assert_eq!(crop_extent(30, 100, 200), 1);
    assert_eq!(crop_extent(30, 100, 10), 30);
    for (want, size, start) in [(50, 100, 80), (0, 100, 10), (30, 100, 200), (7, 7, 0), (9, 3, 3)] {
        assert_eq!(crop_extent(want, size, start), blur_extent(want, size, start));
    }
}

#[test]
fn clip_span_cases() {
    assert_eq!(clip_span(-5, 10, 100), (0, 5));
    assert_eq!(clip_span(95, 10, 100), (95, 100));
    assert_eq!(clip_span(-20, 10, 100), (0, 0));
    assert_eq!(clip_span(3, 4, 100), (3, 7));
}

#[test]
fn paste_clips_to_canvas() {
    // 3x2 canvas of zeros; paste a 2x2 block at (2, 1): only its top left pixel lands.
    let mut canvas = vec![0u8; 3 * 2 * 4];
    let src: Vec<u8> = (1..=16).collect();
    paste_pixels(&mut canvas, 3, 2, 2, 1, &src, 2, 2);
    let mut want = vec![0u8; 24];
    want[(1 * 3 + 2) * 4..(1 * 3 + 2) * 4 + 4].copy_from_slice(&[1, 2, 3, 4]);
    assert_eq!(canvas, want);
}

#[test]
fn paste_skips_missing_source_bytes() {
    let mut canvas = vec![9u8; 2 * 1 * 4];
    let src: Vec<u8> = vec![1, 2, 3, 4, 5, 6];
    paste_pixels(&mut canvas, 2, 1, 0, 0, &src, 2, 1);
    assert_eq!(canvas, vec![1, 2, 3, 4, 9, 9, 9, 9]);
}
