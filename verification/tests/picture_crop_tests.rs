use slappyshot::picture::{crop_picture, Picture};

fn numbered(width: u32, height: u32) -> Picture {
    let pixels = (0..width * height * 4).map(|i| i as u8).collect();
    Picture { width, height, pixels }
}

#[test]
fn crop_takes_the_inner_rectangle() {
    let p = numbered(3, 2);
    let c = crop_picture(&p, 1, 0, 2, 2);
    assert_eq!((c.width, c.height), (2, 2));
    assert_eq!(c.pixels, vec![4, 5, 6, 7, 8, 9, 10, 11, 16, 17, 18, 19, 20, 21, 22, 23]);
}

#[test]
fn crop_is_cut_to_the_picture() {
    let p = numbered(3, 2);
    let c = crop_picture(&p, 2, 1, 10, 10);
    assert_eq!((c.width, c.height), (1, 1));
    assert_eq!(c.pixels, vec![20, 21, 22, 23]);
    let c = crop_picture(&p, 5, 5, 2, 2);
    assert_eq!((c.width, c.height), (0, 0));
    assert!(c.pixels.is_empty());
}

#[test]
fn whole_crop_gives_the_picture_back() {
    let p = numbered(3, 2);
    let c = crop_picture(&p, 0, 0, 3, 2);
    assert_eq!((c.width, c.height), (3, 2));
    assert_eq!(c.pixels, p.pixels);
}
