use vulkust::text_image::{blank_text_image, blend_glyph_pixel, text_image_size, GlyphBox};

fn b(min_x: i32, min_y: i32, max_x: i32, max_y: i32) -> Option<GlyphBox> {
    Some(GlyphBox { min_x, min_y, max_x, max_y })
}

#[test]
fn text_image_size_from_glyph_boxes() {
    assert_eq!(text_image_size(&vec![]), (5, 5));
    assert_eq!(text_image_size(&vec![None]), (5, 5));
    assert_eq!(text_image_size(&vec![b(0, -3, 10, 12), None, b(11, -1, 20, 9)]), (25, 17));
    assert_eq!(text_image_size(&vec![b(-4, -4, -1, -2)]), (5, 5));
}

#[test]
fn blank_image_is_background() {
    let img = blank_text_image(2, 3, [10, 20, 30, 300]);
    assert_eq!(img.len(), 24);
    for (i, p) in img.iter().enumerate() {
        assert_eq!(*p, [10u8, 20, 30, 44][i % 4]);
    }
}

#[test]
fn glyph_pixel_blends_background_and_text() {
    let bg = [255, 0, 100, 255];
    let fg = [0, 255, 200, 255];
    let mut img = blank_text_image(3, 2, bg);
    blend_glyph_pixel(&mut img, 3, 2, 1, 255, bg, fg);
    assert_eq!(&img[20..24], &[0, 254, 199, 254]);
    blend_glyph_pixel(&mut img, 3, 0, 0, 0, bg, fg);
    assert_eq!(&img[0..4], &[254, 0, 99, 254]);
    blend_glyph_pixel(&mut img, 3, 1, 0, 128, bg, fg);
    assert_eq!(&img[4..8], &[126, 127, 149, 254]);
}
