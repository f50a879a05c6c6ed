use yanyaengine::texture::{Color, RgbaImage, SimpleImage};

#[test]
fn blend_transparent_sides() {
    let s = Color::new(10, 20, 30, 0);
    let o = Color::new(40, 50, 60, 70);
    assert_eq!(s.blend(o), o, "a fully transparent base passes the overlay through");
    let s = Color::new(10, 20, 30, 80);
    let o = Color::new(40, 50, 60, 0);
    assert_eq!(s.blend(o), s, "a fully transparent overlay changes nothing");
}

#[test]
fn blend_opaque_overlay_wins() {
    let s = Color::new(10, 20, 30, 200);
    let o = Color::new(40, 50, 60, 255);
    assert_eq!(s.blend(o), o);
}

#[test]
fn blend_exact_values() {
    let s = Color::new(100, 150, 200, 128);
    let o = Color::new(50, 60, 70, 64);
    assert_eq!(s.blend(o), Color::new(79, 113, 147, 159));

    let s = Color::new(255, 255, 255, 255);
    let o = Color::new(0, 0, 0, 128);
    assert_eq!(s.blend(o), Color::new(127, 127, 127, 255));

    let s = Color::new(10, 20, 30, 40);
    let o = Color::new(200, 100, 50, 200);
    assert_eq!(s.blend(o), Color::new(192, 96, 49, 208));
}

#[test]
fn filled_and_pixels() {
    let red = Color::new(255, 0, 0, 255);
    let mut img = SimpleImage::filled(red, 3, 2);
    assert_eq!(img.width, 3);
    assert_eq!(img.height, 2);
    for y in 0..2 {
        for x in 0..3 {
            assert_eq!(img.get_pixel(x, y), red);
        }
    }
    let blue = Color::new(0, 0, 255, 255);
    img.set_pixel(blue, 2, 1);
    assert_eq!(img.get_pixel(2, 1), blue);
    assert_eq!(img.get_pixel(1, 1), red, "other pixels keep their color");
}

#[test]
fn from_fn_indexes_row_major() {
    let img = SimpleImage::from_fn(4, 3, |i| Color::new(i as u8, 0, 0, 255));
    assert_eq!(img.get_pixel(0, 0).r, 0);
    assert_eq!(img.get_pixel(3, 0).r, 3);
    assert_eq!(img.get_pixel(0, 1).r, 4);
    assert_eq!(img.get_pixel(2, 2).r, 10);
}

#[test]
fn new_wraps_buffer() {
    let colors = vec![Color::new(1, 2, 3, 4), Color::new(5, 6, 7, 8)];
    let img = SimpleImage::new(colors, 2, 1);
    assert_eq!(img.get_pixel(0, 0), Color::new(1, 2, 3, 4));
    assert_eq!(img.get_pixel(1, 0), Color::new(5, 6, 7, 8));
}

#[test]
fn map_applies_to_every_pixel() {
    let mut img = SimpleImage::filled(Color::new(10, 20, 30, 40), 2, 2);
    img.map(|c| Color::new(c.r + 1, c.g, c.b, c.a));
    for y in 0..2 {
        for x in 0..2 {
            assert_eq!(img.get_pixel(x, y), Color::new(11, 20, 30, 40));
        }
    }
}

#[test]
fn maybe_set_pixel_ignores_out_of_range() {
    let red = Color::new(255, 0, 0, 255);
    let green = Color::new(0, 255, 0, 255);
    let mut img = SimpleImage::filled(red, 2, 2);
    img.maybe_set_pixel(green, 5, 0);
    img.maybe_set_pixel(green, 0, 9);
    for y in 0..2 {
        for x in 0..2 {
            assert_eq!(img.get_pixel(x, y), red);
        }
    }
    img.maybe_set_pixel(green, 1, 1);
    assert_eq!(img.get_pixel(1, 1), green);
}

#[test]
fn maybe_blend_pixel_blends_in_place() {
    let base = Color::new(100, 150, 200, 128);
    let over = Color::new(50, 60, 70, 64);
    let mut img = SimpleImage::filled(base, 1, 1);
    img.maybe_blend_pixel(over, 0, 0);
    assert_eq!(img.get_pixel(0, 0), base.blend(over));
}

#[test]
fn flipped_horizontal_mirrors() {
    let img = SimpleImage::from_fn(3, 2, |i| Color::new(i as u8, 0, 0, 255));
    let flipped = img.flipped_horizontal();
    for y in 0..2 {
        for x in 0..3 {
            assert_eq!(flipped.get_pixel(x, y), img.get_pixel(2 - x, y));
        }
    }
}

#[test]
fn blit_copies_and_clips() {
    let red = Color::new(255, 0, 0, 255);
    let green = Color::new(0, 255, 0, 255);
    let mut target = SimpleImage::filled(red, 4, 4);
    let patch = SimpleImage::filled(green, 2, 2);
    target.blit(&patch, 3, 1);
    // covered and in range: copied
    assert_eq!(target.get_pixel(3, 1), green);
    assert_eq!(target.get_pixel(3, 2), green);
    // the patch column at x == 4 falls outside and is dropped
    for y in 0..4 {
        for x in 0..3 {
            assert_eq!(target.get_pixel(x, y), red);
        }
    }
    assert_eq!(target.get_pixel(3, 0), red);
    assert_eq!(target.get_pixel(3, 3), red);
}

#[test]
fn blit_blend_composites() {
    let base = Color::new(100, 150, 200, 128);
    let over = Color::new(50, 60, 70, 64);
    let mut target = SimpleImage::filled(base, 2, 2);
    let patch = SimpleImage::filled(over, 1, 1);
    target.blit_blend(&patch, 1, 0);
    assert_eq!(target.get_pixel(1, 0), base.blend(over));
    assert_eq!(target.get_pixel(0, 0), base);
    assert_eq!(target.get_pixel(0, 1), base);
    assert_eq!(target.get_pixel(1, 1), base);
}

#[test]
fn rgba_image_wraps_bytes() {
    let img = RgbaImage::new(vec![1, 2, 3, 4], 1, 1);
    assert_eq!(img.width, 1);
    assert_eq!(img.height, 1);
    assert_eq!(img.data, vec![1, 2, 3, 4]);
}
