use pixelkit::buffer::Buffer;
use pixelkit::color::Color;
use pixelkit::image::Image;
use pixelkit::node::{Fill, Node, Pixel, Position, Rect, Size, SizeError, Sprite};

fn buffer_cells(buf: &Buffer) -> Vec<Color> {
    let mut cells = Vec::new();
    let mut y = 0;
    while y < buf.height {
        let mut x = 0;
        while x < buf.width {
            cells.push(*buf.get(x, y));
            x += 1;
        }
        y += 1;
    }
    cells
}

#[test]
fn composite_with_opaque_overlay_replaces_rgb() {
    let mut base = Color::rgba(17, 33, 99, 180);
    base.add_layer_above(Color::rgba(200, 100, 5, 255));
    assert_eq!(base, Color::rgba(200, 100, 5, 180));
}

#[test]
fn composite_with_transparent_overlay_keeps_rgb() {
    let mut base = Color::rgba(17, 33, 99, 180);
    base.add_layer_above(Color::rgba(200, 100, 5, 0));
    assert_eq!(base, Color::rgba(17, 33, 99, 180));
}

#[test]
fn composite_never_blends_alpha() {
    let bases = [
        Color::rgba(0, 0, 0, 0),
        Color::rgba(10, 20, 30, 40),
        Color::rgba(255, 255, 255, 255),
        Color::rgba(1, 2, 3, 128),
    ];
    let overlays = [
        Color::rgba(5, 6, 7, 8),
        Color::rgba(255, 0, 255, 255),
        Color::rgba(0, 0, 0, 0),
        Color::rgba(77, 88, 99, 200),
    ];
    for base in bases.iter() {
        for overlay in overlays.iter() {
            let mut c = *base;
            c.add_layer_above(*overlay);
            assert_eq!(c.a, base.a);
        }
    }
}

#[test]
fn composite_half_alpha_exact_values() {
    // (0 * 127 + 100 * 128) / 255 = 50, etc., truncated toward zero.
    let mut c = Color::rgba(0, 0, 0, 255);
    c.add_layer_above(Color::rgba(100, 200, 50, 128));
    assert_eq!(c, Color::rgba(50, 100, 25, 255));
}

#[test]
fn composite_twice_is_not_idempotent() {
    let overlay = Color::rgba(100, 200, 50, 128);
    let mut c = Color::rgba(0, 0, 0, 255);
    c.add_layer_above(overlay);
    assert_eq!(c, Color::rgba(50, 100, 25, 255));
    c.add_layer_above(overlay);
    assert_eq!(c, Color::rgba(75, 150, 37, 255));
}

#[test]
fn rgb_is_fully_opaque() {
    assert_eq!(Color::rgb(4, 5, 6), Color::rgba(4, 5, 6, 255));
}

#[test]
fn new_buffer_is_all_opaque_black() {
    let buf = Buffer::new(4, 3);
    assert_eq!(buf.width, 4);
    assert_eq!(buf.height, 3);
    assert_eq!(buf.pixels.len(), 12);
    for cell in buffer_cells(&buf) {
        assert_eq!(cell, Color::rgba(0, 0, 0, 255));
    }
}

#[test]
fn set_out_of_bounds_leaves_buffer_unchanged() {
    let mut buf = Buffer::new(5, 4);
    buf.set(1, 1, &Color::rgba(9, 9, 9, 200));
    let before = buffer_cells(&buf);
    let c = Color::rgba(250, 1, 2, 255);
    buf.set(-1, 0, &c);
    buf.set(0, -1, &c);
    buf.set(5, 0, &c);
    buf.set(0, 4, &c);
    buf.set(-3, 17, &c);
    assert_eq!(buffer_cells(&buf), before);
}

#[test]
fn set_in_bounds_composites_over_cell() {
    let mut buf = Buffer::new(2, 2);
    buf.set(1, 0, &Color::rgba(100, 200, 50, 128));
    assert_eq!(*buf.get(1, 0), Color::rgba(50, 100, 25, 255));
    assert_eq!(*buf.get(0, 0), Color::rgba(0, 0, 0, 255));
    assert_eq!(*buf.get(0, 1), Color::rgba(0, 0, 0, 255));
    assert_eq!(*buf.get(1, 1), Color::rgba(0, 0, 0, 255));
}

#[test]
fn fill_composites_over_every_cell() {
    let mut buf = Buffer::new(3, 3);
    let fill = Fill::new(Color::rgba(100, 200, 50, 128));
    fill.draw(&mut buf);
    for cell in buffer_cells(&buf) {
        assert_eq!(cell, Color::rgba(50, 100, 25, 255));
    }
}

#[test]
fn pixel_draws_its_single_cell() {
    let mut buf = Buffer::new(3, 3);
    let pixel = Pixel::new(2, 1, Color::rgb(11, 22, 33));
    pixel.draw(&mut buf);
    for y in 0..3 {
        for x in 0..3 {
            let expected = if x == 2 && y == 1 {
                Color::rgba(11, 22, 33, 255)
            } else {
                Color::rgba(0, 0, 0, 255)
            };
            assert_eq!(*buf.get(x, y), expected);
        }
    }
}

#[test]
fn pixel_out_of_bounds_is_discarded() {
    let mut buf = Buffer::new(3, 3);
    let before = buffer_cells(&buf);
    Pixel::new(-1, 1, Color::rgb(1, 1, 1)).draw(&mut buf);
    Pixel::new(3, 0, Color::rgb(1, 1, 1)).draw(&mut buf);
    assert_eq!(buffer_cells(&buf), before);
}

#[test]
fn rect_is_clipped_to_the_buffer() {
    let mut buf = Buffer::new(10, 10);
    let rect = Rect::new(-2, -2, 4, 4, Color::rgb(9, 8, 7));
    rect.draw(&mut buf);
    for y in 0..10 {
        for x in 0..10 {
            let expected = if x < 2 && y < 2 {
                Color::rgba(9, 8, 7, 255)
            } else {
                Color::rgba(0, 0, 0, 255)
            };
            assert_eq!(*buf.get(x, y), expected);
        }
    }
}

#[test]
fn rect_with_zero_or_negative_size_draws_nothing() {
    let mut buf = Buffer::new(4, 4);
    let before = buffer_cells(&buf);
    Rect::new(1, 1, 0, 3, Color::rgb(1, 1, 1)).draw(&mut buf);
    Rect::new(1, 1, 3, 0, Color::rgb(1, 1, 1)).draw(&mut buf);
    Rect::new(1, 1, -3, -2, Color::rgb(1, 1, 1)).draw(&mut buf);
    assert_eq!(buffer_cells(&buf), before);
}

#[test]
fn later_draws_composite_over_earlier_ones() {
    let mut buf = Buffer::new(2, 2);
    Fill::new(Color::rgb(200, 0, 0)).draw(&mut buf);
    Rect::new(0, 0, 1, 2, Color::rgb(0, 200, 0)).draw(&mut buf);
    assert_eq!(*buf.get(0, 0), Color::rgba(0, 200, 0, 255));
    assert_eq!(*buf.get(0, 1), Color::rgba(0, 200, 0, 255));
    assert_eq!(*buf.get(1, 0), Color::rgba(200, 0, 0, 255));
    assert_eq!(*buf.get(1, 1), Color::rgba(200, 0, 0, 255));
}

fn two_by_two_image() -> Image {
    let pixels = vec![
        Color::rgba(255, 0, 0, 255),
        Color::rgba(0, 255, 0, 255),
        Color::rgba(0, 0, 255, 128),
        Color::rgba(10, 20, 30, 0),
    ];
    Image::new(2, 2, pixels)
}

#[test]
fn image_get_reads_row_major_cells() {
    let img = two_by_two_image();
    assert_eq!(*img.get(0, 0), Color::rgba(255, 0, 0, 255));
    assert_eq!(*img.get(1, 0), Color::rgba(0, 255, 0, 255));
    assert_eq!(*img.get(0, 1), Color::rgba(0, 0, 255, 128));
    assert_eq!(*img.get(1, 1), Color::rgba(10, 20, 30, 0));
}

#[test]
fn sprite_composites_its_image_at_its_position() {
    let img = two_by_two_image();
    let mut buf = Buffer::new(8, 8);
    let sprite = Sprite::new(3, 4, &img);
    sprite.draw(&mut buf);
    for y in 0..8i32 {
        for x in 0..8i32 {
            let expected = if x == 3 && y == 4 {
                Color::rgba(255, 0, 0, 255)
            } else if x == 4 && y == 4 {
                Color::rgba(0, 255, 0, 255)
            } else if x == 3 && y == 5 {
                // (0 * 127 + 255 * 128) / 255 = 128 on the blue channel.
                Color::rgba(0, 0, 128, 255)
            } else {
                // The alpha-0 image pixel at (4, 5) leaves the cell unchanged.
                Color::rgba(0, 0, 0, 255)
            };
            assert_eq!(*buf.get(x as usize, y as usize), expected);
        }
    }
}

#[test]
fn sprite_is_clipped_to_the_buffer() {
    let img = two_by_two_image();
    let mut buf = Buffer::new(2, 2);
    let sprite = Sprite::new(-1, -1, &img);
    sprite.draw(&mut buf);
    // Only the image pixel (1, 1) lands in bounds, at (0, 0); its alpha is 0.
    for cell in buffer_cells(&buf) {
        assert_eq!(cell, Color::rgba(0, 0, 0, 255));
    }
}

#[test]
fn packed_export_folds_rgb_and_drops_alpha() {
    let mut buf = Buffer::new(3, 2);
    buf.set(1, 1, &Color::rgba(10, 20, 30, 255));
    let packed_buf = buf.to_u32_buf();
    assert_eq!(packed_buf.len(), 6);
    for (i, value) in packed_buf.iter().enumerate() {
        let expected = if i == 4 { 10 * 65536 + 20 * 256 + 30 } else { 0 };
        assert_eq!(*value, expected);
    }
}

#[test]
fn packed_export_leaves_the_buffer_as_it_was() {
    let mut buf = Buffer::new(2, 2);
    buf.set(0, 1, &Color::rgba(1, 2, 3, 77));
    let before = buffer_cells(&buf);
    let first = buf.to_u32_buf();
    let second = buf.to_u32_buf();
    assert_eq!(first, second);
    assert_eq!(buffer_cells(&buf), before);
}

#[test]
fn rect_position_and_size_are_freely_settable() {
    let mut rect = Rect::new(1, 2, 3, 4, Color::rgb(0, 0, 0));
    assert_eq!(rect.get_x(), 1);
    assert_eq!(rect.get_y(), 2);
    assert_eq!(rect.get_width(), 3);
    assert_eq!(rect.get_height(), 4);
    rect.set_x(-7);
    rect.set_y(8);
    assert_eq!(rect.set_width(30), Ok(()));
    assert_eq!(rect.set_height(40), Ok(()));
    assert_eq!(rect.get_x(), -7);
    assert_eq!(rect.get_y(), 8);
    assert_eq!(rect.get_width(), 30);
    assert_eq!(rect.get_height(), 40);
}

#[test]
fn sprite_position_is_settable_and_size_reads_the_image() {
    let img = two_by_two_image();
    let mut sprite = Sprite::new(5, 6, &img);
    assert_eq!(sprite.get_x(), 5);
    assert_eq!(sprite.get_y(), 6);
    sprite.set_x(9);
    sprite.set_y(-3);
    assert_eq!(sprite.get_x(), 9);
    assert_eq!(sprite.get_y(), -3);
    assert_eq!(sprite.get_width(), 2);
    assert_eq!(sprite.get_height(), 2);
}

#[test]
fn sprite_resize_always_reports_the_unsupported_size_error() {
    let img = two_by_two_image();
    let mut sprite = Sprite::new(1, 2, &img);
    assert_eq!(sprite.set_width(5), Err(SizeError));
    assert_eq!(sprite.set_height(5), Err(SizeError));
    // The rejected calls changed nothing.
    assert_eq!(sprite.get_x(), 1);
    assert_eq!(sprite.get_y(), 2);
    assert_eq!(sprite.get_width(), 2);
    assert_eq!(sprite.get_height(), 2);
}
