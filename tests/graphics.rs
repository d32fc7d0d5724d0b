use rust_dos::canvas::{BlitOperation, Canvas};
use rust_dos::error::GraphicsError;
use rust_dos::geometry::{Point, Rect};
use rust_dos::image::{Image, PaletteEntry};
use rust_dos::palette::dac_palette;
use rust_dos::sprite::Sprite;
use rust_dos::video::VgaDacColour;

fn push_u16(out: &mut Vec<u8>, v: u16) {
    out.extend_from_slice(&v.to_le_bytes());
}

fn push_u32(out: &mut Vec<u8>, v: u32) {
    out.extend_from_slice(&v.to_le_bytes());
}

/// A bitmap file with the given header values, palette and pixel bytes.
fn bitmap(width: u32, height: u32, bpp: u16, compression: u32, palette: &[(u8, u8, u8)], data: &[u8]) -> Vec<u8> {
    let palette_bytes = 4 * palette.len() as u32;
    let offset = 14 + 40 + palette_bytes;
    let mut out = Vec::new();
    out.push(0x42);
    out.push(0x4d);
    push_u32(&mut out, offset + data.len() as u32);
    push_u32(&mut out, 0);
    push_u32(&mut out, offset);
    push_u32(&mut out, 40);
    push_u32(&mut out, width);
    push_u32(&mut out, height);
    push_u16(&mut out, 1);
    push_u16(&mut out, bpp);
    push_u32(&mut out, compression);
    push_u32(&mut out, data.len() as u32);
    push_u32(&mut out, 2835);
    push_u32(&mut out, 2835);
    push_u32(&mut out, palette.len() as u32);
    push_u32(&mut out, 0);
    for &(r, g, b) in palette {
        out.push(b);
        out.push(g);
        out.push(r);
        out.push(0);
    }
    out.extend_from_slice(data);
    out
}

fn canvas(width: i32, height: i32, pixels: Vec<u8>) -> Canvas {
    Canvas::new(Rect::new(0, 0, width, height).unwrap(), pixels).unwrap()
}

#[test]
fn rect_new_accepts_non_negative_sides() {
    for &(x, y, w, h) in &[(0, 0, 0, 0), (-5, 7, 3, 4), (10, -10, 0, 9), (100, 200, 320, 200)] {
        let r = Rect::new(x, y, w, h).unwrap();
        let ul = r.upper_left();
        let lr = r.lower_right();
        assert!(ul.x <= lr.x);
        assert!(ul.y <= lr.y);
        assert_eq!(lr, Point::new(x + w, y + h));
    }
}

#[test]
fn rect_new_rejects_negative_sides() {
    assert_eq!(Rect::new(0, 0, -1, 5), Err(GraphicsError::InvalidDimensions));
    assert_eq!(Rect::new(0, 0, 5, -1), Err(GraphicsError::InvalidDimensions));
    assert_eq!(Rect::new(3, 3, -2, -2), Err(GraphicsError::InvalidDimensions));
}

#[test]
fn intersection_is_symmetric() {
    let a = Rect::new(0, 0, 10, 10).unwrap();
    let b = Rect::new(5, 5, 10, 10).unwrap();
    let c = Rect::new(10, 0, 5, 5).unwrap();
    assert!(a.intersects(&b) && b.intersects(&a));
    assert!(!a.intersects(&c) && !c.intersects(&a));
    assert_eq!(a.intersection(&b), Some(Rect::new(5, 5, 5, 5).unwrap()));
    assert_eq!(a.intersection(&b), b.intersection(&a));
    assert_eq!(a.intersection(&c), None);
    assert_eq!(c.intersection(&a), None);
}

#[test]
fn union_is_smallest_enclosing() {
    let a = Rect::new(0, 0, 2, 2).unwrap();
    let b = Rect::new(10, 5, 3, 1).unwrap();
    let u = a.union(&b);
    assert_eq!(u, Rect::new(0, 0, 13, 6).unwrap());
    assert_eq!(b.union(&a), u);
}

#[test]
fn rect_offset_and_corners() {
    let mut r = Rect::new(1, 2, 3, 4).unwrap();
    r.offset(Point::new(10, -2));
    assert_eq!(r.location(), Point::new(11, 0));
    assert_eq!(r.upper_right(), Point::new(14, 0));
    assert_eq!(r.lower_left(), Point::new(11, 4));
}

#[test]
fn point_division_and_multiplication() {
    assert_eq!(Point::new(25, 39).div(Point::new(10, 10)), Point::new(2, 3));
    assert_eq!(Point::new(-7, 7).div(Point::new(2, -2)), Point::new(-3, -3));
    assert_eq!(Point::new(3, 4).mul(Point::new(5, 6)), Point::new(15, 24));
}

#[test]
fn decode_and_flip_two_by_two() {
    let row0 = [1u8, 2];
    let row1 = [3u8, 4];
    // Stored bottom-up, each row padded to four bytes.
    let data = [row1[0], row1[1], 0, 0, row0[0], row0[1], 0, 0];
    let bytes = bitmap(2, 2, 8, 0, &[(255, 0, 0), (0, 0, 255)], &data);
    let image = Image::decode(&bytes).unwrap();
    assert_eq!(image.width(), 2);
    assert_eq!(image.height(), 2);
    assert_eq!(image.bpp(), 8);
    assert_eq!(image.compression(), 0);
    assert_eq!(image.palette().len(), 2);
    assert_eq!(image.palette()[0], PaletteEntry { red: 255, green: 0, blue: 0 });
    assert_eq!(image.palette()[1], PaletteEntry { red: 0, green: 0, blue: 255 });
    assert_eq!(image.image_data(), &data[..]);
    let c = Canvas::from_image(&image).unwrap();
    assert_eq!(c.rect(), Rect::new(0, 0, 2, 2).unwrap());
    assert_eq!(&c.pixels()[0..2], &row0[..]);
    assert_eq!(&c.pixels()[2..4], &row1[..]);
}

#[test]
fn decode_skips_row_padding() {
    // Three pixels wide: each stored row holds one byte of padding.
    let data = [7u8, 8, 9, 0, 4, 5, 6, 0];
    let bytes = bitmap(3, 2, 8, 0, &[], &data);
    let image = Image::decode(&bytes).unwrap();
    let c = Canvas::from_image(&image).unwrap();
    assert_eq!(c.pixels(), &[4u8, 5, 6, 7, 8, 9][..]);
}

#[test]
fn decode_rejects_bad_magic() {
    let mut bytes = bitmap(1, 1, 8, 0, &[], &[0, 0, 0, 0]);
    bytes[0] = b'X';
    assert!(matches!(Image::decode(&bytes), Err(GraphicsError::InvalidFormat)));
    assert!(matches!(Image::decode(&[]), Err(GraphicsError::InvalidFormat)));
    assert!(matches!(Image::decode(&[0x42]), Err(GraphicsError::InvalidFormat)));
}

#[test]
fn decode_rejects_compression() {
    let bytes = bitmap(1, 1, 8, 1, &[], &[0, 0, 0, 0]);
    assert!(matches!(Image::decode(&bytes), Err(GraphicsError::UnsupportedFormat)));
}

#[test]
fn decode_reports_truncated_stream() {
    let bytes = bitmap(2, 2, 8, 0, &[(1, 2, 3)], &[0; 8]);
    assert!(matches!(Image::decode(&bytes[..30]), Err(GraphicsError::IOError)));
    assert!(matches!(Image::decode(&bytes[..bytes.len() - 1]), Err(GraphicsError::IOError)));
    assert!(matches!(Image::decode(&bytes[..56]), Err(GraphicsError::IOError)));
}

#[test]
fn canvas_from_image_needs_eight_bits() {
    let bytes = bitmap(1, 1, 24, 0, &[], &[1, 2, 3, 0]);
    let image = Image::decode(&bytes).unwrap();
    assert!(image.palette().is_empty());
    assert!(matches!(Canvas::from_image(&image), Err(GraphicsError::InvalidFormat)));
    let short = bitmap(4, 2, 8, 0, &[], &[1, 2, 3, 4]);
    let image = Image::decode(&short).unwrap();
    assert!(matches!(Canvas::from_image(&image), Err(GraphicsError::InvalidFormat)));
}

#[test]
fn keyed_blit_leaves_key_pixels() {
    let src = canvas(3, 1, vec![1, 7, 1]);
    let mut dst = canvas(3, 1, vec![9, 9, 9]);
    src.blit(src.rect(), &mut dst, Point::new(0, 0), BlitOperation::Keyed(1)).unwrap();
    assert_eq!(dst.pixels(), &[9u8, 7, 9][..]);
}

#[test]
fn masked_composite_and_then_or() {
    let mask = canvas(1, 1, vec![0xF0]);
    let image = canvas(1, 1, vec![0x0A]);
    let mut dst = canvas(1, 1, vec![0xFF]);
    mask.blit(mask.rect(), &mut dst, Point::new(0, 0), BlitOperation::And).unwrap();
    assert_eq!(dst.pixels(), &[0xF0u8][..]);
    image.blit(image.rect(), &mut dst, Point::new(0, 0), BlitOperation::Or).unwrap();
    assert_eq!(dst.pixels(), &[0xFAu8][..]);
}

#[test]
fn direct_blit_copies_a_block() {
    let src = canvas(3, 2, vec![1, 2, 3, 4, 5, 6]);
    let mut dst = Canvas::new_blank(Rect::new(0, 0, 4, 3).unwrap());
    src.blit(Rect::new(1, 0, 2, 2).unwrap(), &mut dst, Point::new(2, 1), BlitOperation::Direct).unwrap();
    assert_eq!(dst.pixels(), &[0u8, 0, 0, 0, 0, 0, 2, 3, 0, 0, 5, 6][..]);
}

#[test]
fn blit_out_of_bounds_writes_nothing() {
    let src = canvas(2, 2, vec![1, 2, 3, 4]);
    let mut dst = canvas(3, 3, vec![9; 9]);
    let r = src.blit(src.rect(), &mut dst, Point::new(2, 2), BlitOperation::Direct);
    assert_eq!(r, Err(GraphicsError::OutOfBounds));
    let r = src.blit(Rect { x: 1, y: 1, width: 2, height: 1 }, &mut dst, Point::new(0, 0), BlitOperation::Direct);
    assert_eq!(r, Err(GraphicsError::OutOfBounds));
    let r = src.blit(src.rect(), &mut dst, Point::new(-1, 0), BlitOperation::Direct);
    assert_eq!(r, Err(GraphicsError::OutOfBounds));
    assert_eq!(dst.pixels(), &[9u8; 9][..]);
}

#[test]
fn shift_colour_wraps() {
    let mut c = canvas(2, 1, vec![252, 10]);
    c.shift_colour(Rect::new(0, 0, 1, 1).unwrap(), 5).unwrap();
    assert_eq!(c.pixels(), &[1u8, 10][..]);
    c.shift_colour(Rect::new(0, 0, 2, 1).unwrap(), 251).unwrap();
    assert_eq!(c.pixels(), &[252u8, 5][..]);
    assert_eq!(c.shift_colour(Rect::new(1, 0, 2, 1).unwrap(), 1), Err(GraphicsError::OutOfBounds));
    assert_eq!(c.pixels(), &[252u8, 5][..]);
}

#[test]
fn canvas_new_checks_size() {
    assert!(matches!(Canvas::new(Rect::new(0, 0, 2, 2).unwrap(), vec![0; 3]), Err(GraphicsError::InvalidDimensions)));
    assert!(matches!(Canvas::new(Rect { x: 0, y: 0, width: -1, height: 2 }, vec![]), Err(GraphicsError::InvalidDimensions)));
}

#[test]
fn sprite_draw_then_erase_restores_background() {
    let background: Vec<u8> = (0u8..20).collect();
    let mut surface = canvas(5, 4, background.clone());
    let image = canvas(2, 2, vec![255, 40, 41, 255]);
    let mut sprite = Sprite::new(image, None, 255);
    sprite.draw(&mut surface, Point::new(2, 1)).unwrap();
    assert_eq!(surface.pixels(), &[0u8, 1, 2, 3, 4, 5, 6, 7, 40, 9, 10, 11, 41, 13, 14, 15, 16, 17, 18, 19][..]);
    sprite.erase(&mut surface).unwrap();
    assert_eq!(surface.pixels(), &background[..]);
}

#[test]
fn sprite_with_mask_draws_silhouette() {
    let mut surface = canvas(2, 1, vec![0x33, 0x33]);
    let image = canvas(2, 1, vec![0x00, 0x0A]);
    let mask = canvas(2, 1, vec![0xFF, 0x00]);
    let mut sprite = Sprite::new(image, Some(mask), 0);
    sprite.draw(&mut surface, Point::new(0, 0)).unwrap();
    assert_eq!(surface.pixels(), &[0x33u8, 0x0A][..]);
    sprite.erase(&mut surface).unwrap();
    assert_eq!(surface.pixels(), &[0x33u8, 0x33][..]);
}

#[test]
fn sprite_erase_before_draw_fails() {
    let mut surface = canvas(2, 2, vec![7; 4]);
    let sprite = Sprite::new(canvas(1, 1, vec![1]), None, 0);
    assert!(!sprite.is_placed());
    assert_eq!(sprite.erase(&mut surface), Err(GraphicsError::InvalidState));
    assert_eq!(surface.pixels(), &[7u8; 4][..]);
}

#[test]
fn sprite_draw_outside_fails_unchanged() {
    let mut surface = canvas(2, 2, vec![7; 4]);
    let mut sprite = Sprite::new(canvas(2, 2, vec![1; 4]), None, 0);
    assert_eq!(sprite.draw(&mut surface, Point::new(1, 0)), Err(GraphicsError::OutOfBounds));
    assert_eq!(surface.pixels(), &[7u8; 4][..]);
    assert!(!sprite.is_placed());
    assert_eq!(sprite.width(), 2);
    assert_eq!(sprite.height(), 2);
    assert_eq!(sprite.image_rect(), Rect::new(0, 0, 2, 2).unwrap());
}

#[test]
fn palette_scaled_to_dac() {
    let entries = [PaletteEntry { red: 255, green: 128, blue: 3 }, PaletteEntry { red: 4, green: 0, blue: 252 }];
    let dac = dac_palette(&entries);
    assert_eq!(dac.len(), 2);
    assert_eq!(dac[0], VgaDacColour { red: 63, green: 32, blue: 0 });
    assert_eq!(dac[1], VgaDacColour { red: 1, green: 0, blue: 63 });
}
