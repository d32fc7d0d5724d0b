use rust_dos::brick::{cell_index, Brick, BrickFormat, BrickGraphics};
use rust_dos::canvas::Canvas;
use rust_dos::error::GraphicsError;
use rust_dos::geometry::{Point, Rect};
use rust_dos::random::RandomNumberGenerator;

fn canvas(width: i32, height: i32, pixels: Vec<u8>) -> Canvas {
    Canvas::new(Rect::new(0, 0, width, height).unwrap(), pixels).unwrap()
}

#[test]
fn brick_attribute_packing() {
    let mut b = Brick::new(true, BrickFormat::Left, 5);
    assert!(b.breakable());
    assert_eq!(b.format(), BrickFormat::Left);
    assert_eq!(b.format_raw(), 1);
    assert_eq!(b.brick_type(), 5);
    b.set_breakable(false);
    assert!(!b.breakable());
    b.set_format(BrickFormat::Half);
    assert_eq!(b.format(), BrickFormat::Half);
    assert_eq!(b.format_raw(), 3);
    b.set_brick_type(31);
    assert_eq!(b.brick_type(), 31);
    assert_eq!(b, Brick::from_byte(0x7F));
    let wall = Brick::from_byte(0x61);
    assert_eq!(wall.format(), BrickFormat::Half);
    assert_eq!(wall.brick_type(), 1);
    assert!(!wall.breakable());
    assert_eq!(Brick::from_byte(0xc2).format(), BrickFormat::Right);
    assert!(Brick::from_byte(0xc2).breakable());
}

#[test]
fn pcg_sequence() {
    let mut g = RandomNumberGenerator::new(13145, 535);
    let drawn: Vec<u32> = (0..5).map(|_| g.next()).collect();
    assert_eq!(drawn, vec![232183569, 1913618390, 1440486876, 82794830, 1829472909]);
    let mut h = RandomNumberGenerator::new(42, 54);
    assert_eq!(h.next(), 1500647146);
    assert_eq!(h.next(), 2986427943);
    h.seed(42);
    let mut again = RandomNumberGenerator::new(42, 54);
    again.seed(42);
    assert_eq!(h.next(), again.next());
}

fn artwork() -> BrickGraphics {
    let row = vec![canvas(1, 1, vec![255]), canvas(1, 1, vec![7]), canvas(1, 1, vec![9])];
    BrickGraphics::new(vec![row])
}

#[test]
fn brick_drawing_shifts_by_type() {
    let mut bricks = artwork();
    let mut surface = canvas(2, 1, vec![0, 0]);
    bricks.draw(&mut surface, Point::new(1, 0), Brick::new(false, BrickFormat::Right, 2)).unwrap();
    assert_eq!(surface.pixels(), &[0u8, 13][..]);
    // Transparent artwork keeps the background, but the area is still shifted.
    bricks.draw(&mut surface, Point::new(0, 0), Brick::new(true, BrickFormat::Left, 1)).unwrap();
    assert_eq!(surface.pixels(), &[0u8, 13][..]);
    bricks.draw(&mut surface, Point::new(0, 0), Brick::new(true, BrickFormat::Half, 3)).unwrap();
    assert_eq!(surface.pixels(), &[21u8, 13][..]);
}

#[test]
fn brick_drawing_edge_cases() {
    let mut bricks = artwork();
    let mut surface = canvas(2, 1, vec![4, 4]);
    assert_eq!(bricks.draw(&mut surface, Point::new(0, 0), Brick::from_byte(0x60)), Ok(()));
    assert_eq!(bricks.draw(&mut surface, Point::new(0, 0), Brick::from_byte(0x01)), Err(GraphicsError::InvalidFormat));
    assert_eq!(
        bricks.draw(&mut surface, Point::new(2, 0), Brick::new(false, BrickFormat::Half, 1)),
        Err(GraphicsError::OutOfBounds)
    );
    assert_eq!(surface.pixels(), &[4u8, 4][..]);
}

#[test]
fn playfield_cells() {
    let dims = Point::new(32, 20);
    assert_eq!(cell_index(Point::new(0, 0), dims), Some(0));
    assert_eq!(cell_index(Point::new(5, 2), dims), Some(69));
    assert_eq!(cell_index(Point::new(31, 19), dims), Some(639));
    assert_eq!(cell_index(Point::new(32, 0), dims), None);
    assert_eq!(cell_index(Point::new(0, -1), dims), None);
    assert_eq!(cell_index(Point::new(25, 39).div(Point::new(10, 10)), dims), Some(98));
}
