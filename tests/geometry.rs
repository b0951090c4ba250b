use awita::geometry::{
    Logical, Physical, Point, Screen, Size, ToLogical, ToPhysical, DEFAULT_DPI,
};

#[test]
fn cast() {
    let src = Logical(Point::new(128i32, 256i32));
    let dest = src.cast().unwrap();
    assert!(src.x as u32 == dest.x);
    assert!(src.y as u32 == dest.y);
}

#[test]
fn logical_to_logical() {
    let src = Logical(Point::new(128, 256));
    let dest = src.to_logical(DEFAULT_DPI);
    assert!(src.x == dest.x);
    assert!(src.y == dest.y);
}

#[test]
fn logical_to_physical() {
    let src = Logical(Point::new(128, 256));
    let dest = src.to_physical(DEFAULT_DPI * 2);
    assert!(src.x * 2 == dest.x);
    assert!(src.y * 2 == dest.y);
}

#[test]
fn physical_to_physical() {
    let src = Physical(Point::new(128, 256));
    let dest = src.to_physical(DEFAULT_DPI);
    assert!(src.x == dest.x);
    assert!(src.y == dest.y);
}

#[test]
fn physical_to_logical() {
    let src = Physical(Point::new(128, 256));
    let dest = src.to_logical(DEFAULT_DPI * 2);
    assert!(src.x == dest.x * 2);
    assert!(src.y == dest.y * 2);
}

#[test]
fn negative_coordinates_round_toward_zero() {
    let src = Physical(Point::new(-7, 7));
    let dest = src.to_logical(DEFAULT_DPI * 2);
    assert_eq!(dest.x, -3);
    assert_eq!(dest.y, 3);
    let up = Logical(Point::new(-5, 5)).to_physical(144);
    assert_eq!(up.x, -7);
    assert_eq!(up.y, 7);
}

#[test]
fn sizes_scale_with_resolution() {
    let size = Logical(Size::new(640u32, 480u32)).to_physical(120);
    assert_eq!(size.width, 800);
    assert_eq!(size.height, 600);
    let back = size.to_logical(120);
    assert_eq!(back.width, 640);
    assert_eq!(back.height, 480);
    let same = Physical(Size::new(3u32, 5u32)).to_physical(300);
    assert_eq!(same.width, 3);
    let same = Logical(Size::new(3u32, 5u32)).to_logical(300);
    assert_eq!(same.height, 5);
}

#[test]
fn casts_refuse_values_out_of_range() {
    assert!(Logical(Point::new(-1i32, 2)).cast().is_none());
    assert!(Screen(Point::new(4i32, -2)).cast().is_none());
    let s = Screen(Point::new(4i32, 2)).cast().unwrap();
    assert_eq!(s.x, 4u32);
    assert!(Physical(Size::new(u32::MAX, 1)).cast().is_none());
    let p = Physical(Size::new(7u32, 9u32)).cast().unwrap();
    assert_eq!(p.height, 9i32);
    assert!(Logical(Size::new(1u32, 2u32)).cast().is_some());
}
