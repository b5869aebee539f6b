use lvgl_display::area::Area;

#[test]
fn new_keeps_the_corners() {
    let area = Area::new(-3, 4, 10, 20);
    assert_eq!(area, Area { x1: -3, y1: 4, x2: 10, y2: 20 });
}

#[test]
fn size_of_an_ordered_area() {
    let area = Area::new(0, 0, 3, 1);
    assert!(area.is_ordered());
    assert_eq!(area.width(), 4);
    assert_eq!(area.height(), 2);
    assert_eq!(area.pixel_count(), 8);
}

#[test]
fn a_single_pixel_area() {
    let area = Area::new(7, -2, 7, -2);
    assert!(area.is_ordered());
    assert_eq!((area.width(), area.height(), area.pixel_count()), (1, 1, 1));
    assert_eq!(area.offset_of(7, -2), Some(0));
}

#[test]
fn an_area_with_corners_out_of_order_is_empty() {
    for area in [Area::new(3, 0, 0, 5), Area::new(0, 5, 3, 0), Area::new(1, 1, 0, 0)] {
        assert!(!area.is_ordered());
        assert_eq!((area.width(), area.height(), area.pixel_count()), (0, 0, 0));
        assert!(!area.contains(area.x1, area.y1));
        assert_eq!(area.offset_of(area.x1, area.y1), None);
    }
}

#[test]
fn the_largest_area() {
    let area = Area::new(i16::MIN, i16::MIN, i16::MAX, i16::MAX);
    assert_eq!(area.width(), 65536);
    assert_eq!(area.height(), 65536);
    assert_eq!(area.pixel_count(), 1u64 << 32);
    assert_eq!(area.offset_of(i16::MIN, i16::MIN), Some(0));
    assert_eq!(area.offset_of(i16::MAX, i16::MAX), Some((1u64 << 32) - 1));
    assert_eq!(area.offset_of(i16::MIN, 0), Some(65536u64 * 32768));
}

#[test]
fn contains_the_corners_and_nothing_beyond() {
    let area = Area::new(-2, 3, 4, 5);
    assert!(area.contains(-2, 3));
    assert!(area.contains(4, 5));
    assert!(area.contains(0, 4));
    assert!(!area.contains(-3, 3));
    assert!(!area.contains(5, 5));
    assert!(!area.contains(0, 2));
    assert!(!area.contains(0, 6));
}

#[test]
fn offset_is_width_times_row_plus_column() {
    let area = Area::new(10, 20, 14, 22);
    assert_eq!(area.width(), 5);
    assert_eq!(area.offset_of(10, 20), Some(0));
    assert_eq!(area.offset_of(14, 20), Some(4));
    assert_eq!(area.offset_of(10, 21), Some(5));
    assert_eq!(area.offset_of(12, 21), Some(5 * 1 + 2));
    assert_eq!(area.offset_of(14, 22), Some(14));
}

#[test]
fn offset_of_a_pixel_outside_is_none() {
    let area = Area::new(10, 20, 14, 22);
    assert_eq!(area.offset_of(9, 20), None);
    assert_eq!(area.offset_of(15, 20), None);
    assert_eq!(area.offset_of(10, 19), None);
    assert_eq!(area.offset_of(10, 23), None);
}

#[test]
fn offsets_number_the_pixels_row_by_row() {
    let area = Area::new(-1, -1, 2, 1);
    let mut expected = 0u64;
    for y in -1..=1i16 {
        for x in -1..=2i16 {
            assert_eq!(area.offset_of(x, y), Some(expected));
            expected += 1;
        }
    }
    assert_eq!(expected, area.pixel_count());
}
