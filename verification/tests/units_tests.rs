use clip_engine::units::{main_panel_dimensions, signed_bits, DialogUnits, Dimensions, Pixels,
    Point};

#[test]
fn dialog_units_scale_by_three_and_a_half() {
    let point = Point::new(DialogUnits(470), DialogUnits(423));
    let pixels = point.in_pixels();
    assert_eq!(pixels, Point::new(Pixels(1645), Pixels(1480)));
    assert_eq!(Point::new(DialogUnits(1), DialogUnits(3)).in_pixels(),
        Point::new(Pixels(3), Pixels(10)));
}

#[test]
fn scaling_saturates() {
    let dimensions = Dimensions::new(DialogUnits(u32::MAX), DialogUnits(0));
    assert_eq!(dimensions.in_pixels(), Dimensions::new(Pixels(u32::MAX), Pixels(0)));
}

#[test]
fn raw_values_reinterpret_the_bits() {
    assert_eq!(DialogUnits(7).get(), 7);
    assert_eq!(DialogUnits(7).as_raw(), 7);
    assert_eq!(Pixels(u32::MAX).as_raw(), -1);
    assert_eq!(Pixels(0x8000_0000).as_raw(), i32::MIN);
    assert_eq!(Pixels(0x7fff_ffff).as_raw(), i32::MAX);
    assert_eq!(Dimensions::new(Pixels(800), Pixels(u32::MAX - 1)).to_vst(), (800, -2));
}

#[test]
fn points_and_dimensions_convert_both_ways() {
    let point = Point::new(Pixels(3), Pixels(4));
    let dimensions = point.to_dimensions();
    assert_eq!(dimensions.width, Pixels(3));
    assert_eq!(dimensions.height, Pixels(4));
    assert_eq!(dimensions.to_point(), point);
}

#[test]
fn points_and_dimensions_convert_with_from() {
    let point = Point::new(DialogUnits(1), DialogUnits(2));
    let dimensions: Dimensions<DialogUnits> = point.into();
    assert_eq!(dimensions, Dimensions::new(DialogUnits(1), DialogUnits(2)));
    assert_eq!(Point::from(dimensions), point);
}

#[test]
fn the_main_panel_has_its_size() {
    assert_eq!(main_panel_dimensions(), Dimensions::new(DialogUnits(470), DialogUnits(423)));
    assert_eq!(main_panel_dimensions().in_pixels(), Dimensions::new(Pixels(1645), Pixels(1480)));
    assert_eq!(signed_bits(0xffff_fffe), -2);
}
