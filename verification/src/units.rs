//! Screen units: dialog units, pixels, and points and dimensions over them.
use vstd::prelude::*;

verus! {

/// Two dialog units take seven pixels: the scale factor is 3.5.
pub const UI_SCALE_NUMERATOR: u64 = 7;

pub const UI_SCALE_DENOMINATOR: u64 = 2;

/// What a 32-bit unsigned number is when its bits are read as a signed one.
pub open spec fn reinterpret_as_signed(value: u32) -> int {
    if value <= i32::MAX {
        value as int
    } else {
        value as int - 0x1_0000_0000
    }
}

/// The number of pixels that a number of dialog units takes: three and a half
/// times as many, rounded down, and never more than a `u32` holds.
pub open spec fn scaled_to_pixels(dialog_units: u32) -> int {
    let scaled = (dialog_units as int * 7) / 2;
    if scaled > u32::MAX {
        u32::MAX as int
    } else {
        scaled
    }
}

/// The signed number with the same bits.
pub fn signed_bits(value: u32) -> (raw: i32)
    ensures
        raw as int == reinterpret_as_signed(value),
{
    if value <= 0x7fff_ffff {
        value as i32
    } else {
        let low: u32 = value - 0x8000_0000;
        let shifted: i32 = low as i32;
        shifted - 0x7fff_ffff - 1
    }
}

/// An abstract unit used for dialog dimensions, independent of the screen's
/// resolution.
#[derive(Copy, Clone, Eq, PartialEq, Ord, PartialOrd, Hash, Debug)]
pub struct DialogUnits(pub u32);

impl DialogUnits {
    pub fn get(self) -> (value: u32)
        ensures
            value == self.0,
    {
        self.0
    }

    pub fn as_raw(self) -> (raw: i32)
        ensures
            raw as int == reinterpret_as_signed(self.0),
    {
        signed_bits(self.0)
    }
}

/// Pixels on a screen.
#[derive(Copy, Clone, Eq, PartialEq, Ord, PartialOrd, Hash, Debug)]
pub struct Pixels(pub u32);

impl Pixels {
    pub fn get(self) -> (value: u32)
        ensures
            value == self.0,
    {
        self.0
    }

    pub fn as_raw(self) -> (raw: i32)
        ensures
            raw as int == reinterpret_as_signed(self.0),
    {
        signed_bits(self.0)
    }
}

/// Point in a coordinate system.
#[derive(Copy, Clone, Eq, PartialEq, Ord, PartialOrd, Hash, Debug)]
pub struct Point<T> {
    pub x: T,
    pub y: T,
}

impl<T> Point<T> {
    pub fn new(x: T, y: T) -> (point: Self)
        ensures
            point.x == x,
            point.y == y,
    {
        Self { x, y }
    }
}

fn scale(dialog_units: u32) -> (pixels: u32)
    ensures
        pixels as int == scaled_to_pixels(dialog_units),
{
    let wide: u64 = dialog_units as u64;
    let scaled: u64 = wide * UI_SCALE_NUMERATOR / UI_SCALE_DENOMINATOR;
    if scaled > 0xffff_ffff {
        0xffff_ffff
    } else {
        scaled as u32
    }
}

impl Point<DialogUnits> {
    /// Converts this dialog unit point to pixels.
    pub fn in_pixels(&self) -> (pixels: Point<Pixels>)
        ensures
            pixels.x.0 as int == scaled_to_pixels(self.x.0),
            pixels.y.0 as int == scaled_to_pixels(self.y.0),
    {
        Point { x: Pixels(scale(self.x.get())), y: Pixels(scale(self.y.get())) }
    }
}

impl<T: Copy> Point<T> {
    pub fn to_dimensions(&self) -> (dimensions: Dimensions<T>)
        ensures
            dimensions.width == self.x,
            dimensions.height == self.y,
    {
        Dimensions::new(self.x, self.y)
    }
}

/// Dimensions of a rectangle.
#[derive(Copy, Clone, Eq, PartialEq, Ord, PartialOrd, Hash, Debug)]
pub struct Dimensions<T> {
    pub width: T,
    pub height: T,
}

impl<T> Dimensions<T> {
    pub fn new(width: T, height: T) -> (dimensions: Self)
        ensures
            dimensions.width == width,
            dimensions.height == height,
    {
        Self { width, height }
    }
}

impl<T: Copy> Dimensions<T> {
    pub fn to_point(&self) -> (point: Point<T>)
        ensures
            point.x == self.width,
            point.y == self.height,
    {
        Point::new(self.width, self.height)
    }
}

impl Dimensions<Pixels> {
    /// The width and the height as the signed numbers that a plug-in host takes.
    pub fn to_vst(&self) -> (size: (i32, i32))
        ensures
            size.0 as int == reinterpret_as_signed(self.width.0),
            size.1 as int == reinterpret_as_signed(self.height.0),
    {
        (signed_bits(self.width.get()), signed_bits(self.height.get()))
    }
}

impl Dimensions<DialogUnits> {
    /// Converts the given dialog unit dimensions to pixels.
    pub fn in_pixels(&self) -> (pixels: Dimensions<Pixels>)
        ensures
            pixels.width.0 as int == scaled_to_pixels(self.width.0),
            pixels.height.0 as int == scaled_to_pixels(self.height.0),
    {
        self.to_point().in_pixels().to_dimensions()
    }
}

impl<T: Copy> From<Dimensions<T>> for Point<T> {
    fn from(d: Dimensions<T>) -> (point: Self) {
        d.to_point()
    }
}

impl<T: Copy> vstd::std_specs::convert::FromSpecImpl<Dimensions<T>> for Point<T> {
    open spec fn obeys_from_spec() -> bool {
        true
    }

    open spec fn from_spec(d: Dimensions<T>) -> Self {
        Point { x: d.width, y: d.height }
    }
}

impl<T: Copy> From<Point<T>> for Dimensions<T> {
    fn from(p: Point<T>) -> (dimensions: Self) {
        p.to_dimensions()
    }
}

impl<T: Copy> vstd::std_specs::convert::FromSpecImpl<Point<T>> for Dimensions<T> {
    open spec fn obeys_from_spec() -> bool {
        true
    }

    open spec fn from_spec(p: Point<T>) -> Self {
        Dimensions { width: p.x, height: p.y }
    }
}

/// The optimal size of the main panel in dialog units.
pub fn main_panel_dimensions() -> (dimensions: Dimensions<DialogUnits>)
    ensures
        dimensions.width.0 == 470,
        dimensions.height.0 == 423,
{
    Dimensions::new(DialogUnits(470), DialogUnits(423))
}

} // verus!
