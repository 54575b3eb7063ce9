//! Sizes and rectangles in physical pixels.

use vstd::prelude::*;

verus! {

/// The size of the host window.
#[derive(Clone, Copy, Debug, PartialEq, Eq)]
pub struct PhysicalSize {
    pub width: u32,
    pub height: u32,
}

/// A rectangle in output-local space.
#[derive(Clone, Copy, Debug, PartialEq, Eq)]
pub struct Rectangle {
    pub x: i32,
    pub y: i32,
    pub width: i32,
    pub height: i32,
}

/// An unsigned extent read as a signed one of the same 32 bits: extents
/// above `i32::MAX` come out negative.
pub open spec fn signed_extent(extent: u32) -> int {
    if extent <= i32::MAX {
        extent as int
    } else {
        extent - 0x1_0000_0000
    }
}

/// The rectangle of a window of this size, at the origin.
pub open spec fn window_rectangle(size: PhysicalSize) -> Rectangle {
    Rectangle {
        x: 0,
        y: 0,
        width: signed_extent(size.width) as i32,
        height: signed_extent(size.height) as i32,
    }
}

/// Where an output lies: where the scene graph has it, or else the host
/// window's rectangle at the origin.
pub open spec fn output_geometry(known: Option<Rectangle>, window: PhysicalSize) -> Rectangle {
    match known {
        Some(rectangle) => rectangle,
        None => window_rectangle(window),
    }
}

fn to_signed_extent(extent: u32) -> (signed: i32)
    ensures
        signed == signed_extent(extent),
{
    if extent <= 0x7fff_ffff {
        extent as i32
    } else {
        let low: i32 = (extent - 0x8000_0000) as i32;
        low + i32::MIN
    }
}

impl Rectangle {
    /// Computes [`window_rectangle`].
    pub fn of_window(size: PhysicalSize) -> (rectangle: Rectangle)
        ensures
            rectangle == window_rectangle(size),
    {
        Rectangle {
            x: 0,
            y: 0,
            width: to_signed_extent(size.width),
            height: to_signed_extent(size.height),
        }
    }

    /// Computes [`output_geometry`].
    pub fn of_output(known: Option<Rectangle>, window: PhysicalSize) -> (rectangle: Rectangle)
        ensures
            rectangle == output_geometry(known, window),
    {
        match known {
            Some(rectangle) => rectangle,
            None => Rectangle::of_window(window),
        }
    }
}

} // verus!
