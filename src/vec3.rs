//! The kinds of quantity that a three-component vector can stand for. A
//! vector is tagged with one of them, so that a point and a color, though
//! built alike, are never mixed up without an explicit conversion.
use vstd::prelude::*;

verus! {

/// A kind of quantity that is written with three components.
pub trait ExpressibleInThree: Copy {
}

/// Tag of a linear RGB color.
#[derive(Debug, Default, Copy, Clone)]
pub struct Color();

impl ExpressibleInThree for Color {
}

/// Tag of a point or a direction in space.
#[derive(Debug, Default, Copy, Clone)]
pub struct Point3();

impl ExpressibleInThree for Point3 {
}

} // verus!
