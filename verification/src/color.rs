//! The color value type and its conversion to the LED driver's pixel type.

use vstd::prelude::*;

verus! {

/// One LED color: red, green and blue channel intensities.
#[derive(Clone, Copy, PartialEq, Eq, Structural, Debug)]
pub struct MyColor(pub u8, pub u8, pub u8);

/// The pixel struct of the `rgb` crate, which `smart_leds` re-exports as
/// `RGB8` and the LED driver takes; its three channel fields are public.
#[verifier::external_type_specification]
#[verifier::reject_recursive_types(T)]
pub struct ExRgb<T>(rgb::Rgb<T>);

impl MyColor {
    /// Channel-wise floor halving of the brightness.
    pub open spec fn half_spec(self) -> MyColor {
        MyColor((self.0 / 2) as u8, (self.1 / 2) as u8, (self.2 / 2) as u8)
    }

    /// Halve every channel, rounding down.
    pub fn half_brightness(self) -> (r: Self)
        ensures
            r == self.half_spec(),
            r.0 == self.0 / 2,
            r.1 == self.1 / 2,
            r.2 == self.2 / 2,
    {
        MyColor(self.0 / 2, self.1 / 2, self.2 / 2)
    }

    /// Repack the channels into the driver's pixel type, unchanged.
    pub fn to_rgb8(self) -> (r: smart_leds::RGB8)
        ensures
            r.r == self.0,
            r.g == self.1,
            r.b == self.2,
    {
        smart_leds::RGB8 { r: self.0, g: self.1, b: self.2 }
    }
}

} // verus!
