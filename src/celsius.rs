use vstd::prelude::*;

verus! {

/// The Fahrenheit-to-Celsius transform `(f - 32) / 1.8`, written as a count of ninths of a
/// degree Celsius: `(f - 32) / 1.8 == 5 * (f - 32) / 9`.
pub open spec fn celsius_ninths(f: int) -> int {
    5 * (f - 32)
}

/// `h` hundredths of a degree is the value nearest to `ninths` ninths of a degree.
/// The distance is at most `4/900` of a degree; a tie cannot happen, since 9 is odd.
pub open spec fn nearest_hundredths(ninths: int, h: int) -> bool {
    -4 <= 9 * h - 100 * ninths <= 4
}

/// A temperature in degrees Celsius, held exactly as a whole number of ninths of a degree.
#[derive(Clone, Copy, Debug, PartialEq, Eq, Structural)]
pub struct Celsius {
    pub ninths: i64,
}

impl Celsius {
    /// The Celsius temperature of `f` degrees Fahrenheit, with no rounding.
    pub fn of_fahrenheit(f: i32) -> (r: Celsius)
        ensures
            r.ninths == celsius_ninths(f as int),
    {
        Celsius { ninths: 5 * (f as i64 - 32) }
    }

    /// The temperature in hundredths of a degree, rounded to the nearest.
    pub fn hundredths(&self) -> (r: i128)
        ensures
            nearest_hundredths(self.ninths as int, r as int),
    {
        let t: i128 = 200 * (self.ninths as i128);
        if t >= 0 {
            (t + 9) / 18
        } else {
            -((9 - t) / 18)
        }
    }
}

} // verus!
