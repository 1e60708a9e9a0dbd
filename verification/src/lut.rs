//! The brightness table: linear intensity to PWM duty counts.
//!
//! The eye does not see brightness linearly, so intensities are mapped
//! through a square curve before they reach the PWM compare register.

use vstd::prelude::*;

verus! {

/// The duty count for one intensity: the square of the intensity times
/// `top_counts` over the square of 255, computed in integers as
/// `(intensity * intensity * top_counts + 32) / 65025`.
pub open spec fn duty_of(intensity: int, top_counts: u16) -> int {
    (intensity * intensity * top_counts + 32) / 65_025
}

/// The curve never falls as the intensity grows, starts at zero and ends at
/// `top_counts`.
pub proof fn lemma_duty_curve(i: int, j: int, top_counts: u16)
    requires
        0 <= i <= j <= 255,
    ensures
        duty_of(0, top_counts) == 0,
        duty_of(255, top_counts) == top_counts,
        0 <= duty_of(i, top_counts) <= duty_of(j, top_counts) <= top_counts,
{
    let top = top_counts as int;
    assert(0 <= i * i <= j * j <= 65_025) by (nonlinear_arith)
        requires
            0 <= i <= j <= 255,
    ;
    let a = i * i;
    let b = j * j;
    assert(0 <= a * top <= b * top <= 65_025 * top) by (nonlinear_arith)
        requires
            0 <= a <= b <= 65_025,
            0 <= top,
    ;
    assert(0 * 0 * top == 0) by (nonlinear_arith);
    assert(255 * 255 * top == 65_025 * top) by (nonlinear_arith);
    assert((65_025 * top + 32) / 65_025 == top);
}

/// Builds the table that maps the intensities 0..=255 to duty counts for a
/// PWM period of `top_counts` counter steps.
pub fn create_lut(top_counts: u16) -> (lut: [u16; 256])
    ensures
        forall|i: int| 0 <= i < 256 ==> #[trigger] lut[i] == duty_of(i, top_counts),
        lut[0] == 0,
        lut[255] == top_counts,
        forall|i: int, j: int| 0 <= i <= j < 256 ==> lut[i] <= lut[j],
        forall|i: int| 0 <= i < 256 ==> #[trigger] lut[i] <= top_counts,
{
    let mut lut = [0u16; 256];
    let mut i: usize = 0;
    while i < 256
        invariant
            i <= 256,
            forall|k: int| 0 <= k < i ==> #[trigger] lut[k] == duty_of(k, top_counts),
        decreases 256 - i,
    {
        proof {
            lemma_duty_curve(i as int, i as int, top_counts);
            assert(0 <= (i as int) * (i as int) <= 65_025) by (nonlinear_arith)
                requires
                    0 <= i <= 255,
            ;
            let square = (i as int) * (i as int);
            let top = top_counts as int;
            assert(0 <= square * top <= 65_025 * 65_535) by (nonlinear_arith)
                requires
                    0 <= square <= 65_025,
                    0 <= top <= 65_535,
            ;
        }
        let square: u32 = (i as u32) * (i as u32);
        lut[i] = ((square * (top_counts as u32) + 32) / 65_025) as u16;
        i += 1;
    }
    proof {
        assert forall|a: int, b: int| 0 <= a <= b < 256 implies lut[a] <= lut[b] by {
            lemma_duty_curve(a, b, top_counts);
        }
        assert forall|a: int| 0 <= a < 256 implies #[trigger] lut[a] <= top_counts by {
            lemma_duty_curve(a, a, top_counts);
        }
        lemma_duty_curve(0, 255, top_counts);
    }
    lut
}

/// A brightness table together with the PWM period it was built for. It
/// does not change after construction.
pub struct BrightnessTable {
    entries: [u16; 256],
    top: u16,
}

impl BrightnessTable {
    #[verifier::type_invariant]
    spec fn inv(self) -> bool {
        forall|i: int| 0 <= i < 256 ==> #[trigger] self.entries[i] == duty_of(i, self.top)
    }

    /// The PWM period in counter steps that the duty counts are scaled to.
    pub closed spec fn top_counts(&self) -> u16 {
        self.top
    }

    /// Builds the table for a PWM period of `top_counts` counter steps.
    pub fn new(top_counts: u16) -> (table: Self)
        ensures
            table.top_counts() == top_counts,
    {
        BrightnessTable { entries: create_lut(top_counts), top: top_counts }
    }

    /// Looks up the duty count of an intensity. The count never exceeds the
    /// period.
    pub fn duty(&self, intensity: u8) -> (duty: u16)
        ensures
            duty == duty_of(intensity as int, self.top_counts()),
            duty <= self.top_counts(),
    {
        proof {
            use_type_invariant(self);
            lemma_duty_curve(intensity as int, intensity as int, self.top);
        }
        self.entries[intensity as usize]
    }
}

} // verus!
