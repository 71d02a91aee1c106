//! Precipitation as a reading reports it, and the words for it.

use vstd::prelude::*;
use vstd::string::StringExecFns;
use crate::number::{lemma_order_is_by_value, Number};

verus! {

/// The bits of zero, where the range worded "no" begins.
pub const NONE_FROM: u64 = 0;

/// The bits of 0.002, where "no" ends and "very light" begins.
pub const VERY_LIGHT_FROM: u64 = 0x3f60_624d_d2f1_a9fc;

/// The bits of 0.017, where "very light" ends and "light" begins.
pub const LIGHT_FROM: u64 = 0x3f91_6872_b020_c49c;

/// The bits of 0.1, where "light" ends and "moderate" begins.
pub const MODERATE_FROM: u64 = 0x3fb9_9999_9999_999a;

/// The bits of 0.4, where "moderate" ends; past it the rain is "heavy".
pub const MODERATE_TO: u64 = 0x3fd9_9999_9999_999a;

/// How hard it rains and how likely that is. Made on demand from a reading
/// and not kept.
#[derive(Clone, Copy, Debug, PartialEq, Eq, Structural)]
pub struct Precipitation {
    pub intensity: Number,
    pub probability: Number,
}

/// Whether `intensity` lies in the closed range between the numbers with
/// bits `low` and `high`.
pub open spec fn in_range(intensity: Number, low: u64, high: u64) -> bool {
    intensity.within(Number { bits: low }, Number { bits: high })
}

impl Precipitation {
    /// The word for the intensity: that of the first closed range, taken
    /// from the lightest up, that holds it, so that a value on a boundary
    /// has the lighter word; "heavy" for whatever no range holds, a negative
    /// intensity and one that is not a number included.
    pub open spec fn label(self) -> Seq<char> {
        if in_range(self.intensity, NONE_FROM, VERY_LIGHT_FROM) {
            "no"@
        } else if in_range(self.intensity, VERY_LIGHT_FROM, LIGHT_FROM) {
            "very light"@
        } else if in_range(self.intensity, LIGHT_FROM, MODERATE_FROM) {
            "light"@
        } else if in_range(self.intensity, MODERATE_FROM, MODERATE_TO) {
            "moderate"@
        } else {
            "heavy"@
        }
    }

    /// The sentence that reports a chance of `percent` in a hundred.
    pub open spec fn wording(self, percent: Seq<char>) -> Seq<char> {
        percent + "% chance of "@ + self.label() + " rain."@
    }

    /// Words the intensity.
    pub fn human_intensity(&self) -> (word: String)
        ensures
            word@ == self.label(),
    {
        let x = &self.intensity;
        let none = Number::from_bits(NONE_FROM);
        let very_light = Number::from_bits(VERY_LIGHT_FROM);
        let light = Number::from_bits(LIGHT_FROM);
        let moderate = Number::from_bits(MODERATE_FROM);
        let most = Number::from_bits(MODERATE_TO);
        let word = if x.is_within(&none, &very_light) {
            "no"
        } else if x.is_within(&very_light, &light) {
            "very light"
        } else if x.is_within(&light, &moderate) {
            "light"
        } else if x.is_within(&moderate, &most) {
            "moderate"
        } else {
            "heavy"
        };
        String::from_str(word)
    }

    /// Writes the one-sentence report. `percent` is the probability times a
    /// hundred, rounded to a whole number and written out in decimal.
    pub fn sentence(&self, percent: &str) -> (text: String)
        ensures
            text@ == self.wording(percent@),
    {
        let mut text = String::from_str(percent);
        text.append("% chance of ");
        text.append(self.human_intensity().as_str());
        text.append(" rain.");
        text
    }
}

/// The value of the number with bits `bits`, in units of two to the
/// power -1074.
pub open spec fn value_of(bits: u64) -> int {
    Number { bits }.scaled()
}

/// The word goes by the intensity's value alone: each finite intensity
/// from zero up has the word of the lightest range that reaches its
/// value, a boundary having the lighter of its two words, and an
/// intensity below zero or past the last boundary is "heavy".
pub proof fn lemma_label_by_value(precipitation: Precipitation)
    requires
        precipitation.intensity.is_finite(),
    ensures
        precipitation.label() == if precipitation.intensity.scaled() < 0 {
            "heavy"@
        } else if precipitation.intensity.scaled() <= value_of(VERY_LIGHT_FROM) {
            "no"@
        } else if precipitation.intensity.scaled() <= value_of(LIGHT_FROM) {
            "very light"@
        } else if precipitation.intensity.scaled() <= value_of(MODERATE_FROM) {
            "light"@
        } else if precipitation.intensity.scaled() <= value_of(MODERATE_TO) {
            "moderate"@
        } else {
            "heavy"@
        },
        0 == value_of(NONE_FROM) < value_of(VERY_LIGHT_FROM) < value_of(LIGHT_FROM) < value_of(
            MODERATE_FROM,
        ) < value_of(MODERATE_TO),
{
    let x = precipitation.intensity;
    let none = Number { bits: NONE_FROM };
    let very_light = Number { bits: VERY_LIGHT_FROM };
    let light = Number { bits: LIGHT_FROM };
    let moderate = Number { bits: MODERATE_FROM };
    let most = Number { bits: MODERATE_TO };
    lemma_order_is_by_value(none, x);
    lemma_order_is_by_value(very_light, x);
    lemma_order_is_by_value(light, x);
    lemma_order_is_by_value(moderate, x);
    lemma_order_is_by_value(x, very_light);
    lemma_order_is_by_value(x, light);
    lemma_order_is_by_value(x, moderate);
    lemma_order_is_by_value(x, most);
    lemma_order_is_by_value(none, very_light);
    lemma_order_is_by_value(very_light, none);
    lemma_order_is_by_value(very_light, light);
    lemma_order_is_by_value(light, very_light);
    lemma_order_is_by_value(light, moderate);
    lemma_order_is_by_value(moderate, light);
    lemma_order_is_by_value(moderate, most);
    lemma_order_is_by_value(most, moderate);
    assert(none.scaled() == 0) by {
        assert(crate::number::size(0) == 0);
    }
}

} // verus!
