//! Colour categories that the game's colour-type macros select.

use vstd::prelude::*;

verus! {

/// Types of color formatting
#[non_exhaustive]
#[derive(Debug, PartialEq, Eq, Structural, Clone, Copy)]
pub enum ColorCategory {
    NoColor,
    Green,
    Yellow,
    Orange,
    White,
    Ascian,
    Accompany,
    Adjusted,
    QuestSync,
    Hint,
    Unknown(u32),
}

/// The category that a colour-type number selects.
pub open spec fn category_of(value: u32) -> ColorCategory {
    if value == 0 {
        ColorCategory::NoColor
    } else if value == 504 || value == 505 {
        ColorCategory::Green
    } else if value == 506 || value == 507 {
        ColorCategory::Yellow
    } else if value == 500 || value == 501 {
        ColorCategory::Orange
    } else if value == 571 || value == 572 {
        ColorCategory::White
    } else if value == 547 {
        ColorCategory::Ascian
    } else if value == 548 {
        ColorCategory::Accompany
    } else if value == 533 || value == 534 {
        ColorCategory::Adjusted
    } else if value == 508 || value == 509 {
        ColorCategory::QuestSync
    } else if value == 582 || value == 581 {
        ColorCategory::Hint
    } else {
        ColorCategory::Unknown(value)
    }
}

impl Default for ColorCategory {
    fn default() -> (r: Self)
        ensures
            r == ColorCategory::NoColor,
    {
        ColorCategory::NoColor
    }
}

impl From<u32> for ColorCategory {
    fn from(value: u32) -> (r: Self) {
        match value {
            0 => ColorCategory::NoColor,
            504 | 505 => ColorCategory::Green,
            506 | 507 => ColorCategory::Yellow,
            500 | 501 => ColorCategory::Orange,
            571 | 572 => ColorCategory::White,
            547 => ColorCategory::Ascian,
            548 => ColorCategory::Accompany,
            533 | 534 => ColorCategory::Adjusted,
            508 | 509 => ColorCategory::QuestSync,
            582 | 581 => ColorCategory::Hint,
            _ => ColorCategory::Unknown(value),
        }
    }
}

impl vstd::std_specs::convert::FromSpecImpl<u32> for ColorCategory {
    open spec fn obeys_from_spec() -> bool {
        true
    }

    open spec fn from_spec(value: u32) -> Self {
        category_of(value)
    }
}

/// Every number is in exactly one of two cases: it names a known category
/// (zero naming `NoColor`), or it is kept as `Unknown` with itself inside.
pub proof fn law_category_of_number(value: u32)
    ensures
        category_of(value) is Unknown <==> category_of(value) == ColorCategory::Unknown(value),
        (category_of(value) == ColorCategory::NoColor) <==> value == 0,
{
}

} // verus!
