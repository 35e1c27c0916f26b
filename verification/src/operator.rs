//! The names of the comparison operators, as comparisons are rendered.

use vstd::prelude::*;

verus! {

pub const GE: &'static str = "GreaterThanOrEqualTo";
pub const GT: &'static str = "GreaterThan";
pub const LE: &'static str = "LessThanOrEqualTo";
pub const LT: &'static str = "LessThan";
pub const EQ: &'static str = "Equal";
pub const NE: &'static str = "NotEqual";

/// The operator names in the order in which a condition is matched
/// against them.
pub open spec fn operator_names() -> Seq<Seq<char>> {
    seq![GE@, GT@, LT@, LE@, EQ@, NE@]
}

/// The operator names in matching order.
pub fn vars() -> (r: Vec<&'static str>)
    ensures
        r@.map_values(|s: &str| s@) == operator_names(),
{
    let r = vec![GE, GT, LT, LE, EQ, NE];
    assert(r@.map_values(|s: &str| s@) =~= operator_names());
    r
}

} // verus!
