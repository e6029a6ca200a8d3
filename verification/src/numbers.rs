use vstd::prelude::*;

verus! {

/// What adding one to an optional number yields: the successor when a number
/// is present, and nothing when none is.
pub open spec fn plus_one_spec(x: Option<i32>) -> Option<i32> {
    match x {
        Some(n) => Some((n + 1) as i32),
        None => None,
    }
}

/// Add one to an optional number, handling every variant.
pub fn plus_one(x: Option<i32>) -> (r: Option<i32>)
    requires
        x matches Some(n) ==> n < i32::MAX,
    ensures
        r == plus_one_spec(x),
{
    match x {
        Some(n) => Some(n + 1),
        None => None,
    }
}

} // verus!
