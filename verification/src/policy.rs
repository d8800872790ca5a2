//! Pure selection helpers shared by the capability-driven policies: value
//! clamping and name-set containment.

use vstd::prelude::*;

verus! {

/// Mathematical clamp of `val` into the closed interval `[lo, hi]`.
pub open spec fn spec_clamp(val: u32, lo: u32, hi: u32) -> u32 {
    if val < lo {
        lo
    } else if val > hi {
        hi
    } else {
        val
    }
}

/// Clamp `val` into `[min, max]`. The bounds must be a proper interval;
/// a caller that cannot guarantee this reports a contract violation
/// instead of calling.
pub fn clamp(val: u32, min: u32, max: u32) -> (r: u32)
    requires
        min < max,
    ensures
        r == spec_clamp(val, min, max),
        min <= r <= max,
        min <= val <= max ==> r == val,
{
    if val < min {
        min
    } else if val > max {
        max
    } else {
        val
    }
}

/// A name occurs (character for character) in a probed list of names.
pub open spec fn name_present(available: Seq<String>, name: Seq<char>) -> bool {
    exists|j: int| 0 <= j < available.len() && available[j]@ == name
}

/// Every requested name occurs in the available list; order and duplicates
/// on either side are irrelevant.
pub open spec fn names_subset(requested: Seq<String>, available: Seq<String>) -> bool {
    forall|i: int| 0 <= i < requested.len() ==> name_present(available, requested[i]@)
}

/// Subset test over probed name sets: true iff every requested name is
/// literally present in the available list (case-sensitive exact match).
pub fn contains_all(requested: &Vec<String>, available: &Vec<String>) -> (r: bool)
    ensures
        r == names_subset(requested@, available@),
{
    let mut i: usize = 0;
    while i < requested.len()
        invariant
            i <= requested.len(),
            forall|k: int| 0 <= k < i ==> name_present(available@, requested@[k]@),
        decreases requested.len() - i,
    {
        let mut found = false;
        let mut j: usize = 0;
        while j < available.len()
            invariant
                j <= available.len(),
                i < requested.len(),
                found <==> exists|l: int| 0 <= l < j && available@[l]@ == requested@[i as int]@,
            decreases available.len() - j,
        {
            if requested[i].eq(&available[j]) {
                found = true;
            }
            j += 1;
        }
        if !found {
            proof {
                assert(!name_present(available@, requested@[i as int]@));
            }
            return false;
        }
        i += 1;
    }
    true
}

} // verus!
