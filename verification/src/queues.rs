//! Queue family selection: scan the probed per-family support in index
//! order and record the first graphics-capable family and the first
//! presentation-capable family. The two scans are independent and may land
//! on the same or on different indices.

use vstd::prelude::*;
use crate::model::QueueFamilySupport;

verus! {

/// Some family in the list supports graphics work.
pub open spec fn has_graphics(families: Seq<QueueFamilySupport>) -> bool {
    exists|i: int| 0 <= i < families.len() && families[i].graphics
}

/// Some family in the list can present to the target surface.
pub open spec fn has_present(families: Seq<QueueFamilySupport>) -> bool {
    exists|i: int| 0 <= i < families.len() && families[i].present
}

/// `i` is the first graphics-capable index of the list.
pub open spec fn is_first_graphics(families: Seq<QueueFamilySupport>, i: int) -> bool {
    &&& 0 <= i < families.len()
    &&& families[i].graphics
    &&& forall|j: int| 0 <= j < i ==> !families[j].graphics
}

/// `i` is the first presentation-capable index of the list.
pub open spec fn is_first_present(families: Seq<QueueFamilySupport>, i: int) -> bool {
    &&& 0 <= i < families.len()
    &&& families[i].present
    &&& forall|j: int| 0 <= j < i ==> !families[j].present
}

/// The outcome of the queue family scan: the chosen graphics family and
/// the chosen present family, each absent when no family qualified.
#[derive(Clone, Copy, Debug, PartialEq, Eq)]
pub struct QueueFamilyIndices {
    pub graphics_family: Option<u32>,
    pub present_family: Option<u32>,
}

impl QueueFamilyIndices {
    /// Both a graphics family and a present family have been found.
    pub open spec fn spec_complete(self) -> bool {
        self.graphics_family is Some && self.present_family is Some
    }

    /// Selection is complete: a graphics-capable and a presentation-capable
    /// family were both found.
    pub fn is_complete(&self) -> (r: bool)
        ensures
            r == self.spec_complete(),
    {
        self.graphics_family.is_some() && self.present_family.is_some()
    }
}

/// Scan the queue families in index order. The graphics choice is the
/// first graphics-capable index, the present choice the first
/// presentation-capable index; each is `None` exactly when no index of the
/// list qualifies, so the result is complete only when both capabilities
/// were found within the list's bounds.
pub fn find_queue_family(families: &Vec<QueueFamilySupport>) -> (r: QueueFamilyIndices)
    requires
        families@.len() <= u32::MAX,
    ensures
        match r.graphics_family {
            Some(g) => is_first_graphics(families@, g as int),
            None => !has_graphics(families@),
        },
        match r.present_family {
            Some(p) => is_first_present(families@, p as int),
            None => !has_present(families@),
        },
        r.spec_complete() <==> has_graphics(families@) && has_present(families@),
{
    let mut graphics_family: Option<u32> = None;
    let mut present_family: Option<u32> = None;
    let mut i: usize = 0;
    while i < families.len()
        invariant
            i <= families@.len() <= u32::MAX,
            match graphics_family {
                Some(g) => is_first_graphics(families@, g as int),
                None => forall|j: int| 0 <= j < i ==> !families@[j].graphics,
            },
            match present_family {
                Some(p) => is_first_present(families@, p as int),
                None => forall|j: int| 0 <= j < i ==> !families@[j].present,
            },
        decreases families@.len() - i,
    {
        if graphics_family.is_none() && families[i].graphics {
            graphics_family = Some(i as u32);
        }
        if present_family.is_none() && families[i].present {
            present_family = Some(i as u32);
        }
        i += 1;
    }
    QueueFamilyIndices { graphics_family, present_family }
}

} // verus!
