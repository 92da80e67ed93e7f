//! Choosing among what the GPU offers at start-up.

use vstd::prelude::*;

verus! {

/// What one queue family of a device can do, as far as the renderer cares.
#[derive(Debug, Clone, Copy)]
pub struct QueueSupport {
    /// Whether the family takes graphics commands.
    pub graphics: bool,
    /// Whether the family can present to the window's surface, or `None`
    /// where the device would not tell.
    pub presents: Option<bool>,
}

impl QueueSupport {
    /// Whether the family can draw and present. A family of which the device
    /// would not tell is taken not to present.
    pub open spec fn suitable(self) -> bool {
        self.graphics && self.presents == Some(true)
    }

    /// Whether the family can draw and present.
    pub fn is_suitable(&self) -> (ok: bool)
        ensures
            ok == self.suitable(),
    {
        self.graphics && match self.presents {
            Some(presents) => presents,
            None => false,
        }
    }
}

/// The first of the families that can draw and present, by its position, or
/// `None` where the device has no such family.
pub fn choose_queue_family(families: &[QueueSupport]) -> (chosen: Option<usize>)
    ensures
        match chosen {
            Some(i) => {
                &&& i < families@.len()
                &&& families@[i as int].suitable()
                &&& forall|k: int| 0 <= k < i ==> !(#[trigger] families@[k]).suitable()
            },
            None => forall|k: int| 0 <= k < families@.len() ==> !(#[trigger] families@[k]).suitable(),
        },
{
    let mut i: usize = 0;
    while i < families.len()
        invariant
            i <= families@.len(),
            forall|k: int| 0 <= k < i ==> !(#[trigger] families@[k]).suitable(),
        decreases families@.len() - i,
    {
        if families[i].is_suitable() {
            return Some(i);
        }
        i += 1;
    }
    None
}

} // verus!
