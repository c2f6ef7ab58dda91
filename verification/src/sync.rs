//! How the queues of a device share a resource.

use vstd::prelude::*;
use crate::flags::{SHARING_MODE_CONCURRENT, SHARING_MODE_EXCLUSIVE};

verus! {

/// Declares in which queue(s) a resource can be used.
#[derive(Debug, Clone)]
pub enum SharingMode {
    /// The resource is used in a single queue family at a time.
    Exclusive(u32),
    /// The resource is used simultaneously in the given queue families.
    Concurrent(Vec<u32>),
}

/// A sharing mode as a mathematical value.
pub enum SharingModel {
    Exclusive(u32),
    Concurrent(Seq<u32>),
}

impl View for SharingMode {
    type V = SharingModel;

    open spec fn view(&self) -> SharingModel {
        match self {
            SharingMode::Exclusive(id) => SharingModel::Exclusive(*id),
            SharingMode::Concurrent(ids) => SharingModel::Concurrent(ids@),
        }
    }
}

/// The Vulkan sharing mode of a sharing model.
pub open spec fn sharing_mode_code(s: SharingModel) -> u32 {
    match s {
        SharingModel::Exclusive(_) => SHARING_MODE_EXCLUSIVE,
        SharingModel::Concurrent(_) => SHARING_MODE_CONCURRENT,
    }
}

/// The queue families that a Vulkan create-info lists for a sharing model: none
/// for exclusive use.
pub open spec fn queue_family_indices(s: SharingModel) -> Seq<u32> {
    match s {
        SharingModel::Exclusive(_) => Seq::empty(),
        SharingModel::Concurrent(ids) => ids,
    }
}

/// A resource used by one queue family at a time is created exclusive, with no
/// queue family listed; a resource shared by a list of queue families, whatever the
/// list, is created concurrent and lists exactly those families, in order.
pub proof fn lemma_sharing_mode_in_create_info(id: u32, ids: Seq<u32>)
    ensures
        sharing_mode_code(SharingModel::Exclusive(id)) == SHARING_MODE_EXCLUSIVE,
        queue_family_indices(SharingModel::Exclusive(id)).len() == 0,
        sharing_mode_code(SharingModel::Concurrent(ids)) == SHARING_MODE_CONCURRENT,
        queue_family_indices(SharingModel::Concurrent(ids)) == ids,
        SHARING_MODE_EXCLUSIVE != SHARING_MODE_CONCURRENT,
{
}

impl SharingMode {
    /// The Vulkan sharing mode, the number of queue families and the queue families
    /// that a create-info holds for this sharing mode. The number is the length of
    /// the list taken modulo 2^32, as a `u32` field holds it.
    pub fn to_vulkan(&self) -> (r: (u32, u32, Vec<u32>))
        ensures
            r.0 == sharing_mode_code(self@),
            r.2@ == queue_family_indices(self@),
            r.1 == (queue_family_indices(self@).len() as u32),
            match self@ {
                SharingModel::Exclusive(_) => {
                    &&& r.0 == SHARING_MODE_EXCLUSIVE
                    &&& r.1 == 0
                    &&& r.2@.len() == 0
                },
                SharingModel::Concurrent(ids) => {
                    &&& r.0 == SHARING_MODE_CONCURRENT
                    &&& r.1 == (ids.len() as u32)
                    &&& r.2@ == ids
                },
            },
    {
        match self {
            SharingMode::Exclusive(_) => (SHARING_MODE_EXCLUSIVE, 0, Vec::new()),
            SharingMode::Concurrent(ids) => {
                let copy = ids.clone();
                assert(copy@ =~= ids@);
                (SHARING_MODE_CONCURRENT, ids.len() as u32, copy)
            },
        }
    }
}

} // verus!
