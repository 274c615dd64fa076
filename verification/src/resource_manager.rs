//! The authoritative resource pool: capacity is granted and returned
//! atomically across every tracked dimension, and availability never
//! leaves the interval from zero to the configured total.

use vstd::prelude::*;

use crate::task::ResourceRequirements;

verus! {

/// Tracks a fixed total capacity and the part of it still available.
pub struct ResourceManager {
    pub total_resources: ResourceRequirements,
    pub available_resources: ResourceRequirements,
}

impl ResourceManager {
    /// Pool invariant: availability never exceeds the configured total in
    /// any dimension.
    pub open spec fn wf(self) -> bool {
        self.available_resources.fits_within(self.total_resources)
    }

    /// An allocation request succeeds exactly when it fits the current
    /// availability in every dimension.
    pub open spec fn spec_can_allocate(self, requirements: ResourceRequirements) -> bool {
        requirements.fits_within(self.available_resources)
    }

    /// The pool after an allocation attempt: decremented component-wise on
    /// success, untouched on failure.
    pub open spec fn spec_allocate(self, requirements: ResourceRequirements) -> ResourceManager {
        if self.spec_can_allocate(requirements) {
            ResourceManager {
                available_resources: ResourceRequirements {
                    cpu: (self.available_resources.cpu - requirements.cpu) as u32,
                    memory: (self.available_resources.memory - requirements.memory) as u32,
                },
                ..self
            }
        } else {
            self
        }
    }

    /// The pool after a release: incremented component-wise.
    pub open spec fn spec_release(self, requirements: ResourceRequirements) -> ResourceManager {
        ResourceManager {
            available_resources: ResourceRequirements {
                cpu: (self.available_resources.cpu + requirements.cpu) as u32,
                memory: (self.available_resources.memory + requirements.memory) as u32,
            },
            ..self
        }
    }

    pub fn new(total_resources: ResourceRequirements) -> (r: Self)
        ensures
            r.total_resources == total_resources,
            r.available_resources == total_resources,
            r.wf(),
    {
        ResourceManager {
            total_resources: total_resources.clone(),
            available_resources: total_resources,
        }
    }

    /// Checks the request against every dimension of availability; grants
    /// it atomically or leaves the pool untouched. No partial allocation
    /// is ever observable.
    pub fn allocate_resources(&mut self, requirements: &ResourceRequirements) -> (granted: bool)
        ensures
            granted == old(self).spec_can_allocate(*requirements),
            *final(self) == old(self).spec_allocate(*requirements),
            old(self).wf() ==> final(self).wf(),
    {
        if requirements.cpu <= self.available_resources.cpu
            && requirements.memory <= self.available_resources.memory
        {
            self.available_resources.cpu -= requirements.cpu;
            self.available_resources.memory -= requirements.memory;
            true
        } else {
            false
        }
    }

    /// Returns capacity to the pool. The caller is responsible for the
    /// pairing discipline: each release matches exactly one prior
    /// successful allocation of the same requirement, which is what the
    /// precondition amounts to at the level of counters.
    pub fn release_resources(&mut self, requirements: &ResourceRequirements)
        requires
            old(self).available_resources.cpu + requirements.cpu
                <= old(self).total_resources.cpu,
            old(self).available_resources.memory + requirements.memory
                <= old(self).total_resources.memory,
        ensures
            *final(self) == old(self).spec_release(*requirements),
            final(self).wf(),
    {
        self.available_resources.cpu += requirements.cpu;
        self.available_resources.memory += requirements.memory;
    }

    pub fn get_available_resources(&self) -> (r: &ResourceRequirements)
        ensures
            *r == self.available_resources,
    {
        &self.available_resources
    }
}

/// One matched pair of calls on `requirements`: an allocation attempt
/// followed, on success only, by the release of the same requirement.
pub open spec fn spec_matched_pair(
    pool: ResourceManager,
    requirements: ResourceRequirements,
) -> ResourceManager {
    if pool.spec_can_allocate(requirements) {
        pool.spec_allocate(requirements).spec_release(requirements)
    } else {
        pool.spec_allocate(requirements)
    }
}

/// The pool after a whole sequence of matched allocate/release pairs.
pub open spec fn spec_matched_pairs(
    pool: ResourceManager,
    requirements: Seq<ResourceRequirements>,
) -> ResourceManager
    decreases requirements.len(),
{
    if requirements.len() == 0 {
        pool
    } else {
        spec_matched_pairs(spec_matched_pair(pool, requirements[0]), requirements.drop_first())
    }
}

/// Releasing a requirement immediately after allocating it restores
/// availability to its pre-allocation value, for an arbitrary requirement
/// within pool bounds; a failed allocation leaves the pool untouched
/// outright.
pub proof fn lemma_allocate_release_restores(
    pool: ResourceManager,
    requirements: ResourceRequirements,
)
    ensures
        spec_matched_pair(pool, requirements) == pool,
{
}

/// For any sequence of matched allocate/release calls with identical
/// requirement values, availability after the sequence equals availability
/// before it; so does the configured total.
pub proof fn lemma_matched_pairs_preserve_available(
    pool: ResourceManager,
    requirements: Seq<ResourceRequirements>,
)
    ensures
        spec_matched_pairs(pool, requirements) == pool,
    decreases requirements.len(),
{
    if requirements.len() == 0 {
    } else {
        lemma_allocate_release_restores(pool, requirements[0]);
        lemma_matched_pairs_preserve_available(pool, requirements.drop_first());
    }
}

} // verus!
