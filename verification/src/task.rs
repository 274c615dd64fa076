//! The task model: an immutable-after-creation work descriptor plus a
//! mutable status field, and the component-wise resource requirement the
//! scheduler and resource pool both speak in.

use vstd::prelude::*;

verus! {

/// Capacity demanded (or held) along each tracked dimension, compared
/// component-wise.
#[derive(Debug, Clone, Copy, PartialEq, Eq, Structural)]
pub struct ResourceRequirements {
    pub cpu: u32,
    pub memory: u32,
}

impl ResourceRequirements {
    /// Component-wise comparison: this requirement can be met out of
    /// `available` capacity.
    pub open spec fn fits_within(self, available: ResourceRequirements) -> bool {
        self.cpu <= available.cpu && self.memory <= available.memory
    }
}

/// Lifecycle of a task: created `Queued`, moved to `Running` when the
/// scheduler dispatches it, and finally `Completed` or `Failed`.
#[derive(Debug, Clone, Copy, PartialEq, Eq, Structural)]
pub enum TaskStatus {
    Queued,
    Running,
    Completed,
    Failed,
}

/// A unit of work: a name, its arguments, a priority (higher runs first),
/// what it needs from the pool, and where it stands in its lifecycle.
#[derive(Debug, Clone)]
pub struct Task {
    pub executable: String,
    pub arguments: Vec<String>,
    pub priority: u32,
    pub resource_requirements: ResourceRequirements,
    pub status: TaskStatus,
}

impl Task {
    /// The same descriptor, with only the status field changed.
    pub open spec fn with_status(self, status: TaskStatus) -> Task {
        Task { status, ..self }
    }
}

impl PartialEq for Task {
    fn eq(&self, other: &Task) -> (r: bool) {
        if !(self.executable == other.executable
            && self.priority == other.priority
            && self.resource_requirements == other.resource_requirements
            && self.status == other.status
            && self.arguments.len() == other.arguments.len()) {
            proof {
                if self.arguments@.len() != other.arguments@.len() {
                    assert(self.arguments.deep_view().len()
                        != other.arguments.deep_view().len());
                }
            }
            return false;
        }
        let n = self.arguments.len();
        let mut i: usize = 0;
        while i < n
            invariant
                n == self.arguments.len() == other.arguments.len(),
                i <= n,
                forall|j: int| 0 <= j < i ==> self.arguments@[j]@ == other.arguments@[j]@,
            decreases n - i,
        {
            if !(self.arguments[i] == other.arguments[i]) {
                proof {
                    assert(self.arguments.deep_view()[i as int]
                        != other.arguments.deep_view()[i as int]);
                }
                return false;
            }
            i = i + 1;
        }
        proof {
            assert(self.arguments.deep_view() =~= other.arguments.deep_view());
        }
        true
    }
}

impl vstd::std_specs::cmp::PartialEqSpecImpl for Task {
    open spec fn obeys_eq_spec() -> bool {
        true
    }

    open spec fn eq_spec(&self, other: &Task) -> bool {
        &&& self.executable@ == other.executable@
        &&& self.arguments.deep_view() == other.arguments.deep_view()
        &&& self.priority == other.priority
        &&& self.resource_requirements == other.resource_requirements
        &&& self.status == other.status
    }
}

} // verus!
