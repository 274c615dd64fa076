//! The task scheduler: keeps pending tasks in arrival order and, on each
//! request, dispatches the feasible task of strictly highest priority,
//! breaking ties in favour of the earliest arrival. It tracks its own view
//! of available capacity, decremented as tasks are dispatched.

use vstd::prelude::*;

use std::collections::VecDeque;

use crate::task::{ResourceRequirements, Task, TaskStatus};

verus! {

/// Pending tasks in arrival order, plus the scheduler's own availability
/// counter (distinct from the resource pool's authoritative one).
pub struct Scheduler {
    pub task_queue: VecDeque<Task>,
    pub available_resources: ResourceRequirements,
}

impl Scheduler {
    /// The scheduler's recorded availability.
    pub open spec fn spec_available(self) -> ResourceRequirements {
        self.available_resources
    }

    /// Some queued task fits the recorded availability.
    pub open spec fn has_feasible_task(self) -> bool {
        exists|i: int|
            0 <= i < self.task_queue@.len()
                && (#[trigger] self.task_queue@[i].resource_requirements).fits_within(
                self.spec_available(),
            )
    }

    /// Position `i` holds the task the scheduler dispatches: feasible, of
    /// maximal priority among feasible tasks, and the earliest arrival
    /// among those of that priority.
    pub open spec fn is_scheduled_choice(self, i: int) -> bool {
        let q = self.task_queue@;
        &&& 0 <= i < q.len()
        &&& q[i].resource_requirements.fits_within(self.spec_available())
        &&& forall|j: int|
            0 <= j < q.len() && (#[trigger] q[j].resource_requirements).fits_within(
                self.spec_available(),
            ) ==> q[j].priority <= q[i].priority
        &&& forall|j: int|
            0 <= j < i && (#[trigger] q[j].resource_requirements).fits_within(
                self.spec_available(),
            ) ==> q[j].priority < q[i].priority
    }

    pub fn new(available_resources: ResourceRequirements) -> (r: Self)
        ensures
            r.task_queue@ == Seq::<Task>::empty(),
            r.spec_available() == available_resources,
    {
        Scheduler { task_queue: VecDeque::new(), available_resources }
    }

    /// Appends to the back of the queue, marking the task `Queued`.
    /// Arrival order is preserved; availability is untouched.
    pub fn add_task(&mut self, task: Task)
        ensures
            final(self).task_queue@ == old(self).task_queue@.push(
                task.with_status(TaskStatus::Queued),
            ),
            final(self).spec_available() == old(self).spec_available(),
    {
        let ghost submitted = task;
        let mut task = task;
        task.status = TaskStatus::Queued;
        proof {
            assert(task == submitted.with_status(TaskStatus::Queued));
        }
        self.task_queue.push_back(task);
    }

    /// Scans the queue in arrival order for feasible tasks, keeping the
    /// first-seen maximum priority; only a strictly greater priority
    /// replaces the current best. The chosen task is removed, marked
    /// `Running`, charged against the recorded availability, and returned.
    /// If no queued task is feasible the queue is left untouched and
    /// nothing is returned.
    pub fn schedule_next_task(&mut self) -> (r: Option<Task>)
        ensures
            match r {
                Some(task) => {
                    &&& exists|i: int|
                        {
                            &&& #[trigger] old(self).is_scheduled_choice(i)
                            &&& task == old(self).task_queue@[i].with_status(TaskStatus::Running)
                            &&& final(self).task_queue@ == old(self).task_queue@.remove(i)
                        }
                    &&& task.resource_requirements.fits_within(old(self).spec_available())
                    &&& task.status == TaskStatus::Running
                    &&& final(self).task_queue@.len() == old(self).task_queue@.len() - 1
                    &&& final(self).spec_available().cpu == old(self).spec_available().cpu
                        - task.resource_requirements.cpu
                    &&& final(self).spec_available().memory == old(self).spec_available().memory
                        - task.resource_requirements.memory
                },
                None => {
                    &&& !old(self).has_feasible_task()
                    &&& *final(self) == *old(self)
                },
            },
    {
        let ghost q = self.task_queue@;
        let n = self.task_queue.len();
        let mut found = false;
        let mut best_idx: usize = 0;
        let mut best_priority: u32 = 0;
        let mut i: usize = 0;
        while i < n
            invariant
                *self == *old(self),
                n == self.task_queue@.len(),
                q == self.task_queue@,
                i <= n,
                found ==> {
                    &&& best_idx < i
                    &&& q[best_idx as int].resource_requirements.fits_within(
                        self.spec_available(),
                    )
                    &&& q[best_idx as int].priority == best_priority
                    &&& forall|j: int|
                        0 <= j < i && (#[trigger] q[j].resource_requirements).fits_within(
                            self.spec_available(),
                        ) ==> q[j].priority <= best_priority
                    &&& forall|j: int|
                        0 <= j < best_idx && (#[trigger] q[j].resource_requirements).fits_within(
                            self.spec_available(),
                        ) ==> q[j].priority < best_priority
                },
                !found ==> forall|j: int|
                    0 <= j < i ==> !(#[trigger] q[j].resource_requirements).fits_within(
                        self.spec_available(),
                    ),
            decreases n - i,
        {
            let candidate_priority = self.task_queue[i].priority;
            let feasible = self.can_execute_task(&self.task_queue[i]);
            if feasible && (!found || candidate_priority > best_priority) {
                found = true;
                best_idx = i;
                best_priority = candidate_priority;
            }
            i = i + 1;
        }
        if found {
            proof {
                assert(old(self).is_scheduled_choice(best_idx as int));
            }
            let mut task = self.task_queue.remove(best_idx).unwrap();
            let ghost chosen = task;
            task.status = TaskStatus::Running;
            proof {
                assert(task == chosen.with_status(TaskStatus::Running));
            }
            self.update_available_resources(&task);
            Some(task)
        } else {
            None
        }
    }

    /// Whether the task's requirement fits the recorded availability in
    /// every dimension.
    fn can_execute_task(&self, task: &Task) -> (r: bool)
        ensures
            r == task.resource_requirements.fits_within(self.spec_available()),
    {
        task.resource_requirements.cpu <= self.available_resources.cpu
            && task.resource_requirements.memory <= self.available_resources.memory
    }

    /// Charges the task's requirement against the recorded availability.
    fn update_available_resources(&mut self, task: &Task)
        requires
            task.resource_requirements.fits_within(old(self).spec_available()),
        ensures
            final(self).task_queue@ == old(self).task_queue@,
            final(self).spec_available().cpu == old(self).spec_available().cpu
                - task.resource_requirements.cpu,
            final(self).spec_available().memory == old(self).spec_available().memory
                - task.resource_requirements.memory,
    {
        self.available_resources.cpu -= task.resource_requirements.cpu;
        self.available_resources.memory -= task.resource_requirements.memory;
    }

    pub fn get_queue_length(&self) -> (r: usize)
        ensures
            r == self.task_queue@.len(),
    {
        self.task_queue.len()
    }

    /// Priority of the most recently arrived task, or zero for an empty
    /// queue.
    pub fn get_last_task_priority(&self) -> (r: u32)
        ensures
            r == if self.task_queue@.len() > 0 {
                self.task_queue@.last().priority
            } else {
                0u32
            },
    {
        let n = self.task_queue.len();
        if n > 0 {
            self.task_queue[n - 1].priority
        } else {
            0
        }
    }

    /// Priority of the task at the front of the queue, if any.
    pub fn get_next_task_priority(&self) -> (r: Option<u32>)
        ensures
            r == if self.task_queue@.len() > 0 {
                Some(self.task_queue@[0].priority)
            } else {
                None::<u32>
            },
    {
        if self.task_queue.len() > 0 {
            Some(self.task_queue[0].priority)
        } else {
            None
        }
    }

    /// The most recently arrived task, if any.
    pub fn get_last_task(&self) -> (r: Option<&Task>)
        ensures
            match r {
                Some(task) => self.task_queue@.len() > 0 && *task == self.task_queue@.last(),
                None => self.task_queue@.len() == 0,
            },
    {
        let n = self.task_queue.len();
        if n > 0 {
            Some(&self.task_queue[n - 1])
        } else {
            None
        }
    }

    /// The priority the next dispatch would run at: the maximum priority
    /// among queued tasks that fit the recorded availability, if any task
    /// does.
    pub fn peek_highest_feasible_priority(&self) -> (r: Option<u32>)
        ensures
            match r {
                Some(p) => {
                    &&& exists|i: int|
                        0 <= i < self.task_queue@.len()
                            && (#[trigger] self.task_queue@[i].resource_requirements).fits_within(
                            self.spec_available(),
                        ) && self.task_queue@[i].priority == p
                    &&& forall|j: int|
                        0 <= j < self.task_queue@.len() && (
                        #[trigger] self.task_queue@[j].resource_requirements).fits_within(
                            self.spec_available(),
                        ) ==> self.task_queue@[j].priority <= p
                },
                None => !self.has_feasible_task(),
            },
    {
        let n = self.task_queue.len();
        let mut found = false;
        let mut best_priority: u32 = 0;
        let mut i: usize = 0;
        while i < n
            invariant
                n == self.task_queue@.len(),
                i <= n,
                found ==> {
                    &&& exists|k: int|
                        0 <= k < i && (
                        #[trigger] self.task_queue@[k].resource_requirements).fits_within(
                            self.spec_available(),
                        ) && self.task_queue@[k].priority == best_priority
                    &&& forall|j: int|
                        0 <= j < i && (
                        #[trigger] self.task_queue@[j].resource_requirements).fits_within(
                            self.spec_available(),
                        ) ==> self.task_queue@[j].priority <= best_priority
                },
                !found ==> forall|j: int|
                    0 <= j < i ==> !(#[trigger] self.task_queue@[j].resource_requirements).fits_within(
                        self.spec_available(),
                    ),
            decreases n - i,
        {
            let candidate_priority = self.task_queue[i].priority;
            let feasible = self.can_execute_task(&self.task_queue[i]);
            if feasible && (!found || candidate_priority > best_priority) {
                found = true;
                best_priority = candidate_priority;
            }
            i = i + 1;
        }
        if found {
            Some(best_priority)
        } else {
            None
        }
    }

    /// The scheduler's recorded availability, read-only.
    pub fn get_available_resources(&self) -> (r: &ResourceRequirements)
        ensures
            *r == self.spec_available(),
    {
        &self.available_resources
    }
}

} // verus!
