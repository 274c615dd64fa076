//! The batch runner: pulls the next feasible task from the scheduler,
//! reserves capacity in the authoritative pool, executes the task,
//! releases the capacity, and counts outcomes, until no queued task is
//! feasible. Execution is cooperative and run-to-completion; nothing here
//! preempts a task once it starts.

use vstd::prelude::*;

use crate::resource_manager::ResourceManager;
use crate::scheduler::Scheduler;
use crate::task::{ResourceRequirements, Task, TaskStatus};

verus! {

/// The scheduler, the authoritative pool, and nothing else: both start
/// from the same total capacity and are kept consistent by the run loop.
pub struct BatchSystem {
    scheduler: Scheduler,
    resource_manager: ResourceManager,
}

/// A read-only snapshot of the system, for reporting.
pub struct BatchSystemStatus {
    pub tasks_queued: usize,
    pub resources_available: ResourceRequirements,
    pub next_task_priority: Option<u32>,
}

impl BatchSystem {
    /// The pending queue, in arrival order.
    pub closed spec fn spec_queue(self) -> Seq<Task> {
        self.scheduler.task_queue@
    }

    /// The scheduler's recorded availability.
    pub closed spec fn spec_scheduler_available(self) -> ResourceRequirements {
        self.scheduler.spec_available()
    }

    /// The authoritative pool's current availability.
    pub closed spec fn spec_pool_available(self) -> ResourceRequirements {
        self.resource_manager.available_resources
    }

    /// The authoritative pool's configured total.
    pub closed spec fn spec_pool_total(self) -> ResourceRequirements {
        self.resource_manager.total_resources
    }

    /// Between runs the pool is full — every grant has been returned —
    /// and the scheduler's recorded availability never exceeds the
    /// pool's total.
    pub closed spec fn wf(self) -> bool {
        &&& self.resource_manager.wf()
        &&& self.resource_manager.available_resources == self.resource_manager.total_resources
        &&& self.scheduler.spec_available().fits_within(self.resource_manager.total_resources)
    }

    /// Some queued task fits the scheduler's recorded availability.
    pub closed spec fn has_feasible_task(self) -> bool {
        self.scheduler.has_feasible_task()
    }

    pub fn new(total_resources: ResourceRequirements) -> (r: Self)
        ensures
            r.wf(),
            r.spec_queue() == Seq::<Task>::empty(),
            r.spec_scheduler_available() == total_resources,
            r.spec_pool_available() == total_resources,
            r.spec_pool_total() == total_resources,
    {
        let resource_manager = ResourceManager::new(total_resources.clone());
        BatchSystem { scheduler: Scheduler::new(total_resources), resource_manager }
    }

    /// Appends the task to the back of the queue, marked `Queued`.
    pub fn submit_task(&mut self, task: Task)
        ensures
            final(self).spec_queue() == old(self).spec_queue().push(
                task.with_status(TaskStatus::Queued),
            ),
            final(self).spec_scheduler_available() == old(self).spec_scheduler_available(),
            final(self).spec_pool_available() == old(self).spec_pool_available(),
            final(self).spec_pool_total() == old(self).spec_pool_total(),
            old(self).wf() ==> final(self).wf(),
    {
        self.scheduler.add_task(task);
    }

    /// The stand-in for the task body: a bounded, deterministic workload
    /// that always runs to completion. Progress reporting belongs to the
    /// platform layer's sink, not here.
    fn execute_task(&self, _task: &Task) -> (r: TaskStatus)
        ensures
            r == TaskStatus::Completed,
    {
        TaskStatus::Completed
    }

    /// Drives the run loop until no queued task is feasible, returning
    /// the completed and failed counts. Every dispatched task is counted
    /// exactly once; with the pool full on entry, reservation never
    /// fails, so the failed count is zero. The pool is full again on
    /// exit.
    pub fn run(&mut self) -> (r: (usize, usize))
        requires
            old(self).wf(),
        ensures
            final(self).wf(),
            r.1 == 0,
            r.0 + r.1 == old(self).spec_queue().len() - final(self).spec_queue().len(),
            !final(self).has_feasible_task(),
            final(self).spec_pool_total() == old(self).spec_pool_total(),
            final(self).spec_pool_available() == old(self).spec_pool_total(),
    {
        let mut completed_tasks: usize = 0;
        let mut failed_tasks: usize = 0;
        let initial_len = self.scheduler.get_queue_length();
        loop
            invariant
                self.wf(),
                self.resource_manager.total_resources == old(self).spec_pool_total(),
                failed_tasks == 0,
                completed_tasks + failed_tasks + self.scheduler.task_queue@.len()
                    == initial_len,
                initial_len == old(self).spec_queue().len(),
            ensures
                !self.scheduler.has_feasible_task(),
            decreases self.scheduler.task_queue@.len(),
        {
            match self.scheduler.schedule_next_task() {
                Some(task) => {
                    if self.resource_manager.allocate_resources(&task.resource_requirements) {
                        let status = self.execute_task(&task);
                        match status {
                            TaskStatus::Completed => {
                                completed_tasks += 1;
                            },
                            TaskStatus::Failed => {
                                failed_tasks += 1;
                            },
                            _ => {},
                        }
                        self.resource_manager.release_resources(&task.resource_requirements);
                    } else {
                        failed_tasks += 1;
                    }
                },
                None => {
                    break;
                },
            }
        }
        (completed_tasks, failed_tasks)
    }

    /// A consistent snapshot: queue length, the pool's availability, and
    /// the priority of the task at the front of the queue.
    pub fn get_status(&self) -> (r: BatchSystemStatus)
        ensures
            r.tasks_queued == self.spec_queue().len(),
            r.resources_available == self.spec_pool_available(),
            r.next_task_priority == if self.spec_queue().len() > 0 {
                Some(self.spec_queue()[0].priority)
            } else {
                None::<u32>
            },
    {
        BatchSystemStatus {
            tasks_queued: self.scheduler.get_queue_length(),
            resources_available: self.resource_manager.get_available_resources().clone(),
            next_task_priority: self.scheduler.get_next_task_priority(),
        }
    }
}

} // verus!
