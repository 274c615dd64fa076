use batch_kernel::batch_system::BatchSystem;
use batch_kernel::task::{ResourceRequirements, Task, TaskStatus};

fn task(name: &str, priority: u32, cpu: u32, memory: u32) -> Task {
    Task {
        executable: name.to_string(),
        arguments: vec![],
        priority,
        resource_requirements: ResourceRequirements { cpu, memory },
        status: TaskStatus::Queued,
    }
}

#[test]
fn test_run_completes_all_feasible_tasks() {
    let mut system = BatchSystem::new(ResourceRequirements {
        cpu: 8,
        memory: 16_000,
    });
    system.submit_task(task("task1", 1, 2, 2_000));
    system.submit_task(task("task2", 2, 4, 4_000));

    let (completed, failed) = system.run();
    assert_eq!(completed, 2);
    assert_eq!(failed, 0);
    assert_eq!(system.get_status().tasks_queued, 0);
}

#[test]
fn test_run_with_empty_queue() {
    let mut system = BatchSystem::new(ResourceRequirements {
        cpu: 4,
        memory: 1_024,
    });
    let (completed, failed) = system.run();
    assert_eq!(completed, 0);
    assert_eq!(failed, 0);
}

#[test]
fn test_run_leaves_infeasible_task_queued() {
    let mut system = BatchSystem::new(ResourceRequirements {
        cpu: 3,
        memory: 16_000,
    });
    system.submit_task(task("oversized", 5, 4, 1_000));
    system.submit_task(task("modest", 1, 2, 1_000));

    let (completed, failed) = system.run();
    assert_eq!(completed, 1);
    assert_eq!(failed, 0);

    let status = system.get_status();
    assert_eq!(status.tasks_queued, 1);
    assert_eq!(status.next_task_priority, Some(5));
}

#[test]
fn test_get_status_snapshot() {
    let mut system = BatchSystem::new(ResourceRequirements {
        cpu: 4,
        memory: 1_024,
    });
    system.submit_task(task("task1", 1, 1, 256));
    system.submit_task(task("task2", 2, 1, 512));

    let status = system.get_status();
    assert_eq!(status.tasks_queued, 2);
    assert_eq!(
        status.resources_available,
        ResourceRequirements {
            cpu: 4,
            memory: 1_024
        }
    );
    assert_eq!(status.next_task_priority, Some(1));
}

#[test]
fn test_pool_is_full_again_after_run() {
    let mut system = BatchSystem::new(ResourceRequirements {
        cpu: 4,
        memory: 1_024,
    });
    system.submit_task(task("task1", 1, 4, 1_024));
    let (completed, failed) = system.run();
    assert_eq!((completed, failed), (1, 0));
    assert_eq!(
        system.get_status().resources_available,
        ResourceRequirements {
            cpu: 4,
            memory: 1_024
        }
    );
}
