use batch_kernel::resource_manager::ResourceManager;
use batch_kernel::task::ResourceRequirements;

#[test]
fn test_resource_allocation() {
    let mut resource_manager = ResourceManager::new(ResourceRequirements {
        cpu: 8,
        memory: 16_000,
    });

    let requirements = ResourceRequirements {
        cpu: 4,
        memory: 4_000,
    };

    assert!(resource_manager.allocate_resources(&requirements));
    assert_eq!(
        resource_manager.available_resources,
        ResourceRequirements {
            cpu: 4,
            memory: 12_000
        }
    );

    resource_manager.release_resources(&requirements);
    assert_eq!(
        resource_manager.available_resources,
        ResourceRequirements {
            cpu: 8,
            memory: 16_000
        }
    );
}

#[test]
fn test_allocation_failure_leaves_pool_untouched() {
    let mut resource_manager = ResourceManager::new(ResourceRequirements {
        cpu: 8,
        memory: 16_000,
    });

    // One dimension short is enough to refuse the whole request.
    assert!(!resource_manager.allocate_resources(&ResourceRequirements {
        cpu: 9,
        memory: 1_000,
    }));
    assert!(!resource_manager.allocate_resources(&ResourceRequirements {
        cpu: 1,
        memory: 16_001,
    }));
    assert_eq!(
        resource_manager.available_resources,
        ResourceRequirements {
            cpu: 8,
            memory: 16_000
        }
    );
}

#[test]
fn test_allocate_release_restores_availability() {
    let mut resource_manager = ResourceManager::new(ResourceRequirements {
        cpu: 6,
        memory: 9_000,
    });
    let before = resource_manager.get_available_resources().clone();
    let requirements = ResourceRequirements {
        cpu: 5,
        memory: 8_999,
    };
    assert!(resource_manager.allocate_resources(&requirements));
    resource_manager.release_resources(&requirements);
    assert_eq!(resource_manager.get_available_resources(), &before);
}

#[test]
fn test_matched_pairs_restore_availability() {
    let mut resource_manager = ResourceManager::new(ResourceRequirements {
        cpu: 8,
        memory: 16_000,
    });
    let sequence = [
        ResourceRequirements {
            cpu: 1,
            memory: 100,
        },
        ResourceRequirements {
            cpu: 8,
            memory: 16_000,
        },
        ResourceRequirements {
            cpu: 0,
            memory: 0,
        },
    ];
    for requirements in &sequence {
        assert!(resource_manager.allocate_resources(requirements));
        resource_manager.release_resources(requirements);
    }
    assert_eq!(
        resource_manager.available_resources,
        ResourceRequirements {
            cpu: 8,
            memory: 16_000
        }
    );
}

#[test]
fn test_allocate_whole_pool_boundary() {
    let mut resource_manager = ResourceManager::new(ResourceRequirements {
        cpu: 8,
        memory: 16_000,
    });
    assert!(resource_manager.allocate_resources(&ResourceRequirements {
        cpu: 8,
        memory: 16_000,
    }));
    assert_eq!(
        resource_manager.available_resources,
        ResourceRequirements { cpu: 0, memory: 0 }
    );
    assert!(!resource_manager.allocate_resources(&ResourceRequirements { cpu: 1, memory: 0 }));
}

#[test]
fn test_new_pool_is_full() {
    let resource_manager = ResourceManager::new(ResourceRequirements {
        cpu: 3,
        memory: 500,
    });
    assert_eq!(
        resource_manager.total_resources,
        ResourceRequirements {
            cpu: 3,
            memory: 500
        }
    );
    assert_eq!(
        resource_manager.get_available_resources(),
        &ResourceRequirements {
            cpu: 3,
            memory: 500
        }
    );
}
