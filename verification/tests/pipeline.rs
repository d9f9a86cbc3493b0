use container_runtime::container::{
    container_identity, run, Action, ContainerConfig, ContainerError, Event, Launch,
};

fn sample_config(image: &str) -> ContainerConfig {
    ContainerConfig {
        image_path: image.to_string(),
        command: vec!["/bin/true".to_string()],
        memory_limit: 67108864,
        cpu_weight: 100,
        hostname: "container".to_string(),
    }
}

fn ok_event() -> Event {
    Event::Completed { ok: true, detail: String::new() }
}

#[test]
fn test_identity_and_paths() {
    let l = Launch::new(sample_config("/img"), 1234);
    assert_eq!(l.container_id, "container-1234");
    assert_eq!(l.staging_dir, "/tmp/container-1234");
    assert_eq!(l.rootfs, "/tmp/container-1234/rootfs");
    assert_eq!(l.group_dir, "/sys/fs/cgroup/container-1234");
    assert_eq!(container_identity(0), "container-0");
    assert_eq!(container_identity(4294967295), "container-4294967295");
}

#[test]
fn test_distinct_identities() {
    let a = Launch::new(sample_config("/img"), 7);
    let b = Launch::new(sample_config("/img"), 8);
    assert_ne!(a.container_id, b.container_id);
    assert_ne!(a.staging_dir, b.staging_dir);
    assert_ne!(a.rootfs, b.rootfs);
    assert_ne!(a.group_dir, b.group_dir);
}

#[test]
fn test_scenario_directory_success() {
    let mut l = Launch::new(sample_config("/images/base"), 42);

    let act = l.step(Event::Probed { is_file: false, is_dir: true });
    match act {
        Action::CopyTree { src, dest } => {
            assert_eq!(src, "/images/base");
            assert_eq!(dest, "/tmp/container-42/rootfs");
        },
        _ => panic!("expected a tree copy"),
    }

    let act = l.step(ok_event());
    match act {
        Action::MakeGroupDir { path } => assert_eq!(path, "/sys/fs/cgroup/container-42"),
        _ => panic!("expected the group directory"),
    }

    let act = l.step(ok_event());
    match act {
        Action::WriteLimit { write } => {
            assert_eq!(write.path, "/sys/fs/cgroup/container-42/memory.max");
            assert_eq!(write.value, "67108864");
        },
        _ => panic!("expected the memory write"),
    }

    let act = l.step(ok_event());
    match act {
        Action::WriteLimit { write } => {
            assert_eq!(write.path, "/sys/fs/cgroup/container-42/cpu.weight");
            assert_eq!(write.value, "100");
        },
        _ => panic!("expected the cpu write"),
    }

    let act = l.step(ok_event());
    match act {
        Action::SpawnChild { child } => {
            assert_eq!(child.rootfs, "/tmp/container-42/rootfs");
            assert_eq!(child.hostname, "container");
            assert_eq!(child.command, vec!["/bin/true".to_string()]);
            assert_eq!(child.container_id, "container-42");
            assert!(child.new_pid && child.new_mount && child.new_uts && child.new_net);
            assert_eq!(child.stack_size, 1048576);
        },
        _ => panic!("expected the child"),
    }

    let act = l.step(ok_event());
    assert!(matches!(act, Action::AwaitChild));

    let act = l.step(Event::Exited { status: 0 });
    match act {
        Action::RemoveGroupDir { path } => assert_eq!(path, "/sys/fs/cgroup/container-42"),
        _ => panic!("expected the group removal"),
    }

    let act = l.step(ok_event());
    match act {
        Action::RemoveTree { path } => assert_eq!(path, "/tmp/container-42"),
        _ => panic!("expected the staging removal"),
    }

    let act = l.step(ok_event());
    assert!(matches!(act, Action::Finish));
    assert!(l.finished());
    assert!(l.release_requested && l.remove_requested);
    assert!(l.release_error.is_none() && l.remove_error.is_none());
    assert!(l.result().is_ok());
}

#[test]
fn test_scenario_missing_image() {
    let mut l = Launch::new(sample_config("/does/not/exist"), 9);
    let act = l.step(Event::Probed { is_file: false, is_dir: false });
    assert!(matches!(act, Action::Finish));
    assert!(l.finished());
    assert!(!l.stage_requested && !l.group_requested && !l.spawn_requested);
    match l.result() {
        Err(ContainerError::Image(m)) => assert_eq!(m, "Image not found: /does/not/exist"),
        _ => panic!("expected an image error"),
    }
}

#[test]
fn test_scenario_exec_failure() {
    let mut l = Launch::new(sample_config("/images/base"), 5);
    l.step(Event::Probed { is_file: false, is_dir: true });
    l.step(ok_event());
    l.step(ok_event());
    l.step(ok_event());
    l.step(ok_event());
    l.step(ok_event());
    let act = l.step(Event::Exited { status: 1 });
    assert!(matches!(act, Action::RemoveGroupDir { .. }));
    let act = l.step(ok_event());
    assert!(matches!(act, Action::RemoveTree { .. }));
    let act = l.step(ok_event());
    assert!(matches!(act, Action::Finish));
    assert!(l.release_requested && l.remove_requested);
    match l.result() {
        Err(ContainerError::Namespace(m)) => assert_eq!(m, "child exited with status 1"),
        _ => panic!("expected a namespace error"),
    }
}

#[test]
fn test_scenario_spawn_failure_still_cleans_up() {
    let mut l = Launch::new(sample_config("/images/base"), 6);
    l.step(Event::Probed { is_file: false, is_dir: true });
    l.step(ok_event());
    l.step(ok_event());
    l.step(ok_event());
    l.step(ok_event());
    let act = l.step(Event::Completed { ok: false, detail: "EPERM".to_string() });
    assert!(matches!(act, Action::RemoveGroupDir { .. }));
    let act = l.step(Event::Completed { ok: false, detail: "EBUSY".to_string() });
    assert!(matches!(act, Action::RemoveTree { .. }));
    l.step(ok_event());
    assert!(l.finished());
    assert_eq!(l.release_error, Some("EBUSY".to_string()));
    assert!(l.remove_error.is_none());
    match l.result() {
        Err(ContainerError::Namespace(m)) => assert_eq!(m, "clone failed: EPERM"),
        _ => panic!("expected a namespace error"),
    }
}

#[test]
fn test_scenario_wait_error() {
    let mut l = Launch::new(sample_config("/images/base"), 6);
    l.step(Event::Probed { is_file: false, is_dir: true });
    l.step(ok_event());
    l.step(ok_event());
    l.step(ok_event());
    l.step(ok_event());
    l.step(ok_event());
    l.step(Event::WaitError { detail: "ECHILD".to_string() });
    l.step(ok_event());
    l.step(ok_event());
    match l.result() {
        Err(ContainerError::Namespace(m)) => assert_eq!(m, "waitpid failed: ECHILD"),
        _ => panic!("expected a namespace error"),
    }
}

#[test]
fn test_scenario_archive_failure() {
    let mut l = Launch::new(sample_config("/images/base.tar.gz"), 3);
    let act = l.step(Event::Probed { is_file: true, is_dir: false });
    match act {
        Action::Unpack { archive, dest, gzipped } => {
            assert_eq!(archive, "/images/base.tar.gz");
            assert_eq!(dest, "/tmp/container-3/rootfs");
            assert!(gzipped);
        },
        _ => panic!("expected an unpack"),
    }
    let act = l.step(Event::Completed {
        ok: false,
        detail: "Failed to unpack gzipped tarball: corrupt".to_string(),
    });
    assert!(matches!(act, Action::RemoveGroupDir { .. }));
    let act = l.step(ok_event());
    match act {
        Action::RemoveTree { path } => assert_eq!(path, "/tmp/container-3"),
        _ => panic!("expected the staging removal"),
    }
    let act = l.step(ok_event());
    assert!(matches!(act, Action::Finish));
    assert!(l.release_requested && l.remove_requested);
    match l.result() {
        Err(ContainerError::Image(m)) => {
            assert_eq!(m, "Failed to unpack gzipped tarball: corrupt")
        },
        _ => panic!("expected an image error"),
    }
}

#[test]
fn test_scenario_group_failure_still_cleans_up() {
    let mut l = Launch::new(sample_config("/images/base"), 13);
    l.step(Event::Probed { is_file: false, is_dir: true });
    l.step(ok_event());
    let act = l.step(Event::Completed { ok: false, detail: "EACCES".to_string() });
    match act {
        Action::RemoveGroupDir { path } => assert_eq!(path, "/sys/fs/cgroup/container-13"),
        _ => panic!("expected the group removal"),
    }
    let act = l.step(ok_event());
    match act {
        Action::RemoveTree { path } => assert_eq!(path, "/tmp/container-13"),
        _ => panic!("expected the staging removal"),
    }
    let act = l.step(ok_event());
    assert!(matches!(act, Action::Finish));
    assert!(l.release_requested && l.remove_requested);
    match l.result() {
        Err(ContainerError::Cgroup(m)) => assert_eq!(m, "Failed to create cgroup dir: EACCES"),
        _ => panic!("expected a cgroup error"),
    }
}

#[test]
fn test_zero_memory_rejected_before_any_group() {
    let mut cfg = sample_config("/images/base");
    cfg.memory_limit = 0;
    let mut l = Launch::new(cfg, 11);
    l.step(Event::Probed { is_file: false, is_dir: true });
    let act = l.step(ok_event());
    assert!(matches!(act, Action::RemoveGroupDir { .. }));
    assert!(!l.group_requested);
    let act = l.step(ok_event());
    assert!(matches!(act, Action::RemoveTree { .. }));
    let act = l.step(ok_event());
    assert!(matches!(act, Action::Finish));
    assert!(l.release_requested && l.remove_requested);
    match l.result() {
        Err(ContainerError::Cgroup(m)) => assert_eq!(m, "memory.max must be positive"),
        _ => panic!("expected a cgroup error"),
    }
}

#[test]
fn test_zero_cpu_weight_rejected_before_any_group() {
    let mut cfg = sample_config("/images/base");
    cfg.cpu_weight = 0;
    let mut l = Launch::new(cfg, 11);
    l.step(Event::Probed { is_file: false, is_dir: true });
    let act = l.step(ok_event());
    assert!(matches!(act, Action::RemoveGroupDir { .. }));
    assert!(!l.group_requested);
    let act = l.step(ok_event());
    assert!(matches!(act, Action::RemoveTree { .. }));
    let act = l.step(ok_event());
    assert!(matches!(act, Action::Finish));
    assert!(l.release_requested && l.remove_requested);
    match l.result() {
        Err(ContainerError::Cgroup(m)) => assert_eq!(m, "cpu.weight must be positive"),
        _ => panic!("expected a cgroup error"),
    }
}

#[test]
fn test_run_replays_a_whole_launch() {
    let events = vec![
        Event::Probed { is_file: false, is_dir: true },
        Event::Completed { ok: true, detail: String::new() },
        Event::Completed { ok: true, detail: String::new() },
        Event::Completed { ok: true, detail: String::new() },
        Event::Completed { ok: true, detail: String::new() },
        Event::Completed { ok: true, detail: String::new() },
        Event::Exited { status: 0 },
        Event::Completed { ok: true, detail: String::new() },
        Event::Completed { ok: true, detail: String::new() },
    ];
    let l = run(sample_config("/images/base"), 42, events);
    assert!(l.finished());
    assert!(l.group_requested && l.spawn_requested);
    assert!(l.release_requested && l.remove_requested);
    assert!(l.result().is_ok());
}

#[test]
fn test_error_messages_name_the_subsystem() {
    assert_eq!(
        ContainerError::Namespace("x".to_string()).message(),
        "Namespace error: x"
    );
    assert_eq!(ContainerError::Cgroup("x".to_string()).message(), "Cgroup error: x");
    assert_eq!(
        ContainerError::Filesystem("x".to_string()).message(),
        "Filesystem error: x"
    );
    assert_eq!(ContainerError::Image("x".to_string()).message(), "Image error: x");
    assert_eq!(ContainerError::Exec("x".to_string()).message(), "Exec error: x");
}
