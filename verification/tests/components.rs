use container_runtime::cgroup::{add_process, cleanup, group_dir, setup, LimiterError};
use container_runtime::filesystem::{
    copy_result, copy_rootfs, op_is_best_effort, setup_rootfs, IsolateOp, RunStatus,
};
use container_runtime::image::{archive_is_gzipped, unpack_failure, UnpackStep};
use container_runtime::namespace::{child_failure, child_plan, create_and_exec, ChildStep};
use container_runtime::network::setup_veth;
use container_runtime::container::{ContainerConfig, ContainerError};

#[test]
fn test_skipped_on_macos() {
    println!("Container runtime tests require Linux -- skipping");
}

#[test]
fn test_setup_lays_out_the_group() {
    let plan = setup("container-7", 67108864, 100).unwrap();
    assert_eq!(plan.dir, "/sys/fs/cgroup/container-7");
    assert_eq!(plan.memory.path, "/sys/fs/cgroup/container-7/memory.max");
    assert_eq!(plan.memory.value, "67108864");
    assert_eq!(plan.cpu.path, "/sys/fs/cgroup/container-7/cpu.weight");
    assert_eq!(plan.cpu.value, "100");
    assert_eq!(group_dir("container-7"), "/sys/fs/cgroup/container-7");
}

#[test]
fn test_setup_rejects_zero_memory() {
    match setup("container-7", 0, 100) {
        Err(LimiterError::WriteFailed(m)) => assert_eq!(m, "memory.max must be positive"),
        _ => panic!("expected a write failure"),
    }
}

#[test]
fn test_setup_rejects_zero_cpu_weight() {
    match setup("container-7", 67108864, 0) {
        Err(LimiterError::WriteFailed(m)) => assert_eq!(m, "cpu.weight must be positive"),
        _ => panic!("expected a write failure"),
    }
}

#[test]
fn test_add_process_write() {
    let w = add_process("container-7", 4294967295);
    assert_eq!(w.path, "/sys/fs/cgroup/container-7/cgroup.procs");
    assert_eq!(w.value, "4294967295");
}

#[test]
fn test_cleanup_of_absent_group_is_a_noop() {
    assert!(cleanup("container-7", false, false, "").is_ok());
    assert!(cleanup("container-7", false, true, "").is_ok());
}

#[test]
fn test_cleanup_outcomes() {
    assert!(cleanup("container-7", true, true, "").is_ok());
    match cleanup("container-7", true, false, "busy") {
        Err(m) => assert_eq!(m, "Failed to remove cgroup: busy"),
        Ok(_) => panic!("expected a failure"),
    }
}

#[test]
fn test_archive_classification() {
    assert!(archive_is_gzipped("base.tar.gz"));
    assert!(archive_is_gzipped("base.tgz"));
    assert!(archive_is_gzipped(".tgz"));
    assert!(!archive_is_gzipped("base.tar"));
    assert!(!archive_is_gzipped("tgz"));
    assert!(!archive_is_gzipped("base.tar.gz.bak"));
}

#[test]
fn test_unpack_failure_messages() {
    assert_eq!(
        unpack_failure(UnpackStep::Open, false, "denied"),
        "Failed to open tarball: denied"
    );
    assert_eq!(
        unpack_failure(UnpackStep::CreateDir, true, "full"),
        "Failed to create rootfs dir: full"
    );
    assert_eq!(
        unpack_failure(UnpackStep::Extract, true, "corrupt"),
        "Failed to unpack gzipped tarball: corrupt"
    );
    assert_eq!(
        unpack_failure(UnpackStep::Extract, false, "corrupt"),
        "Failed to unpack tarball: corrupt"
    );
}

#[test]
fn test_copy_command_and_outcomes() {
    let c = copy_rootfs("/images/base", "/tmp/container-1/rootfs");
    assert_eq!(c.program, "cp");
    assert_eq!(
        c.args,
        vec![
            "-a".to_string(),
            "/images/base/.".to_string(),
            "/tmp/container-1/rootfs".to_string()
        ]
    );
    assert!(copy_result(&RunStatus::Exited { success: true }).is_ok());
    assert_eq!(
        copy_result(&RunStatus::Exited { success: false }),
        Err("cp returned non-zero".to_string())
    );
    assert_eq!(
        copy_result(&RunStatus::CouldNotRun { detail: "ENOENT".to_string() }),
        Err("cp failed: ENOENT".to_string())
    );
}

#[test]
fn test_root_switch_sequence() {
    let ops = setup_rootfs("/tmp/container-1/rootfs");
    assert_eq!(ops.len(), 12);
    match &ops[0] {
        IsolateOp::BindSelf { path } => assert_eq!(path, "/tmp/container-1/rootfs"),
        _ => panic!("expected the self bind first"),
    }
    match &ops[1] {
        IsolateOp::MakeDir { path } => assert_eq!(path, "/tmp/container-1/rootfs/proc"),
        _ => panic!("expected the proc placeholder"),
    }
    match &ops[4] {
        IsolateOp::MakeDir { path } => assert_eq!(path, "/tmp/container-1/rootfs/oldroot"),
        _ => panic!("expected the old-root placeholder"),
    }
    match &ops[5] {
        IsolateOp::ChdirRootfs { path } => assert_eq!(path, "/tmp/container-1/rootfs"),
        _ => panic!("expected entering the staged root"),
    }
    match &ops[6] {
        IsolateOp::PivotRoot { new_root, put_old } => {
            assert_eq!(new_root, ".");
            assert_eq!(put_old, "oldroot");
        },
        _ => panic!("expected the pivot"),
    }
    match &ops[7] {
        IsolateOp::ChdirRoot { path } => assert_eq!(path, "/"),
        _ => panic!("expected entering the new root"),
    }
    match &ops[8] {
        IsolateOp::MountProc { target } => assert_eq!(target, "/proc"),
        _ => panic!("expected the proc mount"),
    }
    match &ops[9] {
        IsolateOp::MountSys { target } => assert_eq!(target, "/sys"),
        _ => panic!("expected the sys mount"),
    }
    match &ops[10] {
        IsolateOp::DetachOld { path } => assert_eq!(path, "/oldroot"),
        _ => panic!("expected the detach"),
    }
    assert!(op_is_best_effort(&ops[11]));
    assert!(!op_is_best_effort(&ops[0]));
}

#[test]
fn test_child_spec_and_plan() {
    let config = ContainerConfig {
        image_path: "/images/base".to_string(),
        command: vec!["/bin/sh".to_string(), "-c".to_string(), "exit 0".to_string()],
        memory_limit: 1024,
        cpu_weight: 50,
        hostname: "box".to_string(),
    };
    let child = create_and_exec(&config, "/tmp/container-2/rootfs", "container-2");
    assert!(child.new_pid && child.new_mount && child.new_uts && child.new_net);
    assert_eq!(child.stack_size, 1048576);
    let steps = child_plan(&child);
    assert_eq!(steps.len(), 15);
    match &steps[0] {
        ChildStep::SetHostname { name } => assert_eq!(name, "box"),
        _ => panic!("expected the hostname first"),
    }
    for i in 1..13 {
        assert!(matches!(steps[i], ChildStep::Isolate { .. }));
    }
    match &steps[13] {
        ChildStep::JoinGroup { container_id } => assert_eq!(container_id, "container-2"),
        _ => panic!("expected joining the group"),
    }
    match &steps[14] {
        ChildStep::Exec { argv } => assert_eq!(argv, &config.command),
        _ => panic!("expected the program replacement last"),
    }
}

#[test]
fn test_child_failure_mapping() {
    let host = child_failure(&ChildStep::SetHostname { name: "box".to_string() }, "EPERM");
    assert!(matches!(host, ContainerError::Namespace(m) if m == "sethostname failed: EPERM"));
    let iso = child_failure(
        &ChildStep::Isolate { op: IsolateOp::PivotRoot {
            new_root: ".".to_string(),
            put_old: "oldroot".to_string(),
        } },
        "EINVAL",
    );
    assert!(matches!(iso, ContainerError::Filesystem(m) if m == "pivot_root failed: EINVAL"));
    let join = child_failure(&ChildStep::JoinGroup { container_id: "c".to_string() }, "ENOENT");
    assert!(
        matches!(join, ContainerError::Cgroup(m) if m == "Failed to add process to cgroup: ENOENT")
    );
    let ex = child_failure(&ChildStep::Exec { argv: vec![] }, "ENOENT");
    assert!(matches!(ex, ContainerError::Exec(m) if m == "execvp failed: ENOENT"));
}

#[test]
fn test_setup_veth_is_a_noop() {
    assert!(setup_veth(1).is_ok());
}
