//! The filesystem preparer: the copy command that stages a directory
//! image, the judgement of its outcome, and the exact ordered sequence of
//! privileged operations that turns a staged root into the child's `/`.
//! The operations are data; the isolated child's driver performs them in
//! the stated order and aborts at the first failure.

use vstd::prelude::*;

use crate::text::concat2;

verus! {

/// The host command that copies a source tree into the staging root,
/// attributes preserved.
pub struct CopyCommand {
    pub program: String,
    pub args: Vec<String>,
}

/// Lays out the copy of `src`'s tree into `dst`. The source is named as
/// `src/.` so that its contents land directly in the already-created
/// destination — naming the bare directory would bury them one level
/// down, as `dst/<basename of src>`.
pub fn copy_rootfs(src: &str, dst: &str) -> (c: CopyCommand)
    ensures
        c.program@ == "cp"@,
        c.args@.len() == 3,
        c.args@[0]@ == "-a"@,
        c.args@[1]@ == src@ + "/."@,
        c.args@[2]@ == dst@,
{
    let mut args: Vec<String> = Vec::new();
    args.push("-a".to_owned());
    args.push(concat2(src, "/."));
    args.push(dst.to_owned());
    CopyCommand { program: "cp".to_owned(), args }
}

/// How the host reports one attempt to run the copy command.
pub enum RunStatus {
    CouldNotRun { detail: String },
    Exited { success: bool },
}

/// The copy's outcome: a command that could not run, a non-zero exit, or
/// success, each failure with its own staging diagnostic.
pub fn copy_result(status: &RunStatus) -> (r: Result<(), String>)
    ensures
        status matches RunStatus::CouldNotRun { detail } ==> (r matches Err(m) && m@
            == "cp failed: "@ + detail@),
        (status matches RunStatus::Exited { success } && *success) ==> r is Ok,
        (status matches RunStatus::Exited { success } && !*success) ==> (r matches Err(m) && m@
            == "cp returned non-zero"@),
{
    match status {
        RunStatus::CouldNotRun { detail } => Err(concat2("cp failed: ", detail.as_str())),
        RunStatus::Exited { success } => {
            if *success {
                Ok(())
            } else {
                Err("cp returned non-zero".to_owned())
            }
        },
    }
}

/// One privileged operation of the root-switch sequence.
pub enum IsolateOp {
    /// Bind the staged root onto itself, recursively, so it becomes a
    /// detachable mount point.
    BindSelf { path: String },
    /// Ensure a placeholder directory exists.
    MakeDir { path: String },
    /// Enter the staged root.
    ChdirRootfs { path: String },
    /// Swap the root: the staged root becomes `/`, the old root is
    /// relegated under the placeholder.
    PivotRoot { new_root: String, put_old: String },
    /// Enter the new `/`.
    ChdirRoot { path: String },
    /// Mount a fresh process-information filesystem.
    MountProc { target: String },
    /// Mount a fresh system-information filesystem.
    MountSys { target: String },
    /// Detach the old root lazily.
    DetachOld { path: String },
    /// Remove the old root's now-empty placeholder; best-effort.
    RemoveOld { path: String },
}

/// The exact root-switch sequence for a staged root.
pub open spec fn isolation_ops(ops: Seq<IsolateOp>, rootfs: Seq<char>) -> bool {
    &&& ops.len() == 12
    &&& (ops[0] matches IsolateOp::BindSelf { path } && path@ == rootfs)
    &&& (ops[1] matches IsolateOp::MakeDir { path } && path@ == rootfs + "/proc"@)
    &&& (ops[2] matches IsolateOp::MakeDir { path } && path@ == rootfs + "/sys"@)
    &&& (ops[3] matches IsolateOp::MakeDir { path } && path@ == rootfs + "/dev"@)
    &&& (ops[4] matches IsolateOp::MakeDir { path } && path@ == rootfs + "/oldroot"@)
    &&& (ops[5] matches IsolateOp::ChdirRootfs { path } && path@ == rootfs)
    &&& (ops[6] matches IsolateOp::PivotRoot { new_root, put_old } && new_root@ == "."@
        && put_old@ == "oldroot"@)
    &&& (ops[7] matches IsolateOp::ChdirRoot { path } && path@ == "/"@)
    &&& (ops[8] matches IsolateOp::MountProc { target } && target@ == "/proc"@)
    &&& (ops[9] matches IsolateOp::MountSys { target } && target@ == "/sys"@)
    &&& (ops[10] matches IsolateOp::DetachOld { path } && path@ == "/oldroot"@)
    &&& (ops[11] matches IsolateOp::RemoveOld { path } && path@ == "/oldroot"@)
}

/// Lays out the root switch for `rootfs`: bind it onto itself, create the
/// placeholders, enter it, pivot, enter the new root, mount the pseudo
/// filesystems, and detach and drop the old root. The order is the
/// contract; running these out of order is never asked of the host.
pub fn setup_rootfs(rootfs: &str) -> (ops: Vec<IsolateOp>)
    ensures
        isolation_ops(ops@, rootfs@),
{
    let mut ops: Vec<IsolateOp> = Vec::new();
    ops.push(IsolateOp::BindSelf { path: rootfs.to_owned() });
    ops.push(IsolateOp::MakeDir { path: concat2(rootfs, "/proc") });
    ops.push(IsolateOp::MakeDir { path: concat2(rootfs, "/sys") });
    ops.push(IsolateOp::MakeDir { path: concat2(rootfs, "/dev") });
    ops.push(IsolateOp::MakeDir { path: concat2(rootfs, "/oldroot") });
    ops.push(IsolateOp::ChdirRootfs { path: rootfs.to_owned() });
    ops.push(IsolateOp::PivotRoot { new_root: ".".to_owned(), put_old: "oldroot".to_owned() });
    ops.push(IsolateOp::ChdirRoot { path: "/".to_owned() });
    ops.push(IsolateOp::MountProc { target: "/proc".to_owned() });
    ops.push(IsolateOp::MountSys { target: "/sys".to_owned() });
    ops.push(IsolateOp::DetachOld { path: "/oldroot".to_owned() });
    ops.push(IsolateOp::RemoveOld { path: "/oldroot".to_owned() });
    ops
}

/// The diagnostic for one failed root-switch operation, naming the step.
pub open spec fn isolate_failure_chars(op: IsolateOp, detail: Seq<char>) -> Seq<char> {
    match op {
        IsolateOp::BindSelf { .. } => "bind mount rootfs failed: "@ + detail,
        IsolateOp::MakeDir { .. } => "mkdir failed: "@ + detail,
        IsolateOp::ChdirRootfs { .. } => "chdir to rootfs failed: "@ + detail,
        IsolateOp::PivotRoot { .. } => "pivot_root failed: "@ + detail,
        IsolateOp::ChdirRoot { .. } => "chdir to / failed: "@ + detail,
        IsolateOp::MountProc { .. } => "mount proc failed: "@ + detail,
        IsolateOp::MountSys { .. } => "mount sysfs failed: "@ + detail,
        IsolateOp::DetachOld { .. } => "umount oldroot failed: "@ + detail,
        IsolateOp::RemoveOld { .. } => "remove oldroot failed: "@ + detail,
    }
}

/// Builds the diagnostic `isolate_failure_chars` describes.
pub fn isolate_failure(op: &IsolateOp, detail: &str) -> (m: String)
    ensures
        m@ == isolate_failure_chars(*op, detail@),
{
    match op {
        IsolateOp::BindSelf { .. } => concat2("bind mount rootfs failed: ", detail),
        IsolateOp::MakeDir { .. } => concat2("mkdir failed: ", detail),
        IsolateOp::ChdirRootfs { .. } => concat2("chdir to rootfs failed: ", detail),
        IsolateOp::PivotRoot { .. } => concat2("pivot_root failed: ", detail),
        IsolateOp::ChdirRoot { .. } => concat2("chdir to / failed: ", detail),
        IsolateOp::MountProc { .. } => concat2("mount proc failed: ", detail),
        IsolateOp::MountSys { .. } => concat2("mount sysfs failed: ", detail),
        IsolateOp::DetachOld { .. } => concat2("umount oldroot failed: ", detail),
        IsolateOp::RemoveOld { .. } => concat2("remove oldroot failed: ", detail),
    }
}

/// Whether a failed operation is tolerated rather than fatal: only the
/// removal of the old root's placeholder is best-effort.
pub fn op_is_best_effort(op: &IsolateOp) -> (b: bool)
    ensures
        b == (op is RemoveOld),
{
    match op {
        IsolateOp::RemoveOld { .. } => true,
        _ => false,
    }
}

} // verus!
