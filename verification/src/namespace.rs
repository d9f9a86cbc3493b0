//! The namespace isolator: the self-contained description of the isolated
//! child (its four isolation boundaries, its stack, and everything it
//! needs, since it shares no memory with the parent), the ordered steps
//! the child runs before it replaces its program image, and the mapping
//! of each in-child failure to the typed error it is reported as.

use vstd::prelude::*;

use crate::container::{ContainerConfig, ContainerError};
use crate::filesystem::{isolate_failure, isolate_failure_chars, isolation_ops, setup_rootfs,
    IsolateOp};
use crate::text::concat2;

verus! {

/// An element-wise copy of a vector of strings.
fn clone_strings(v: &Vec<String>) -> (r: Vec<String>)
    ensures
        r.deep_view() == v.deep_view(),
{
    let mut r: Vec<String> = Vec::new();
    let mut i: usize = 0;
    while i < v.len()
        invariant
            i <= v.len(),
            r@.len() == i,
            forall|j: int| 0 <= j < i ==> r@[j]@ == v@[j]@,
        decreases v.len() - i,
    {
        r.push(v[i].clone());
        i += 1;
    }
    proof {
        assert(r.deep_view() =~= v.deep_view());
    }
    r
}

/// Everything the isolated child's execution context needs, owned and
/// self-contained, plus the isolation boundaries the parent requests at
/// its creation: a private process-id space, a private mount table, a
/// private hostname identity and a private network stack, all active from
/// the child's first instruction.
pub struct ChildSpec {
    pub rootfs: String,
    pub hostname: String,
    pub command: Vec<String>,
    pub container_id: String,
    pub new_pid: bool,
    pub new_mount: bool,
    pub new_uts: bool,
    pub new_net: bool,
    pub stack_size: usize,
}

/// Lays out the isolated execution context for one launch: all four
/// boundaries are requested, and the child gets a stack of one mebibyte.
pub fn create_and_exec(config: &ContainerConfig, rootfs: &str, container_id: &str) -> (c:
    ChildSpec)
    ensures
        c.rootfs@ == rootfs@,
        c.hostname@ == config.hostname@,
        c.command.deep_view() == config.command.deep_view(),
        c.container_id@ == container_id@,
        c.new_pid && c.new_mount && c.new_uts && c.new_net,
        c.stack_size == 1048576,
{
    ChildSpec {
        rootfs: rootfs.to_owned(),
        hostname: config.hostname.clone(),
        command: clone_strings(&config.command),
        container_id: container_id.to_owned(),
        new_pid: true,
        new_mount: true,
        new_uts: true,
        new_net: true,
        stack_size: 1048576,
    }
}

/// One step the child runs, in order, before the program replacement.
pub enum ChildStep {
    /// Take the configured hostname inside the private identity.
    SetHostname { name: String },
    /// One privileged root-switch operation.
    Isolate { op: IsolateOp },
    /// Join the launch's control group, writing the child's own pid.
    JoinGroup { container_id: String },
    /// Replace the program image: the first element is the executable,
    /// the whole vector its argument list.
    Exec { argv: Vec<String> },
}

/// The root-switch operations carried inside a child plan.
pub open spec fn isolate_ops_of(steps: Seq<ChildStep>) -> Seq<IsolateOp> {
    steps.subrange(1, 13).map_values(
        |s: ChildStep|
            (match s {
                ChildStep::Isolate { op } => op,
                _ => arbitrary(),
            }),
    )
}

/// The child's whole ordered run: hostname first, then the root switch,
/// then joining the control group, then the program replacement.
pub open spec fn child_plan_ok(steps: Seq<ChildStep>, c: ChildSpec) -> bool {
    &&& steps.len() == 15
    &&& (steps[0] matches ChildStep::SetHostname { name } && name@ == c.hostname@)
    &&& forall|i: int| 1 <= i < 13 ==> steps[i] is Isolate
    &&& isolation_ops(isolate_ops_of(steps), c.rootfs@)
    &&& (steps[13] matches ChildStep::JoinGroup { container_id } && container_id@
        == c.container_id@)
    &&& (steps[14] matches ChildStep::Exec { argv } && argv.deep_view() == c.command.deep_view())
}

/// Lays out the child's run as `child_plan_ok` describes.
pub fn child_plan(c: &ChildSpec) -> (steps: Vec<ChildStep>)
    ensures
        child_plan_ok(steps@, *c),
{
    let mut steps: Vec<ChildStep> = Vec::new();
    steps.push(ChildStep::SetHostname { name: c.hostname.clone() });
    let mut ops = setup_rootfs(c.rootfs.as_str());
    let ghost ops0 = ops@;
    steps.push(ChildStep::Isolate { op: ops.remove(0) });
    steps.push(ChildStep::Isolate { op: ops.remove(0) });
    steps.push(ChildStep::Isolate { op: ops.remove(0) });
    steps.push(ChildStep::Isolate { op: ops.remove(0) });
    steps.push(ChildStep::Isolate { op: ops.remove(0) });
    steps.push(ChildStep::Isolate { op: ops.remove(0) });
    steps.push(ChildStep::Isolate { op: ops.remove(0) });
    steps.push(ChildStep::Isolate { op: ops.remove(0) });
    steps.push(ChildStep::Isolate { op: ops.remove(0) });
    steps.push(ChildStep::Isolate { op: ops.remove(0) });
    steps.push(ChildStep::Isolate { op: ops.remove(0) });
    steps.push(ChildStep::Isolate { op: ops.remove(0) });
    steps.push(ChildStep::JoinGroup { container_id: c.container_id.clone() });
    steps.push(ChildStep::Exec { argv: clone_strings(&c.command) });
    proof {
        assert(isolate_ops_of(steps@) =~= ops0);
    }
    steps
}

/// Maps an in-child failure to the typed error it is reported as: the
/// hostname step to a namespace error, a root-switch step to a filesystem
/// error with the step named, joining the group to a control-group error,
/// and the program replacement to an exec error. The parent cannot
/// receive this value across the process boundary; the child prints its
/// message and exits non-zero, and the parent reports the non-zero status
/// as a namespace error.
pub fn child_failure(step: &ChildStep, detail: &str) -> (e: ContainerError)
    ensures
        step is SetHostname ==> (e matches ContainerError::Namespace(m) && m@
            == "sethostname failed: "@ + detail@),
        step matches ChildStep::Isolate { op } ==> (e matches ContainerError::Filesystem(m)
            && m@ == isolate_failure_chars(*op, detail@)),
        step is JoinGroup ==> (e matches ContainerError::Cgroup(m) && m@
            == "Failed to add process to cgroup: "@ + detail@),
        step is Exec ==> (e matches ContainerError::Exec(m) && m@ == "execvp failed: "@
            + detail@),
{
    match step {
        ChildStep::SetHostname { .. } => ContainerError::Namespace(
            concat2("sethostname failed: ", detail),
        ),
        ChildStep::Isolate { op } => ContainerError::Filesystem(isolate_failure(op, detail)),
        ChildStep::JoinGroup { .. } => ContainerError::Cgroup(
            concat2("Failed to add process to cgroup: ", detail),
        ),
        ChildStep::Exec { .. } => ContainerError::Exec(concat2("execvp failed: ", detail)),
    }
}

} // verus!
