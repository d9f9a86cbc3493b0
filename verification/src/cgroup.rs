//! The resource limiter: lays out and validates the control-group writes
//! for one launch, and judges best-effort release attempts. The host
//! driver performs the writes; every path and every written value is
//! decided and proved here.

use vstd::prelude::*;

use crate::text::{concat2, concat3, dec_chars, dec_string};

verus! {

/// The directory of the control group named `id`.
pub open spec fn group_dir_chars(id: Seq<char>) -> Seq<char> {
    "/sys/fs/cgroup/"@ + id
}

/// The file holding the group's memory ceiling.
pub open spec fn memory_max_chars(id: Seq<char>) -> Seq<char> {
    group_dir_chars(id) + "/memory.max"@
}

/// The file holding the group's CPU weight.
pub open spec fn cpu_weight_chars(id: Seq<char>) -> Seq<char> {
    group_dir_chars(id) + "/cpu.weight"@
}

/// The file that lists the group's member processes.
pub open spec fn procs_chars(id: Seq<char>) -> Seq<char> {
    group_dir_chars(id) + "/cgroup.procs"@
}

/// One pending write of `value` into the file at `path`.
pub struct FileWrite {
    pub path: String,
    pub value: String,
}

/// The ordered host steps that configure one control group: create the
/// directory, then write the memory ceiling, then write the CPU weight.
pub struct CgroupPlan {
    pub dir: String,
    pub memory: FileWrite,
    pub cpu: FileWrite,
}

/// A failure of the resource limiter, with a diagnostic.
#[derive(Debug)]
pub enum LimiterError {
    Unavailable(String),
    WriteFailed(String),
    AttachFailed(String),
}

/// Validates the two limit values and lays out the control-group writes.
/// A zero memory ceiling or a zero CPU weight is rejected outright, with
/// the offending setting named, so that the behaviour never depends on
/// what the host's settings interface would make of a zero.
pub fn setup(container_id: &str, memory_limit: u64, cpu_weight: u64) -> (r: Result<
    CgroupPlan,
    LimiterError,
>)
    ensures
        memory_limit == 0 ==> (r matches Err(LimiterError::WriteFailed(m)) && m@
            == "memory.max must be positive"@),
        memory_limit != 0 && cpu_weight == 0 ==> (r matches Err(LimiterError::WriteFailed(m))
            && m@ == "cpu.weight must be positive"@),
        memory_limit != 0 && cpu_weight != 0 ==> (r matches Ok(p) && p.dir@ == group_dir_chars(
            container_id@,
        ) && p.memory.path@ == memory_max_chars(container_id@) && p.memory.value@ == dec_chars(
            memory_limit as nat,
        ) && p.cpu.path@ == cpu_weight_chars(container_id@) && p.cpu.value@ == dec_chars(
            cpu_weight as nat,
        )),
{
    if memory_limit == 0 {
        return Err(LimiterError::WriteFailed("memory.max must be positive".to_owned()));
    }
    if cpu_weight == 0 {
        return Err(LimiterError::WriteFailed("cpu.weight must be positive".to_owned()));
    }
    Ok(
        CgroupPlan {
            dir: concat2("/sys/fs/cgroup/", container_id),
            memory: FileWrite {
                path: concat3("/sys/fs/cgroup/", container_id, "/memory.max"),
                value: dec_string(memory_limit),
            },
            cpu: FileWrite {
                path: concat3("/sys/fs/cgroup/", container_id, "/cpu.weight"),
                value: dec_string(cpu_weight),
            },
        },
    )
}

/// The directory of the group named `container_id`.
pub fn group_dir(container_id: &str) -> (s: String)
    ensures
        s@ == group_dir_chars(container_id@),
{
    concat2("/sys/fs/cgroup/", container_id)
}

/// The write that adds `pid` as a member of the group: the group's own
/// process list, and the pid in decimal.
pub fn add_process(container_id: &str, pid: u32) -> (w: FileWrite)
    ensures
        w.path@ == procs_chars(container_id@),
        w.value@ == dec_chars(pid as nat),
{
    FileWrite {
        path: concat3("/sys/fs/cgroup/", container_id, "/cgroup.procs"),
        value: dec_string(pid as u64),
    }
}

/// Judges one release attempt. `existed` says whether the group's
/// directory was found; a group that was never configured, or was removed
/// already, makes the release a successful no-op, and the removal outcome
/// is consulted only when the group existed.
#[allow(unused_variables)]
pub fn cleanup(container_id: &str, existed: bool, removed_ok: bool, detail: &str) -> (r: Result<
    (),
    String,
>)
    ensures
        !existed ==> r is Ok,
        existed && removed_ok ==> r is Ok,
        existed && !removed_ok ==> (r matches Err(m) && m@ == "Failed to remove cgroup: "@
            + detail@),
{
    if existed && !removed_ok {
        Err(concat2("Failed to remove cgroup: ", detail))
    } else {
        Ok(())
    }
}

/// Releasing is idempotent over the set of groups present on the host:
/// releasing a group that was never configured changes nothing, releasing
/// twice is the same as releasing once, and after one release the group is
/// gone — so a second `cleanup` call sees `existed == false` and, by
/// `cleanup`'s contract, succeeds as a no-op.
pub proof fn lemma_release_idempotent(groups: Set<Seq<char>>, id: Seq<char>)
    ensures
        !groups.contains(id) ==> groups.remove(id) =~= groups,
        groups.remove(id).remove(id) =~= groups.remove(id),
        !groups.remove(id).contains(id),
{
}

} // verus!
