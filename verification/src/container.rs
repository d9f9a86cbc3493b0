//! The launch orchestrator: the configuration and error types, the
//! per-launch identity and the paths scoped by it, and the state machine
//! that sequences staging, limiting, isolation, waiting and cleanup.

use vstd::prelude::*;

use crate::cgroup::{cpu_weight_chars, group_dir_chars, memory_max_chars, FileWrite};
use crate::image::{archive_is_gzipped, gzip_named};
use crate::namespace::{create_and_exec, ChildSpec};
use crate::text::{concat2, dec_chars, dec_string, lemma_dec_injective};

verus! {

/// One immutable launch request.
pub struct ContainerConfig {
    /// Path to an archive file or a directory holding the image.
    pub image_path: String,
    /// The command to execute; the first element is the executable.
    pub command: Vec<String>,
    /// Memory ceiling in bytes; must be positive.
    pub memory_limit: u64,
    /// Relative CPU share; must be positive.
    pub cpu_weight: u64,
    /// The hostname the isolated child takes.
    pub hostname: String,
}

/// The terminal outcome of a failed launch: one typed error with a
/// diagnostic, one variant per failing subsystem.
#[derive(Debug)]
pub enum ContainerError {
    Namespace(String),
    Cgroup(String),
    Filesystem(String),
    Image(String),
    Exec(String),
}

/// The mathematical shape of a `ContainerError`.
pub enum ErrorModel {
    Namespace(Seq<char>),
    Cgroup(Seq<char>),
    Filesystem(Seq<char>),
    Image(Seq<char>),
    Exec(Seq<char>),
}

impl View for ContainerError {
    type V = ErrorModel;

    open spec fn view(&self) -> ErrorModel {
        match self {
            ContainerError::Namespace(d) => ErrorModel::Namespace(d@),
            ContainerError::Cgroup(d) => ErrorModel::Cgroup(d@),
            ContainerError::Filesystem(d) => ErrorModel::Filesystem(d@),
            ContainerError::Image(d) => ErrorModel::Image(d@),
            ContainerError::Exec(d) => ErrorModel::Exec(d@),
        }
    }
}

/// The one-line diagnostic for an error, naming the failing subsystem.
pub open spec fn message_chars(e: ErrorModel) -> Seq<char> {
    match e {
        ErrorModel::Namespace(d) => "Namespace error: "@ + d,
        ErrorModel::Cgroup(d) => "Cgroup error: "@ + d,
        ErrorModel::Filesystem(d) => "Filesystem error: "@ + d,
        ErrorModel::Image(d) => "Image error: "@ + d,
        ErrorModel::Exec(d) => "Exec error: "@ + d,
    }
}

impl ContainerError {
    /// Builds the diagnostic `message_chars` describes.
    pub fn message(&self) -> (m: String)
        ensures
            m@ == message_chars(self@),
    {
        match self {
            ContainerError::Namespace(d) => concat2("Namespace error: ", d.as_str()),
            ContainerError::Cgroup(d) => concat2("Cgroup error: ", d.as_str()),
            ContainerError::Filesystem(d) => concat2("Filesystem error: ", d.as_str()),
            ContainerError::Image(d) => concat2("Image error: ", d.as_str()),
            ContainerError::Exec(d) => concat2("Exec error: ", d.as_str()),
        }
    }
}

/// The identity scoping every per-launch resource, derived from the
/// orchestrating process's own id, which the host keeps unique while that
/// process lives — so two overlapping launches never share an identity.
pub open spec fn identity_chars(pid: u32) -> Seq<char> {
    "container-"@ + dec_chars(pid as nat)
}

/// The transient staging directory scoped by the identity.
pub open spec fn staging_dir_chars(pid: u32) -> Seq<char> {
    "/tmp/"@ + identity_chars(pid)
}

/// The staged root filesystem inside the staging directory.
pub open spec fn rootfs_chars(pid: u32) -> Seq<char> {
    staging_dir_chars(pid) + "/rootfs"@
}

/// Derives the identity token for one launch.
pub fn container_identity(pid: u32) -> (s: String)
    ensures
        s@ == identity_chars(pid),
{
    let digits = dec_string(pid as u64);
    concat2("container-", digits.as_str())
}

/// Distinct orchestrating processes get distinct identities, staging
/// directories, staged roots and control groups: concurrent launches
/// never collide on a per-launch resource.
pub proof fn lemma_identities_distinct(p1: u32, p2: u32)
    requires
        p1 != p2,
    ensures
        identity_chars(p1) != identity_chars(p2),
        staging_dir_chars(p1) != staging_dir_chars(p2),
        rootfs_chars(p1) != rootfs_chars(p2),
        group_dir_chars(identity_chars(p1)) != group_dir_chars(identity_chars(p2)),
{
    let pre = "container-"@;
    if identity_chars(p1) == identity_chars(p2) {
        assert((pre + dec_chars(p1 as nat)).skip(pre.len() as int) =~= dec_chars(p1 as nat));
        assert((pre + dec_chars(p2 as nat)).skip(pre.len() as int) =~= dec_chars(p2 as nat));
        lemma_dec_injective(p1 as nat, p2 as nat);
    }
    if staging_dir_chars(p1) == staging_dir_chars(p2) {
        let tmp = "/tmp/"@;
        assert((tmp + identity_chars(p1)).skip(tmp.len() as int) =~= identity_chars(p1));
        assert((tmp + identity_chars(p2)).skip(tmp.len() as int) =~= identity_chars(p2));
    }
    if rootfs_chars(p1) == rootfs_chars(p2) {
        let s1 = staging_dir_chars(p1);
        let s2 = staging_dir_chars(p2);
        let suf = "/rootfs"@;
        assert(s1 + suf == s2 + suf);
        assert((s1 + suf).len() == s1.len() + suf.len());
        assert((s2 + suf).len() == s2.len() + suf.len());
        assert(s1.len() == s2.len());
        assert((s1 + suf).take(s1.len() as int) =~= s1);
        assert((s2 + suf).take(s2.len() as int) =~= s2);
    }
    if group_dir_chars(identity_chars(p1)) == group_dir_chars(identity_chars(p2)) {
        let root = "/sys/fs/cgroup/"@;
        assert((root + identity_chars(p1)).skip(root.len() as int) =~= identity_chars(p1));
        assert((root + identity_chars(p2)).skip(root.len() as int) =~= identity_chars(p2));
    }
}

/// Where one launch stands in its pipeline.
#[derive(Clone, Copy, Debug, PartialEq, Eq, Structural)]
pub enum Phase {
    /// Awaiting the probe of the image path.
    Probing,
    /// Awaiting the outcome of the unpack or the tree copy.
    Staging { archive: bool },
    /// Awaiting the creation of the control-group directory.
    CreatingGroup,
    /// Awaiting the write of the memory ceiling.
    SettingMemory,
    /// Awaiting the write of the CPU weight.
    SettingCpu,
    /// Awaiting the creation of the isolated child.
    Spawning,
    /// Awaiting the child's termination.
    Waiting,
    /// Awaiting the best-effort removal of the control group.
    Releasing,
    /// Awaiting the best-effort removal of the staging directory.
    RemovingStaging,
    /// The launch is decided; only the result remains.
    Finished,
}

/// What the host reports back after carrying out an action.
pub enum Event {
    /// What the image path turned out to be.
    Probed { is_file: bool, is_dir: bool },
    /// An action ran to completion or failed with a diagnostic.
    Completed { ok: bool, detail: String },
    /// The child terminated with this status; zero is success.
    Exited { status: u64 },
    /// The child's termination could not be observed.
    WaitError { detail: String },
}

/// The mathematical shape of an `Event`.
pub enum EventModel {
    Probed { is_file: bool, is_dir: bool },
    Completed { ok: bool, detail: Seq<char> },
    Exited { status: u64 },
    WaitError { detail: Seq<char> },
}

impl View for Event {
    type V = EventModel;

    open spec fn view(&self) -> EventModel {
        match self {
            Event::Probed { is_file, is_dir } => EventModel::Probed {
                is_file: *is_file,
                is_dir: *is_dir,
            },
            Event::Completed { ok, detail } => EventModel::Completed { ok: *ok, detail: detail@ },
            Event::Exited { status } => EventModel::Exited { status: *status },
            Event::WaitError { detail } => EventModel::WaitError { detail: detail@ },
        }
    }
}

/// What the host must do next.
pub enum Action {
    /// Unpack the archive into the staged root, through a gzip decoder
    /// when `gzipped` says so.
    Unpack { archive: String, dest: String, gzipped: bool },
    /// Create the staged root and copy the source tree's contents into
    /// it, attributes preserved.
    CopyTree { src: String, dest: String },
    /// Create the control-group directory.
    MakeGroupDir { path: String },
    /// Perform one settings write.
    WriteLimit { write: FileWrite },
    /// Create the isolated child this description asks for.
    SpawnChild { child: ChildSpec },
    /// Block until the child terminates.
    AwaitChild,
    /// Remove the control-group directory if it exists; best-effort.
    RemoveGroupDir { path: String },
    /// Remove the staging tree; best-effort.
    RemoveTree { path: String },
    /// Nothing is left to do; read the result.
    Finish,
}

/// The mathematical state of one launch.
pub struct ModelState {
    pub image: Seq<char>,
    pub command: Seq<Seq<char>>,
    pub hostname: Seq<char>,
    pub memory_limit: u64,
    pub cpu_weight: u64,
    pub id: Seq<char>,
    pub staging: Seq<char>,
    pub rootfs: Seq<char>,
    pub group_dir: Seq<char>,
    pub phase: Phase,
    pub failure: Option<ErrorModel>,
    pub stage_requested: bool,
    pub group_requested: bool,
    pub spawn_requested: bool,
    pub release_requested: bool,
    pub remove_requested: bool,
    pub release_error: Option<Seq<char>>,
    pub remove_error: Option<Seq<char>>,
}

/// The state a fresh launch starts from.
pub open spec fn init_model(config: ContainerConfig, pid: u32) -> ModelState {
    ModelState {
        image: config.image_path@,
        command: config.command.deep_view(),
        hostname: config.hostname@,
        memory_limit: config.memory_limit,
        cpu_weight: config.cpu_weight,
        id: identity_chars(pid),
        staging: staging_dir_chars(pid),
        rootfs: rootfs_chars(pid),
        group_dir: group_dir_chars(identity_chars(pid)),
        phase: Phase::Probing,
        failure: None,
        stage_requested: false,
        group_requested: false,
        spawn_requested: false,
        release_requested: false,
        remove_requested: false,
        release_error: None,
        remove_error: None,
    }
}

/// Which event answers the current phase.
pub open spec fn accepts(phase: Phase, ev: EventModel) -> bool {
    match phase {
        Phase::Probing => ev is Probed,
        Phase::Staging { .. } => ev is Completed,
        Phase::CreatingGroup => ev is Completed,
        Phase::SettingMemory => ev is Completed,
        Phase::SettingCpu => ev is Completed,
        Phase::Spawning => ev is Completed,
        Phase::Waiting => ev is Exited || ev is WaitError,
        Phase::Releasing => ev is Completed,
        Phase::RemovingStaging => ev is Completed,
        Phase::Finished => false,
    }
}

/// The whole transition table of one launch. An event that does not
/// answer the current phase changes nothing. Every exit path after
/// staging was requested runs through the two cleanup phases — releasing
/// a group that was never created is a no-op by `cleanup`'s contract —
/// so only a launch whose image was missing finishes without them.
pub open spec fn model_trans(s: ModelState, ev: EventModel) -> ModelState {
    if !accepts(s.phase, ev) {
        s
    } else {
        match (s.phase, ev) {
            (Phase::Probing, EventModel::Probed { is_file, is_dir }) => if is_file {
                ModelState { phase: Phase::Staging { archive: true }, stage_requested: true, ..s }
            } else if is_dir {
                ModelState {
                    phase: Phase::Staging { archive: false },
                    stage_requested: true,
                    ..s
                }
            } else {
                ModelState {
                    phase: Phase::Finished,
                    failure: Some(ErrorModel::Image("Image not found: "@ + s.image)),
                    ..s
                }
            },
            (Phase::Staging { archive }, EventModel::Completed { ok, detail }) => if ok {
                if s.memory_limit == 0 {
                    ModelState {
                        phase: Phase::Releasing,
                        release_requested: true,
                        failure: Some(ErrorModel::Cgroup("memory.max must be positive"@)),
                        ..s
                    }
                } else if s.cpu_weight == 0 {
                    ModelState {
                        phase: Phase::Releasing,
                        release_requested: true,
                        failure: Some(ErrorModel::Cgroup("cpu.weight must be positive"@)),
                        ..s
                    }
                } else {
                    ModelState { phase: Phase::CreatingGroup, group_requested: true, ..s }
                }
            } else {
                ModelState {
                    phase: Phase::Releasing,
                    release_requested: true,
                    failure: Some(
                        if archive {
                            ErrorModel::Image(detail)
                        } else {
                            ErrorModel::Filesystem(detail)
                        },
                    ),
                    ..s
                }
            },
            (Phase::CreatingGroup, EventModel::Completed { ok, detail }) => if ok {
                ModelState { phase: Phase::SettingMemory, ..s }
            } else {
                ModelState {
                    phase: Phase::Releasing,
                    release_requested: true,
                    failure: Some(ErrorModel::Cgroup("Failed to create cgroup dir: "@ + detail)),
                    ..s
                }
            },
            (Phase::SettingMemory, EventModel::Completed { ok, detail }) => if ok {
                ModelState { phase: Phase::SettingCpu, ..s }
            } else {
                ModelState {
                    phase: Phase::Releasing,
                    release_requested: true,
                    failure: Some(ErrorModel::Cgroup("Failed to set memory limit: "@ + detail)),
                    ..s
                }
            },
            (Phase::SettingCpu, EventModel::Completed { ok, detail }) => if ok {
                ModelState { phase: Phase::Spawning, spawn_requested: true, ..s }
            } else {
                ModelState {
                    phase: Phase::Releasing,
                    release_requested: true,
                    failure: Some(ErrorModel::Cgroup("Failed to set CPU weight: "@ + detail)),
                    ..s
                }
            },
            (Phase::Spawning, EventModel::Completed { ok, detail }) => if ok {
                ModelState { phase: Phase::Waiting, ..s }
            } else {
                ModelState {
                    phase: Phase::Releasing,
                    release_requested: true,
                    failure: Some(ErrorModel::Namespace("clone failed: "@ + detail)),
                    ..s
                }
            },
            (Phase::Waiting, EventModel::Exited { status }) => ModelState {
                phase: Phase::Releasing,
                release_requested: true,
                failure: if status == 0 {
                    s.failure
                } else {
                    Some(
                        ErrorModel::Namespace(
                            "child exited with status "@ + dec_chars(status as nat),
                        ),
                    )
                },
                ..s
            },
            (Phase::Waiting, EventModel::WaitError { detail }) => ModelState {
                phase: Phase::Releasing,
                release_requested: true,
                failure: Some(ErrorModel::Namespace("waitpid failed: "@ + detail)),
                ..s
            },
            (Phase::Releasing, EventModel::Completed { ok, detail }) => ModelState {
                phase: Phase::RemovingStaging,
                remove_requested: true,
                release_error: if ok {
                    None
                } else {
                    Some(detail)
                },
                ..s
            },
            (Phase::RemovingStaging, EventModel::Completed { ok, detail }) => ModelState {
                phase: Phase::Finished,
                remove_error: if ok {
                    None
                } else {
                    Some(detail)
                },
                ..s
            },
            _ => s,
        }
    }
}

/// The phase/bookkeeping invariant every reachable state satisfies: the
/// later phases presuppose the requests that lead to them, a finished
/// launch that asked for any staging also asked for both removals (so a
/// fortiori one that configured a group or asked for a child did), and no
/// failure is recorded before one is decided.
pub open spec fn phase_flags_ok(s: ModelState) -> bool {
    &&& (s.group_requested ==> s.stage_requested)
    &&& (s.spawn_requested ==> s.group_requested)
    &&& (s.phase is Probing ==> !s.stage_requested && !s.group_requested && !s.spawn_requested
        && !s.release_requested && !s.remove_requested)
    &&& (s.phase is Staging ==> s.stage_requested && !s.group_requested && !s.spawn_requested
        && !s.release_requested && !s.remove_requested)
    &&& (s.phase is CreatingGroup || s.phase is SettingMemory || s.phase is SettingCpu
        ==> s.group_requested && !s.spawn_requested && !s.release_requested
        && !s.remove_requested)
    &&& (s.phase is Spawning || s.phase is Waiting ==> s.spawn_requested && !s.release_requested
        && !s.remove_requested)
    &&& (s.phase is Releasing ==> s.stage_requested && s.release_requested
        && !s.remove_requested)
    &&& (s.phase is RemovingStaging ==> s.stage_requested && s.release_requested
        && s.remove_requested)
    &&& (s.phase is Finished && s.stage_requested ==> s.release_requested && s.remove_requested)
    &&& (s.phase is Probing || s.phase is Staging || s.phase is CreatingGroup || s.phase
        is SettingMemory || s.phase is SettingCpu || s.phase is Spawning || s.phase is Waiting
        ==> s.failure is None)
}

/// What action each accepted event must come with.
pub open spec fn step_action(pre: ModelState, ev: EventModel, act: Action) -> bool {
    &&& (pre.phase is Probing ==> (ev matches EventModel::Probed { is_file, is_dir } ==> (
    if is_file {
        act matches Action::Unpack { archive, dest, gzipped } && archive@ == pre.image && dest@
            == pre.rootfs && gzipped == gzip_named(pre.image)
    } else if is_dir {
        act matches Action::CopyTree { src, dest } && src@ == pre.image && dest@ == pre.rootfs
    } else {
        act is Finish
    })))
    &&& (pre.phase is Staging ==> (ev matches EventModel::Completed { ok, .. } ==> (if ok
        && pre.memory_limit != 0 && pre.cpu_weight != 0 {
        act matches Action::MakeGroupDir { path } && path@ == pre.group_dir
    } else {
        act matches Action::RemoveGroupDir { path } && path@ == pre.group_dir
    })))
    &&& (pre.phase is CreatingGroup ==> (ev matches EventModel::Completed { ok, .. } ==> (if ok {
        act matches Action::WriteLimit { write } && write.path@ == memory_max_chars(pre.id)
            && write.value@ == dec_chars(pre.memory_limit as nat)
    } else {
        act matches Action::RemoveGroupDir { path } && path@ == pre.group_dir
    })))
    &&& (pre.phase is SettingMemory ==> (ev matches EventModel::Completed { ok, .. } ==> (if ok {
        act matches Action::WriteLimit { write } && write.path@ == cpu_weight_chars(pre.id)
            && write.value@ == dec_chars(pre.cpu_weight as nat)
    } else {
        act matches Action::RemoveGroupDir { path } && path@ == pre.group_dir
    })))
    &&& (pre.phase is SettingCpu ==> (ev matches EventModel::Completed { ok, .. } ==> (if ok {
        act matches Action::SpawnChild { child } && child.rootfs@ == pre.rootfs
            && child.hostname@ == pre.hostname && child.command.deep_view() == pre.command
            && child.container_id@ == pre.id && child.new_pid && child.new_mount && child.new_uts
            && child.new_net && child.stack_size == 1048576
    } else {
        act matches Action::RemoveGroupDir { path } && path@ == pre.group_dir
    })))
    &&& (pre.phase is Spawning ==> (ev matches EventModel::Completed { ok, .. } ==> (if ok {
        act is AwaitChild
    } else {
        act matches Action::RemoveGroupDir { path } && path@ == pre.group_dir
    })))
    &&& (pre.phase is Waiting && (ev is Exited || ev is WaitError) ==> (act
        matches Action::RemoveGroupDir { path } && path@ == pre.group_dir))
    &&& (pre.phase is Releasing && ev is Completed ==> (act matches Action::RemoveTree { path }
        && path@ == pre.staging))
    &&& (pre.phase is RemovingStaging && ev is Completed ==> act is Finish)
}

/// One launch in flight: the request, the identity-scoped paths, and the
/// machine's bookkeeping. The host driver alternates `step` with carrying
/// out the returned actions until `Finish`.
pub struct Launch {
    pub config: ContainerConfig,
    pub container_id: String,
    pub staging_dir: String,
    pub rootfs: String,
    pub group_dir: String,
    pub phase: Phase,
    pub failure: Option<ContainerError>,
    pub stage_requested: bool,
    pub group_requested: bool,
    pub spawn_requested: bool,
    pub release_requested: bool,
    pub remove_requested: bool,
    pub release_error: Option<String>,
    pub remove_error: Option<String>,
}

impl View for Launch {
    type V = ModelState;

    open spec fn view(&self) -> ModelState {
        ModelState {
            image: self.config.image_path@,
            command: self.config.command.deep_view(),
            hostname: self.config.hostname@,
            memory_limit: self.config.memory_limit,
            cpu_weight: self.config.cpu_weight,
            id: self.container_id@,
            staging: self.staging_dir@,
            rootfs: self.rootfs@,
            group_dir: self.group_dir@,
            phase: self.phase,
            failure: match &self.failure {
                None => None,
                Some(e) => Some(e@),
            },
            stage_requested: self.stage_requested,
            group_requested: self.group_requested,
            spawn_requested: self.spawn_requested,
            release_requested: self.release_requested,
            remove_requested: self.remove_requested,
            release_error: match &self.release_error {
                None => None,
                Some(d) => Some(d@),
            },
            remove_error: match &self.remove_error {
                None => None,
                Some(d) => Some(d@),
            },
        }
    }
}

impl Launch {
    /// The paths all derive from the one identity, and the bookkeeping
    /// invariant holds.
    pub open spec fn wf(&self) -> bool {
        &&& self@.staging == "/tmp/"@ + self@.id
        &&& self@.rootfs == self@.staging + "/rootfs"@
        &&& self@.group_dir == group_dir_chars(self@.id)
        &&& phase_flags_ok(self@)
    }

    /// Begins one launch: derives the identity from the orchestrating
    /// process's id and scopes every path by it.
    pub fn new(config: ContainerConfig, pid: u32) -> (l: Launch)
        ensures
            l.wf(),
            l@ == init_model(config, pid),
    {
        let container_id = container_identity(pid);
        let staging_dir = concat2("/tmp/", container_id.as_str());
        let rootfs = concat2(staging_dir.as_str(), "/rootfs");
        let group_dir = crate::cgroup::group_dir(container_id.as_str());
        Launch {
            config,
            container_id,
            staging_dir,
            rootfs,
            group_dir,
            phase: Phase::Probing,
            failure: None,
            stage_requested: false,
            group_requested: false,
            spawn_requested: false,
            release_requested: false,
            remove_requested: false,
            release_error: None,
            remove_error: None,
        }
    }

    /// Whether `ev` answers the current phase.
    pub fn accepts_event(&self, ev: &Event) -> (b: bool)
        ensures
            b == accepts(self@.phase, ev@),
    {
        match (self.phase, ev) {
            (Phase::Probing, Event::Probed { .. }) => true,
            (Phase::Staging { .. }, Event::Completed { .. }) => true,
            (Phase::CreatingGroup, Event::Completed { .. }) => true,
            (Phase::SettingMemory, Event::Completed { .. }) => true,
            (Phase::SettingCpu, Event::Completed { .. }) => true,
            (Phase::Spawning, Event::Completed { .. }) => true,
            (Phase::Waiting, Event::Exited { .. }) => true,
            (Phase::Waiting, Event::WaitError { .. }) => true,
            (Phase::Releasing, Event::Completed { .. }) => true,
            (Phase::RemovingStaging, Event::Completed { .. }) => true,
            _ => false,
        }
    }

    /// Whether the launch is decided.
    pub fn finished(&self) -> (b: bool)
        ensures
            b == (self@.phase is Finished),
    {
        self.phase == Phase::Finished
    }

    /// Takes one event and says what to do next, exactly as `model_trans`
    /// and `step_action` describe.
    pub fn step(&mut self, ev: Event) -> (act: Action)
        requires
            old(self).wf(),
            accepts(old(self)@.phase, ev@),
        ensures
            final(self).wf(),
            final(self)@ == model_trans(old(self)@, ev@),
            step_action(old(self)@, ev@, act),
    {
        let ph = self.phase;
        match (ph, ev) {
            (Phase::Probing, Event::Probed { is_file, is_dir }) => {
                if is_file {
                    self.phase = Phase::Staging { archive: true };
                    self.stage_requested = true;
                    let gz = archive_is_gzipped(self.config.image_path.as_str());
                    Action::Unpack {
                        archive: self.config.image_path.clone(),
                        dest: self.rootfs.clone(),
                        gzipped: gz,
                    }
                } else if is_dir {
                    self.phase = Phase::Staging { archive: false };
                    self.stage_requested = true;
                    Action::CopyTree {
                        src: self.config.image_path.clone(),
                        dest: self.rootfs.clone(),
                    }
                } else {
                    self.phase = Phase::Finished;
                    self.failure = Some(
                        ContainerError::Image(
                            concat2("Image not found: ", self.config.image_path.as_str()),
                        ),
                    );
                    Action::Finish
                }
            },
            (Phase::Staging { archive }, Event::Completed { ok, detail }) => {
                if ok {
                    if self.config.memory_limit == 0 {
                        self.phase = Phase::Releasing;
                        self.release_requested = true;
                        self.failure = Some(
                            ContainerError::Cgroup("memory.max must be positive".to_owned()),
                        );
                        Action::RemoveGroupDir { path: self.group_dir.clone() }
                    } else if self.config.cpu_weight == 0 {
                        self.phase = Phase::Releasing;
                        self.release_requested = true;
                        self.failure = Some(
                            ContainerError::Cgroup("cpu.weight must be positive".to_owned()),
                        );
                        Action::RemoveGroupDir { path: self.group_dir.clone() }
                    } else {
                        self.phase = Phase::CreatingGroup;
                        self.group_requested = true;
                        Action::MakeGroupDir { path: self.group_dir.clone() }
                    }
                } else {
                    self.phase = Phase::Releasing;
                    self.release_requested = true;
                    self.failure = Some(
                        if archive {
                            ContainerError::Image(detail)
                        } else {
                            ContainerError::Filesystem(detail)
                        },
                    );
                    Action::RemoveGroupDir { path: self.group_dir.clone() }
                }
            },
            (Phase::CreatingGroup, Event::Completed { ok, detail }) => {
                if ok {
                    self.phase = Phase::SettingMemory;
                    Action::WriteLimit {
                        write: FileWrite {
                            path: concat2(self.group_dir.as_str(), "/memory.max"),
                            value: dec_string(self.config.memory_limit),
                        },
                    }
                } else {
                    self.phase = Phase::Releasing;
                    self.release_requested = true;
                    self.failure = Some(
                        ContainerError::Cgroup(
                            concat2("Failed to create cgroup dir: ", detail.as_str()),
                        ),
                    );
                    Action::RemoveGroupDir { path: self.group_dir.clone() }
                }
            },
            (Phase::SettingMemory, Event::Completed { ok, detail }) => {
                if ok {
                    self.phase = Phase::SettingCpu;
                    Action::WriteLimit {
                        write: FileWrite {
                            path: concat2(self.group_dir.as_str(), "/cpu.weight"),
                            value: dec_string(self.config.cpu_weight),
                        },
                    }
                } else {
                    self.phase = Phase::Releasing;
                    self.release_requested = true;
                    self.failure = Some(
                        ContainerError::Cgroup(
                            concat2("Failed to set memory limit: ", detail.as_str()),
                        ),
                    );
                    Action::RemoveGroupDir { path: self.group_dir.clone() }
                }
            },
            (Phase::SettingCpu, Event::Completed { ok, detail }) => {
                if ok {
                    self.phase = Phase::Spawning;
                    self.spawn_requested = true;
                    Action::SpawnChild {
                        child: create_and_exec(
                            &self.config,
                            self.rootfs.as_str(),
                            self.container_id.as_str(),
                        ),
                    }
                } else {
                    self.phase = Phase::Releasing;
                    self.release_requested = true;
                    self.failure = Some(
                        ContainerError::Cgroup(
                            concat2("Failed to set CPU weight: ", detail.as_str()),
                        ),
                    );
                    Action::RemoveGroupDir { path: self.group_dir.clone() }
                }
            },
            (Phase::Spawning, Event::Completed { ok, detail }) => {
                if ok {
                    self.phase = Phase::Waiting;
                    Action::AwaitChild
                } else {
                    self.phase = Phase::Releasing;
                    self.release_requested = true;
                    self.failure = Some(
                        ContainerError::Namespace(concat2("clone failed: ", detail.as_str())),
                    );
                    Action::RemoveGroupDir { path: self.group_dir.clone() }
                }
            },
            (Phase::Waiting, Event::Exited { status }) => {
                if status != 0 {
                    let digits = dec_string(status);
                    self.failure = Some(
                        ContainerError::Namespace(
                            concat2("child exited with status ", digits.as_str()),
                        ),
                    );
                }
                self.phase = Phase::Releasing;
                self.release_requested = true;
                Action::RemoveGroupDir { path: self.group_dir.clone() }
            },
            (Phase::Waiting, Event::WaitError { detail }) => {
                self.phase = Phase::Releasing;
                self.release_requested = true;
                self.failure = Some(
                    ContainerError::Namespace(concat2("waitpid failed: ", detail.as_str())),
                );
                Action::RemoveGroupDir { path: self.group_dir.clone() }
            },
            (Phase::Releasing, Event::Completed { ok, detail }) => {
                self.release_error = if ok {
                    None
                } else {
                    Some(detail)
                };
                self.phase = Phase::RemovingStaging;
                self.remove_requested = true;
                Action::RemoveTree { path: self.staging_dir.clone() }
            },
            (Phase::RemovingStaging, Event::Completed { ok, detail }) => {
                self.remove_error = if ok {
                    None
                } else {
                    Some(detail)
                };
                self.phase = Phase::Finished;
                Action::Finish
            },
            // no other pairing satisfies `accepts`
            _ => {
                proof {
                    assert(false);
                }
                Action::Finish
            },
        }
    }

    /// The launch's outcome so far: success, or the primary failure.
    /// Meaningful once the machine is finished.
    pub fn result(self) -> (r: Result<(), ContainerError>)
        ensures
            self@.failure is None ==> r is Ok,
            self@.failure matches Some(e) ==> (r matches Err(err) && err@ == e),
    {
        match self.failure {
            None => Ok(()),
            Some(e) => Err(e),
        }
    }
}

/// The views of a sequence of events.
pub open spec fn events_model(evs: Seq<Event>) -> Seq<EventModel> {
    evs.map_values(|e: Event| e@)
}

/// The state reached by feeding the events in order.
pub open spec fn run_model(s: ModelState, evs: Seq<EventModel>) -> ModelState
    decreases evs.len(),
{
    if evs.len() == 0 {
        s
    } else {
        run_model(model_trans(s, evs[0]), evs.skip(1))
    }
}

/// Replays one whole launch over a recorded sequence of host outcomes:
/// the result, and every bookkeeping flag, are exactly what `run_model`
/// computes from the initial state.
pub fn run(config: ContainerConfig, pid: u32, events: Vec<Event>) -> (l: Launch)
    ensures
        l.wf(),
        l@ == run_model(init_model(config, pid), events_model(events@)),
{
    let ghost init = init_model(config, pid);
    let ghost all = events_model(events@);
    let mut l = Launch::new(config, pid);
    let mut evs = events;
    while evs.len() > 0
        invariant
            l.wf(),
            run_model(l@, events_model(evs@)) == run_model(init, all),
        decreases evs.len(),
    {
        let ghost before = evs@;
        let ev = evs.remove(0);
        proof {
            assert(events_model(evs@) =~= events_model(before).skip(1));
            assert(events_model(before)[0] == ev@);
        }
        if l.accepts_event(&ev) {
            let _issued = l.step(ev);
        }
    }
    proof {
        assert(events_model(evs@) =~= Seq::<EventModel>::empty());
    }
    l
}

/// The cleanup discipline: stepping preserves the bookkeeping invariant,
/// and however the events run, a finished launch that asked for any
/// staging — a fortiori one that configured a control group or asked for
/// a child — also asked for the control group's removal and the staging
/// tree's removal. The only launch that finishes without cleanup is one
/// whose image was missing, where nothing was ever created.
pub proof fn lemma_cleanup_always(s: ModelState, evs: Seq<EventModel>)
    requires
        phase_flags_ok(s),
    ensures
        phase_flags_ok(run_model(s, evs)),
        run_model(s, evs).phase is Finished && run_model(s, evs).stage_requested ==> run_model(
            s,
            evs,
        ).release_requested && run_model(s, evs).remove_requested,
        run_model(s, evs).group_requested ==> run_model(s, evs).stage_requested,
        s.stage_requested ==> run_model(s, evs).stage_requested,
    decreases evs.len(),
{
    if evs.len() > 0 {
        assert(phase_flags_ok(model_trans(s, evs[0])));
        lemma_cleanup_always(model_trans(s, evs[0]), evs.skip(1));
    }
}

/// The cleanup discipline from the very start of a launch: whatever
/// events a fresh launch is fed, if it finishes having asked for any
/// staging, it asked for both removals too.
pub proof fn lemma_launch_cleanup(config: ContainerConfig, pid: u32, evs: Seq<EventModel>)
    ensures
        run_model(init_model(config, pid), evs).phase is Finished && run_model(
            init_model(config, pid),
            evs,
        ).stage_requested ==> run_model(init_model(config, pid), evs).release_requested
            && run_model(init_model(config, pid), evs).remove_requested,
{
    lemma_cleanup_always(init_model(config, pid), evs);
}

/// Error propagation through cleanup: from the releasing phase on, no
/// event changes the recorded outcome — cleanup failures are surfaced in
/// their own fields, never as the launch's result.
pub proof fn lemma_result_stable(s: ModelState, evs: Seq<EventModel>)
    requires
        s.phase is Releasing || s.phase is RemovingStaging || s.phase is Finished,
    ensures
        run_model(s, evs).failure == s.failure,
    decreases evs.len(),
{
    if evs.len() > 0 {
        lemma_result_stable(model_trans(s, evs[0]), evs.skip(1));
    }
}

/// A child that terminates with a non-zero status is a terminal launch
/// failure: the machine records a namespace error naming the status, no
/// later event changes it, and whenever the launch then finishes, both
/// removals were requested first. Inside the child the failing step tags
/// itself (`child_failure` in the namespace module), but only the status
/// survives the process boundary, so the launch reports it as a
/// namespace error.
pub proof fn lemma_child_failure_terminal(s: ModelState, status: u64, evs: Seq<EventModel>)
    requires
        phase_flags_ok(s),
        s.phase is Waiting,
        status != 0,
    ensures
        ({
            let after = model_trans(s, EventModel::Exited { status });
            let done = run_model(after, evs);
            &&& after.failure == Some(
                ErrorModel::Namespace("child exited with status "@ + dec_chars(status as nat)),
            )
            &&& done.failure == after.failure
            &&& done.phase is Finished ==> done.release_requested && done.remove_requested
        }),
{
    let after = model_trans(s, EventModel::Exited { status });
    lemma_result_stable(after, evs);
    lemma_cleanup_always(after, evs);
}

/// A missing image ends the launch at once with an image error, before
/// any staging, control group or child is requested: nothing leaks.
pub proof fn lemma_missing_image(config: ContainerConfig, pid: u32, ev: EventModel)
    requires
        ev matches EventModel::Probed { is_file: false, is_dir: false },
    ensures
        model_trans(init_model(config, pid), ev).phase is Finished,
        model_trans(init_model(config, pid), ev).failure == Some(
            ErrorModel::Image("Image not found: "@ + config.image_path@),
        ),
        !model_trans(init_model(config, pid), ev).stage_requested,
        !model_trans(init_model(config, pid), ev).group_requested,
        !model_trans(init_model(config, pid), ev).spawn_requested,
{
}

} // verus!
