//! The data a probe produces, and the entry point that runs the detectors of
//! the platform at hand.

pub mod common;
pub mod host;
pub mod linux;
pub mod macos;
pub mod plan;
pub mod windows;

use crate::probe::host::{Host, Knowledge, Query, Question, Reply};
use crate::probe::plan::{
    after_rounds, covers, first_open, group_plans, lemma_answer_settles_more,
    lemma_rounds_suffice, settled,
};
use crate::text::{lowercase_of, same_text, to_lowercase};
use vstd::prelude::*;

verus! {

broadcast use group_plans;

/// The container engines this library knows how to look for.
#[derive(Clone, Copy, Debug, PartialEq, Eq, Structural)]
pub enum RuntimeKind {
    Docker,
    Podman,
    Containerd,
}

impl RuntimeKind {
    /// The kind that an already lowercased name stands for.
    pub open spec fn named(lowered: Seq<char>) -> Option<RuntimeKind> {
        if lowered == "docker"@ {
            Some(RuntimeKind::Docker)
        } else if lowered == "podman"@ {
            Some(RuntimeKind::Podman)
        } else if lowered == "containerd"@ || lowered == "ctr"@ {
            Some(RuntimeKind::Containerd)
        } else {
            None
        }
    }

    /// The name shown to the user.
    pub open spec fn label(self) -> Seq<char> {
        match self {
            RuntimeKind::Docker => "Docker"@,
            RuntimeKind::Podman => "Podman"@,
            RuntimeKind::Containerd => "containerd"@,
        }
    }

    /// The place of a kind in the order of preference.
    pub open spec fn rank(self) -> nat {
        match self {
            RuntimeKind::Docker => 0,
            RuntimeKind::Podman => 1,
            RuntimeKind::Containerd => 2,
        }
    }

    /// Resolves a name that is already in lowercase.
    pub fn from_lowercase_name(lowered: &str) -> (kind: Option<RuntimeKind>)
        ensures
            kind == RuntimeKind::named(lowered@),
    {
        if same_text(lowered, "docker") {
            Some(RuntimeKind::Docker)
        } else if same_text(lowered, "podman") {
            Some(RuntimeKind::Podman)
        } else if same_text(lowered, "containerd") || same_text(lowered, "ctr") {
            Some(RuntimeKind::Containerd)
        } else {
            None
        }
    }

    /// Resolves a name given by the user, whatever its case.
    pub fn from_name(s: &str) -> (kind: Option<RuntimeKind>)
        ensures
            kind == RuntimeKind::named(lowercase_of(s@)),
    {
        let lowered = to_lowercase(s);
        RuntimeKind::from_lowercase_name(lowered.as_str())
    }

    /// Two kinds match when they are the same variant.
    pub fn matches(&self, other: &RuntimeKind) -> (same: bool)
        ensures
            same == (*self == *other),
    {
        *self == *other
    }

    /// The name shown to the user.
    pub fn name(&self) -> (text: &'static str)
        ensures
            text@ == self.label(),
    {
        match self {
            RuntimeKind::Docker => "Docker",
            RuntimeKind::Podman => "Podman",
            RuntimeKind::Containerd => "containerd",
        }
    }
}

/// The order of preference among the runtimes: where several are detected,
/// the first of them in this order is the default.
pub open spec fn preference() -> Seq<RuntimeKind> {
    seq![RuntimeKind::Docker, RuntimeKind::Podman, RuntimeKind::Containerd]
}

/// The order of preference among the runtimes.
pub fn runtime_preference() -> (order: Vec<RuntimeKind>)
    ensures
        order@ == preference(),
        forall|kind: RuntimeKind| order@[#[trigger] kind.rank() as int] == kind,
{
    let order = vec![RuntimeKind::Docker, RuntimeKind::Podman, RuntimeKind::Containerd];
    order
}

/// The on-disk format in which a runtime keeps its layers.
#[derive(Clone, Copy, Debug, PartialEq, Eq, Structural)]
pub enum StorageDriver {
    Overlay2,
    Fuse,
    Btrfs,
    Zfs,
    Vfs,
    Unknown,
}

impl StorageDriver {
    /// The canonical lowercase name of a driver.
    pub open spec fn label(self) -> Seq<char> {
        match self {
            StorageDriver::Overlay2 => "overlay2"@,
            StorageDriver::Fuse => "fuse-overlayfs"@,
            StorageDriver::Btrfs => "btrfs"@,
            StorageDriver::Zfs => "zfs"@,
            StorageDriver::Vfs => "vfs"@,
            StorageDriver::Unknown => "unknown"@,
        }
    }

    /// The driver that a daemon means by `name`; a name outside the table is
    /// `Unknown`.
    pub open spec fn reported_as(name: Seq<char>) -> StorageDriver {
        if name == "overlay2"@ || name == "overlay"@ {
            StorageDriver::Overlay2
        } else if name == "fuse-overlayfs"@ {
            StorageDriver::Fuse
        } else if name == "btrfs"@ {
            StorageDriver::Btrfs
        } else if name == "zfs"@ {
            StorageDriver::Zfs
        } else if name == "vfs"@ {
            StorageDriver::Vfs
        } else {
            StorageDriver::Unknown
        }
    }

    /// The canonical lowercase name of a driver.
    pub fn name(&self) -> (text: &'static str)
        ensures
            text@ == self.label(),
    {
        match self {
            StorageDriver::Overlay2 => "overlay2",
            StorageDriver::Fuse => "fuse-overlayfs",
            StorageDriver::Btrfs => "btrfs",
            StorageDriver::Zfs => "zfs",
            StorageDriver::Vfs => "vfs",
            StorageDriver::Unknown => "unknown",
        }
    }
}

/// One detected runtime. `can_read` and `is_running` are what the host said
/// when it was asked, and may be stale by the time they are used.
#[derive(Clone, Debug, PartialEq, Eq)]
pub struct RuntimeInfo {
    pub kind: RuntimeKind,
    pub binary_path: String,
    pub storage_root: String,
    pub storage_driver: StorageDriver,
    pub can_read: bool,
    pub is_running: bool,
}

/// What a `RuntimeInfo` says, with its paths as sequences of characters.
pub struct RuntimeFacts {
    pub kind: RuntimeKind,
    pub binary_path: Seq<char>,
    pub storage_root: Seq<char>,
    pub storage_driver: StorageDriver,
    pub can_read: bool,
    pub is_running: bool,
}

impl View for RuntimeInfo {
    type V = RuntimeFacts;

    open spec fn view(&self) -> RuntimeFacts {
        RuntimeFacts {
            kind: self.kind,
            binary_path: self.binary_path@,
            storage_root: self.storage_root@,
            storage_driver: self.storage_driver,
            can_read: self.can_read,
            is_running: self.is_running,
        }
    }
}

/// The runtimes found on a host, in detection order, and the one that
/// direct-storage operations use.
#[derive(Clone, Debug, PartialEq, Eq)]
pub struct ProbeResult {
    pub runtimes: Vec<RuntimeInfo>,
    pub default: Option<usize>,
}

/// What a `ProbeResult` says.
pub struct ProbeFacts {
    pub runtimes: Seq<RuntimeFacts>,
    pub default: Option<usize>,
}

impl ProbeFacts {
    /// The default, where there is one, is the index of a listed runtime.
    pub open spec fn well_formed(self) -> bool {
        self.default matches Some(i) ==> i < self.runtimes.len()
    }
}

/// The facts of a list of runtimes.
pub open spec fn facts_of(runtimes: Seq<RuntimeInfo>) -> Seq<RuntimeFacts> {
    Seq::new(runtimes.len(), |i: int| runtimes[i]@)
}

impl View for ProbeResult {
    type V = ProbeFacts;

    open spec fn view(&self) -> ProbeFacts {
        ProbeFacts { runtimes: facts_of(self.runtimes@), default: self.default }
    }
}

impl ProbeResult {
    /// The default, where there is one, is the index of a listed runtime.
    pub open spec fn well_formed(&self) -> bool {
        self@.well_formed()
    }

    /// Whether the default, where there is one, is the index of a listed
    /// runtime.
    pub fn is_well_formed(&self) -> (ok: bool)
        ensures
            ok == self.well_formed(),
    {
        match self.default {
            Some(i) => i < self.runtimes.len(),
            None => true,
        }
    }

    /// The runtime that direct-storage operations use, if there is one.
    pub fn default_runtime(&self) -> (runtime: Option<&RuntimeInfo>)
        requires
            self.well_formed(),
        ensures
            match runtime {
                Some(rt) => self.default matches Some(at) && *rt == self.runtimes@[at as int],
                None => self.default is None,
            },
    {
        match self.default {
            Some(at) => Some(&self.runtimes[at]),
            None => None,
        }
    }
}

/// The facts of an optional `RuntimeInfo`.
pub open spec fn opt_facts(info: Option<RuntimeInfo>) -> Option<RuntimeFacts> {
    match info {
        Some(i) => Some(i@),
        None => None,
    }
}

/// What a detector contributes to the list of runtimes: its finding, if it
/// has one.
pub open spec fn listed(found: Option<RuntimeFacts>) -> Seq<RuntimeFacts> {
    match found {
        Some(facts) => seq![facts],
        None => Seq::empty(),
    }
}

/// The result made of what the three detectors found: their findings in the
/// order Docker, Podman, containerd, and the first of them as the default.
pub open spec fn collected(
    docker: Option<RuntimeFacts>,
    podman: Option<RuntimeFacts>,
    containerd: Option<RuntimeFacts>,
) -> ProbeFacts {
    let runtimes = listed(docker) + listed(podman) + listed(containerd);
    ProbeFacts {
        runtimes,
        default: if runtimes.len() > 0 {
            Some(0usize)
        } else {
            None
        },
    }
}

/// Puts the findings of the three detectors together.
pub fn collect(
    docker: Option<RuntimeInfo>,
    podman: Option<RuntimeInfo>,
    containerd: Option<RuntimeInfo>,
) -> (result: ProbeResult)
    ensures
        result@ == collected(opt_facts(docker), opt_facts(podman), opt_facts(containerd)),
        result.well_formed(),
{
    let mut runtimes: Vec<RuntimeInfo> = Vec::new();
    let ghost mut facts: Seq<RuntimeFacts> = Seq::empty();
    if let Some(info) = docker {
        proof {
            facts = facts.push(info@);
        }
        runtimes.push(info);
    }
    if let Some(info) = podman {
        proof {
            facts = facts.push(info@);
        }
        runtimes.push(info);
    }
    if let Some(info) = containerd {
        proof {
            facts = facts.push(info@);
        }
        runtimes.push(info);
    }
    assert(facts =~= listed(opt_facts(docker)) + listed(opt_facts(podman)) + listed(
        opt_facts(containerd),
    ));
    let default = if runtimes.is_empty() {
        None
    } else {
        Some(0)
    };
    let result = ProbeResult { runtimes, default };
    assert(result@.runtimes =~= facts);
    result
}

/// The hosts on which this library can be asked to probe.
#[derive(Clone, Copy, Debug, PartialEq, Eq, Structural)]
pub enum Platform {
    Linux,
    MacOs,
    Windows,
}

/// What a probe of host `h` finds on the given platform. Only on Linux do
/// runtimes keep their storage where the host can read it; elsewhere the
/// probe finds nothing.
pub open spec fn probe_on(platform: Platform, h: Host) -> ProbeFacts {
    match platform {
        Platform::Linux => linux::probe_on(h),
        Platform::MacOs => macos::probe_on(),
        Platform::Windows => windows::probe_on(),
    }
}

/// The questions that probing host `h` on the given platform puts to it, in
/// order.
pub open spec fn probe_plan(platform: Platform, h: Host) -> Seq<Question> {
    match platform {
        Platform::Linux => linux::probe_plan(h),
        Platform::MacOs => Seq::empty(),
        Platform::Windows => Seq::empty(),
    }
}

/// Probes the host for container runtimes.
///
/// The host is not touched: what is known of it comes in as `known`. The
/// probe returns its result where `known` holds every answer it takes, and
/// else the first question that is still open; the caller finds the answer,
/// records it, and probes again.
pub fn probe(platform: Platform, known: &Knowledge) -> (result: Result<ProbeResult, Query>)
    ensures
        forall|h: Host| #[trigger]
            known.agrees(h) ==> match result {
                Ok(found) => found@ == probe_on(platform, h) && covers(
                    known@,
                    probe_plan(platform, h),
                ),
                Err(q) => first_open(known@, probe_plan(platform, h), q@),
            },
        result matches Ok(found) ==> found.well_formed(),
{
    match platform {
        Platform::Linux => linux::probe(known),
        Platform::MacOs => Ok(macos::probe()),
        Platform::Windows => Ok(windows::probe()),
    }
}

/// Where no detector finds its runtime, the result lists no runtime and has
/// no default.
pub proof fn lemma_nothing_detected()
    ensures
        collected(None, None, None) == (ProbeFacts { runtimes: Seq::empty(), default: None }),
{
}

/// On every platform, a host on which no runtime is detected yields the
/// empty result. On macOS and Windows that is every host.
pub proof fn lemma_empty_probe(platform: Platform, h: Host)
    requires
        platform == Platform::Linux ==> linux::docker_on(h) is None && linux::podman_on(h) is None
            && linux::containerd_on(h) is None,
    ensures
        probe_on(platform, h) == (ProbeFacts { runtimes: Seq::empty(), default: None }),
{
    lemma_nothing_detected();
}

/// Where all three runtimes are detected, the result lists Docker, Podman
/// and containerd in that order, and Docker is the default.
pub proof fn lemma_all_detected(docker: RuntimeFacts, podman: RuntimeFacts, containerd: RuntimeFacts)
    ensures
        collected(Some(docker), Some(podman), Some(containerd)).runtimes == seq![
            docker,
            podman,
            containerd,
        ],
        collected(Some(docker), Some(podman), Some(containerd)).default == Some(0usize),
{
}

/// Where Docker is not detected and Podman and containerd are, the default
/// is the Podman entry.
pub proof fn lemma_podman_before_containerd(podman: RuntimeFacts, containerd: RuntimeFacts)
    ensures
        collected(None, Some(podman), Some(containerd)).runtimes == seq![podman, containerd],
        collected(None, Some(podman), Some(containerd)).default == Some(0usize),
        collected(None, Some(podman), Some(containerd)).runtimes[0] == podman,
{
}

/// Whatever the detectors found: the default is the first entry where there
/// is an entry and absent where there is none, so it is always the index of
/// a listed runtime; and every finding is listed, a detector's finding before
/// those of the detectors that run after it.
pub proof fn lemma_collected_in_order(
    docker: Option<RuntimeFacts>,
    podman: Option<RuntimeFacts>,
    containerd: Option<RuntimeFacts>,
)
    ensures
        collected(docker, podman, containerd).well_formed(),
        collected(docker, podman, containerd).default is Some <==> docker is Some || podman is Some
            || containerd is Some,
        collected(docker, podman, containerd).runtimes.len() == listed(docker).len() + listed(
            podman,
        ).len() + listed(containerd).len(),
        docker matches Some(d) ==> collected(docker, podman, containerd).runtimes[0] == d,
        podman matches Some(p) ==> collected(docker, podman, containerd).runtimes[listed(
            docker,
        ).len() as int] == p,
        containerd matches Some(c) ==> collected(docker, podman, containerd).runtimes[(listed(
            docker,
        ).len() + listed(podman).len()) as int] == c,
{
}

/// On every platform and every host, the runtimes of a probe stand in
/// detection order: each entry's kind comes later in the order Docker,
/// Podman, containerd than the kind of the entry before it.
pub proof fn lemma_detection_order(platform: Platform, h: Host)
    ensures
        probe_on(platform, h).well_formed(),
        forall|i: int, j: int|
            0 <= i < j < probe_on(platform, h).runtimes.len() ==> (#[trigger] probe_on(
                platform,
                h,
            ).runtimes[i]).kind.rank() < (#[trigger] probe_on(platform, h).runtimes[j]).kind.rank(),
{
    if platform == Platform::Linux {
        lemma_collected_in_order(linux::docker_on(h), linux::podman_on(h), linux::containerd_on(h));
    }
}

/// Each round of probing gets further. Where a probe of host `h` came back
/// with the question `q`, the answers with the host's reply to `q` added
/// still agree with the host, and settle more of the probe's plan than
/// before. The plan is finite, so that the rounds come to an end: there are
/// at most as many as the plan has questions.
pub proof fn lemma_round_gets_further(
    platform: Platform,
    h: Host,
    answers: Map<Question, Reply>,
    q: Question,
)
    requires
        h.confirms(answers),
        first_open(answers, probe_plan(platform, h), q),
    ensures
        h.confirms(answers.insert(q, h.reply(q))),
        settled(answers, probe_plan(platform, h)) < settled(
            answers.insert(q, h.reply(q)),
            probe_plan(platform, h),
        ) <= probe_plan(platform, h).len(),
{
    lemma_answer_settles_more(answers, probe_plan(platform, h), q, h.reply(q));
}

/// Probing comes to an end. A caller that starts with nothing on record and
/// records, round by round, the host's reply to the question that the probe
/// came back with, has every answer that the probe takes after as many
/// rounds as the probe's plan has questions; the probe then returns its
/// result.
pub proof fn lemma_probe_ends(platform: Platform, h: Host)
    ensures
        h.confirms(
            after_rounds(h, probe_plan(platform, h), probe_plan(platform, h).len()),
        ),
        covers(
            after_rounds(h, probe_plan(platform, h), probe_plan(platform, h).len()),
            probe_plan(platform, h),
        ),
{
    lemma_rounds_suffice(h, probe_plan(platform, h));
}

/// The names `ctr` and `containerd` stand for the same kind, containerd.
pub proof fn lemma_ctr_names_containerd()
    ensures
        RuntimeKind::named("ctr"@) == Some(RuntimeKind::Containerd),
        RuntimeKind::named("containerd"@) == Some(RuntimeKind::Containerd),
{
    reveal_strlit("ctr");
    reveal_strlit("containerd");
    reveal_strlit("docker");
    reveal_strlit("podman");
    assert("docker"@.len() == 6 && "podman"@.len() == 6);
}

} // verus!
