//! Detection of Docker, Podman and containerd on a Linux host.

use crate::probe::common::{
    binary_on, check_daemon, check_read_access, command_output, dir_questions, find_binary,
    find_binary_plan, first_dir_among, first_yes, lemma_first_yes, output_on, read_access_plan,
    readable_on, scan_plan, words,
};
use crate::probe::host::{texts, Host, Knowledge, Query, Question};
use crate::probe::plan::{covers, first_open, group_plans};
use crate::probe::{
    collect, collected, opt_facts, ProbeFacts, ProbeResult, RuntimeFacts, RuntimeInfo, RuntimeKind,
    StorageDriver,
};
use crate::text::{join_path, joined_path, same_text};
use vstd::prelude::*;

verus! {

broadcast use group_plans;

/// The drivers whose directory the heuristic looks for under a storage root,
/// in the order in which it looks: the first directory that exists decides.
pub open spec fn guess_priority() -> Seq<StorageDriver> {
    seq![
        StorageDriver::Overlay2,
        StorageDriver::Fuse,
        StorageDriver::Btrfs,
        StorageDriver::Zfs,
        StorageDriver::Vfs,
    ]
}

/// The order in which the heuristic looks for driver directories.
pub fn guess_order() -> (order: Vec<StorageDriver>)
    ensures
        order@ == guess_priority(),
{
    let order = vec![
        StorageDriver::Overlay2,
        StorageDriver::Fuse,
        StorageDriver::Btrfs,
        StorageDriver::Zfs,
        StorageDriver::Vfs,
    ];
    order
}

/// The directories that the heuristic looks for under `root`, in priority
/// order. Each driver's directory bears the driver's name.
pub open spec fn driver_dirs(root: Seq<char>) -> Seq<Seq<char>> {
    Seq::new(guess_priority().len(), |i: int| joined_path(root, guess_priority()[i].label()))
}

/// The driver that the storage root `root` on host `h` points to: that of
/// the first directory of the priority order that exists under it. It is
/// `Unknown` where the root cannot be read, and where none of the
/// directories exists.
pub open spec fn guessed_driver(h: Host, root: Seq<char>) -> StorageDriver {
    if !readable_on(h, root) {
        StorageDriver::Unknown
    } else {
        match first_yes(h, dir_questions(driver_dirs(root)), 0) {
            Some(at) => guess_priority()[at],
            None => StorageDriver::Unknown,
        }
    }
}

/// The questions that guessing the driver under `root` puts to host `h`, in
/// order: whether the root can be read, and only where it can, whether each
/// directory exists, up to the first that does.
pub open spec fn guess_plan(h: Host, root: Seq<char>) -> Seq<Question> {
    read_access_plan(h, root) + if readable_on(h, root) {
        scan_plan(h, dir_questions(driver_dirs(root)), 0)
    } else {
        Seq::empty()
    }
}

/// A storage root that cannot be read tells nothing: the guess is `Unknown`,
/// whatever lies under the root.
pub proof fn lemma_unreadable_root_is_unknown(h: Host, root: Seq<char>)
    requires
        !readable_on(h, root),
    ensures
        guessed_driver(h, root) == StorageDriver::Unknown,
{
}

/// Under a root that can be read, the guess is the first driver of the
/// priority order whose directory exists: a directory later in the order
/// does not matter.
pub proof fn lemma_guess_first_match(h: Host, root: Seq<char>, at: int)
    requires
        readable_on(h, root),
        0 <= at < guess_priority().len(),
        h.is_dir(joined_path(root, guess_priority()[at].label())),
        forall|j: int|
            0 <= j < at ==> !h.is_dir(
                joined_path(root, (#[trigger] guess_priority()[j]).label()),
            ),
    ensures
        guessed_driver(h, root) == guess_priority()[at],
{
    let questions = dir_questions(driver_dirs(root));
    lemma_first_yes(h, questions, 0);
    assert(h.reply(questions[at]).flag());
    assert forall|j: int| 0 <= j < at implies !h.reply(#[trigger] questions[j]).flag() by {
        assert(!h.is_dir(joined_path(root, guess_priority()[j].label())));
    }
}

/// Where none of the directories exists under the root, the guess is
/// `Unknown`.
pub proof fn lemma_guess_no_match(h: Host, root: Seq<char>)
    requires
        forall|j: int|
            0 <= j < guess_priority().len() ==> !h.is_dir(
                joined_path(root, (#[trigger] guess_priority()[j]).label()),
            ),
    ensures
        guessed_driver(h, root) == StorageDriver::Unknown,
{
    let questions = dir_questions(driver_dirs(root));
    lemma_first_yes(h, questions, 0);
    if first_yes(h, questions, 0) is Some {
        let at = first_yes(h, questions, 0)->0;
        assert(!h.is_dir(joined_path(root, guess_priority()[at].label())));
    }
}

/// A storage root that can be read and has an `overlay2` directory is taken
/// for `Overlay2`, whatever else lies beside it.
pub proof fn lemma_overlay2_wins(h: Host, root: Seq<char>)
    requires
        readable_on(h, root),
        h.is_dir(joined_path(root, "overlay2"@)),
    ensures
        guessed_driver(h, root) == StorageDriver::Overlay2,
{
    lemma_guess_first_match(h, root, 0);
}

/// A storage root that can be read and has a `btrfs` directory and neither
/// an `overlay2` nor a `fuse-overlayfs` directory is taken for `Btrfs`.
pub proof fn lemma_btrfs_without_overlay(h: Host, root: Seq<char>)
    requires
        readable_on(h, root),
        h.is_dir(joined_path(root, "btrfs"@)),
        !h.is_dir(joined_path(root, "overlay2"@)),
        !h.is_dir(joined_path(root, "fuse-overlayfs"@)),
    ensures
        guessed_driver(h, root) == StorageDriver::Btrfs,
{
    lemma_guess_first_match(h, root, 2);
}

/// The directory of each driver of `order` under `storage_root`.
fn driver_paths(storage_root: &str, order: &Vec<StorageDriver>) -> (paths: Vec<String>)
    requires
        order@ == guess_priority(),
    ensures
        texts(paths@) == driver_dirs(storage_root@),
{
    let mut paths: Vec<String> = Vec::new();
    let mut i: usize = 0;
    while i < order.len()
        invariant
            i <= order.len(),
            order@ == guess_priority(),
            paths.len() == i,
            forall|j: int|
                0 <= j < i ==> paths@[j]@ == joined_path(
                    storage_root@,
                    guess_priority()[j].label(),
                ),
        decreases order.len() - i,
    {
        paths.push(join_path(storage_root, order[i].name()));
        i += 1;
    }
    assert(texts(paths@) =~= driver_dirs(storage_root@));
    paths
}

/// Guesses the storage driver from the directories under a storage root. A
/// root that cannot be read is not looked into: its driver is `Unknown`.
pub fn guess_storage_driver(known: &Knowledge, storage_root: &str) -> (driver: Result<
    StorageDriver,
    Query,
>)
    ensures
        forall|h: Host| #[trigger]
            known.agrees(h) ==> match driver {
                Ok(d) => d == guessed_driver(h, storage_root@) && covers(
                    known@,
                    guess_plan(h, storage_root@),
                ),
                Err(q) => first_open(known@, guess_plan(h, storage_root@), q@),
            },
{
    if !check_read_access(known, storage_root)? {
        return Ok(StorageDriver::Unknown);
    }
    let order = guess_order();
    let paths = driver_paths(storage_root, &order);
    match first_dir_among(known, &paths)? {
        Some(at) => Ok(order[at]),
        None => Ok(StorageDriver::Unknown),
    }
}

/// Reads the name under which a daemon reports its storage driver. A name
/// outside the table is `Unknown`, never an error.
pub fn parse_storage_driver(s: &str) -> (driver: StorageDriver)
    ensures
        driver == StorageDriver::reported_as(s@),
{
    if same_text(s, "overlay2") || same_text(s, "overlay") {
        StorageDriver::Overlay2
    } else if same_text(s, "fuse-overlayfs") {
        StorageDriver::Fuse
    } else if same_text(s, "btrfs") {
        StorageDriver::Btrfs
    } else if same_text(s, "zfs") {
        StorageDriver::Zfs
    } else if same_text(s, "vfs") {
        StorageDriver::Vfs
    } else {
        StorageDriver::Unknown
    }
}

/// The driver that a daemon's answer stands for: `Unknown` where it gave
/// none.
pub open spec fn reported_driver(answer: Option<Seq<char>>) -> StorageDriver {
    match answer {
        Some(name) => StorageDriver::reported_as(name),
        None => StorageDriver::Unknown,
    }
}

/// The arguments with which Docker is asked for its storage driver.
pub open spec fn docker_driver_args() -> Seq<Seq<char>> {
    seq!["info"@, "--format"@, "{{.Driver}}"@]
}

/// The storage driver that the Docker daemon of host `h` reports; `Unknown`
/// where the query fails.
pub open spec fn docker_driver_on(h: Host) -> StorageDriver {
    reported_driver(output_on(h, "docker"@, docker_driver_args()))
}

/// Asks the Docker daemon for its storage driver.
pub fn detect_docker_storage_driver(known: &Knowledge) -> (driver: Result<StorageDriver, Query>)
    ensures
        match driver {
            Ok(_) => known.knows(Question::Output("docker"@, docker_driver_args())),
            Err(q) => q@ == Question::Output("docker"@, docker_driver_args()) && !known.knows(q@),
        },
        forall|h: Host| #[trigger]
            known.agrees(h) ==> (driver matches Ok(d) ==> d == docker_driver_on(h)),
{
    let args = ["info", "--format", "{{.Driver}}"];
    assert(words(args@) =~= docker_driver_args());
    match command_output(known, "docker", &args)? {
        Some(name) => Ok(parse_storage_driver(name.as_str())),
        None => Ok(StorageDriver::Unknown),
    }
}

/// The arguments with which Docker and Podman are asked whether they are
/// alive.
pub open spec fn info_args() -> Seq<Seq<char>> {
    seq!["info"@]
}

/// Whether Docker counts as running on host `h`: `docker info` succeeds, or
/// the daemon's socket exists. The socket tells of a daemon that the current
/// user may not query.
pub open spec fn docker_running_on(h: Host) -> bool {
    h.succeeds("docker"@, info_args()) || h.has("/var/run/docker.sock"@)
}

/// What a probe says of Docker on host `h`; nothing where the `docker`
/// program is not on the search path.
pub open spec fn docker_on(h: Host) -> Option<RuntimeFacts> {
    match binary_on(h, "docker"@) {
        Some(binary) => Some(
            RuntimeFacts {
                kind: RuntimeKind::Docker,
                binary_path: binary,
                storage_root: "/var/lib/docker"@,
                storage_driver: if docker_running_on(h) {
                    docker_driver_on(h)
                } else {
                    guessed_driver(h, "/var/lib/docker"@)
                },
                can_read: readable_on(h, "/var/lib/docker"@),
                is_running: docker_running_on(h),
            },
        ),
        None => None,
    }
}

/// The questions that detecting Docker puts to host `h`, in order. The
/// socket is looked for only where `docker info` fails; the daemon is asked
/// for its driver only where it counts as running, and the directories are
/// looked for only where it does not.
pub open spec fn docker_plan(h: Host) -> Seq<Question> {
    find_binary_plan(h, "docker"@) + if binary_on(h, "docker"@) is Some {
        seq![Question::Succeeds("docker"@, info_args())] + (if h.succeeds("docker"@, info_args()) {
            Seq::empty()
        } else {
            seq![Question::Exists("/var/run/docker.sock"@)]
        } + (read_access_plan(h, "/var/lib/docker"@) + if docker_running_on(h) {
            seq![Question::Output("docker"@, docker_driver_args())]
        } else {
            guess_plan(h, "/var/lib/docker"@)
        }))
    } else {
        Seq::empty()
    }
}

/// Detects Docker.
pub fn detect_docker(known: &Knowledge) -> (found: Result<Option<RuntimeInfo>, Query>)
    ensures
        forall|h: Host| #[trigger]
            known.agrees(h) ==> match found {
                Ok(info) => opt_facts(info) == docker_on(h) && covers(known@, docker_plan(h)),
                Err(q) => first_open(known@, docker_plan(h), q@),
            },
{
    let binary_path = match find_binary(known, "docker")? {
        Some(path) => path,
        None => {
            return Ok(None);
        },
    };
    let args = ["info"];
    assert(words(args@) =~= info_args());
    // A daemon that this user may not query still shows by its socket.
    let is_running = check_daemon(known, "docker", &args)?
        || known.flag(Query::Exists("/var/run/docker.sock".to_owned()))?;
    let storage_root = "/var/lib/docker".to_owned();
    let can_read = check_read_access(known, storage_root.as_str())?;
    let storage_driver = if is_running {
        detect_docker_storage_driver(known)?
    } else {
        guess_storage_driver(known, storage_root.as_str())?
    };
    let info = RuntimeInfo {
        kind: RuntimeKind::Docker,
        binary_path,
        storage_root,
        storage_driver,
        can_read,
        is_running,
    };
    Ok(Some(info))
}

/// The arguments with which Podman is asked for its storage driver.
pub open spec fn podman_driver_args() -> Seq<Seq<char>> {
    seq!["info"@, "--format"@, "{{.Store.GraphDriverName}}"@]
}

/// Where Podman keeps its storage on host `h`: under the system-wide root
/// where the current user can read that, else under the user's home
/// directory. There is no such place where the system-wide root cannot be
/// read and the home directory is not known.
pub open spec fn podman_root_on(h: Host) -> Option<Seq<char>> {
    if readable_on(h, "/var/lib/containers/storage"@) {
        Some("/var/lib/containers/storage"@)
    } else {
        match h.var("HOME"@) {
            Some(home) => Some(joined_path(home, ".local/share/containers/storage"@)),
            None => None,
        }
    }
}

/// What a probe says of Podman on host `h`; nothing where the `podman`
/// program is not on the search path, or where no storage root can be named.
pub open spec fn podman_on(h: Host) -> Option<RuntimeFacts> {
    match (binary_on(h, "podman"@), podman_root_on(h)) {
        (Some(binary), Some(root)) => {
            let running = h.succeeds("podman"@, info_args());
            Some(
                RuntimeFacts {
                    kind: RuntimeKind::Podman,
                    binary_path: binary,
                    storage_root: root,
                    storage_driver: if running {
                        reported_driver(output_on(h, "podman"@, podman_driver_args()))
                    } else {
                        guessed_driver(h, root)
                    },
                    can_read: readable_on(h, root),
                    is_running: running,
                },
            )
        },
        _ => None,
    }
}

/// The questions that detecting Podman puts to host `h` once its storage
/// root is settled, in order.
pub open spec fn podman_store_plan(h: Host, root: Seq<char>) -> Seq<Question> {
    read_access_plan(h, root) + if h.succeeds("podman"@, info_args()) {
        seq![Question::Output("podman"@, podman_driver_args())]
    } else {
        guess_plan(h, root)
    }
}

/// The questions that detecting Podman puts to host `h`, in order. The home
/// directory is asked for only where the system-wide root cannot be read.
pub open spec fn podman_plan(h: Host) -> Seq<Question> {
    find_binary_plan(h, "podman"@) + if binary_on(h, "podman"@) is Some {
        seq![Question::Succeeds("podman"@, info_args())] + (read_access_plan(
            h,
            "/var/lib/containers/storage"@,
        ) + (if readable_on(h, "/var/lib/containers/storage"@) {
            Seq::empty()
        } else {
            seq![Question::Env("HOME"@)]
        } + match podman_root_on(h) {
            Some(root) => podman_store_plan(h, root),
            None => Seq::empty(),
        }))
    } else {
        Seq::empty()
    }
}

/// Detects Podman.
pub fn detect_podman(known: &Knowledge) -> (found: Result<Option<RuntimeInfo>, Query>)
    ensures
        forall|h: Host| #[trigger]
            known.agrees(h) ==> match found {
                Ok(info) => opt_facts(info) == podman_on(h) && covers(known@, podman_plan(h)),
                Err(q) => first_open(known@, podman_plan(h), q@),
            },
{
    let binary_path = match find_binary(known, "podman")? {
        Some(path) => path,
        None => {
            return Ok(None);
        },
    };
    let args = ["info"];
    assert(words(args@) =~= info_args());
    let is_running = check_daemon(known, "podman", &args)?;
    // The system-wide store where it can be read, else the user's own.
    let storage_root = if check_read_access(known, "/var/lib/containers/storage")? {
        "/var/lib/containers/storage".to_owned()
    } else {
        match known.text(Query::Env("HOME".to_owned()))? {
            Some(home) => join_path(home.as_str(), ".local/share/containers/storage"),
            None => {
                return Ok(None);
            },
        }
    };
    let can_read = check_read_access(known, storage_root.as_str())?;
    let storage_driver = if is_running {
        let query = ["info", "--format", "{{.Store.GraphDriverName}}"];
        assert(words(query@) =~= podman_driver_args());
        match command_output(known, "podman", &query)? {
            Some(name) => parse_storage_driver(name.as_str()),
            None => StorageDriver::Unknown,
        }
    } else {
        guess_storage_driver(known, storage_root.as_str())?
    };
    let info = RuntimeInfo {
        kind: RuntimeKind::Podman,
        binary_path,
        storage_root,
        storage_driver,
        can_read,
        is_running,
    };
    Ok(Some(info))
}

/// The arguments with which containerd's client is asked whether the daemon
/// is alive.
pub open spec fn version_args() -> Seq<Seq<char>> {
    seq!["version"@]
}

/// What a probe says of containerd on host `h`; nothing where the `ctr`
/// program is not on the search path. The driver is taken to be `Overlay2`
/// without looking.
pub open spec fn containerd_on(h: Host) -> Option<RuntimeFacts> {
    match binary_on(h, "ctr"@) {
        Some(binary) => Some(
            RuntimeFacts {
                kind: RuntimeKind::Containerd,
                binary_path: binary,
                storage_root: "/var/lib/containerd"@,
                storage_driver: StorageDriver::Overlay2,
                can_read: readable_on(h, "/var/lib/containerd"@),
                is_running: h.succeeds("ctr"@, version_args()),
            },
        ),
        None => None,
    }
}

/// The questions that detecting containerd puts to host `h`, in order.
pub open spec fn containerd_plan(h: Host) -> Seq<Question> {
    find_binary_plan(h, "ctr"@) + if binary_on(h, "ctr"@) is Some {
        seq![Question::Succeeds("ctr"@, version_args())] + read_access_plan(
            h,
            "/var/lib/containerd"@,
        )
    } else {
        Seq::empty()
    }
}

/// Detects containerd.
pub fn detect_containerd(known: &Knowledge) -> (found: Result<Option<RuntimeInfo>, Query>)
    ensures
        forall|h: Host| #[trigger]
            known.agrees(h) ==> match found {
                Ok(info) => opt_facts(info) == containerd_on(h) && covers(
                    known@,
                    containerd_plan(h),
                ),
                Err(q) => first_open(known@, containerd_plan(h), q@),
            },
{
    let binary_path = match find_binary(known, "ctr")? {
        Some(path) => path,
        None => {
            return Ok(None);
        },
    };
    let args = ["version"];
    assert(words(args@) =~= version_args());
    let is_running = check_daemon(known, "ctr", &args)?;
    let storage_root = "/var/lib/containerd".to_owned();
    let can_read = check_read_access(known, storage_root.as_str())?;
    let info = RuntimeInfo {
        kind: RuntimeKind::Containerd,
        binary_path,
        storage_root,
        storage_driver: StorageDriver::Overlay2,
        can_read,
        is_running,
    };
    Ok(Some(info))
}

/// What a probe of the Linux host `h` finds: what each detector says, in the
/// order Docker, Podman, containerd.
pub open spec fn probe_on(h: Host) -> ProbeFacts {
    collected(docker_on(h), podman_on(h), containerd_on(h))
}

/// The questions that probing the Linux host `h` puts to it, in order. Every
/// detector runs, whatever the others found.
pub open spec fn probe_plan(h: Host) -> Seq<Question> {
    docker_plan(h) + (podman_plan(h) + containerd_plan(h))
}

/// Probes a Linux host for Docker, Podman and containerd, in that order.
///
/// Returns the result where `known` holds every answer that the detectors
/// take, and else the first question that is still open.
pub fn probe(known: &Knowledge) -> (result: Result<ProbeResult, Query>)
    ensures
        forall|h: Host| #[trigger]
            known.agrees(h) ==> match result {
                Ok(found) => found@ == probe_on(h) && covers(known@, probe_plan(h)),
                Err(q) => first_open(known@, probe_plan(h), q@),
            },
        result matches Ok(found) ==> found.well_formed(),
{
    let docker = detect_docker(known)?;
    let podman = detect_podman(known)?;
    let containerd = detect_containerd(known)?;
    Ok(collect(docker, podman, containerd))
}

} // verus!
