use peel::cmd::inspect::{
    decide, declined_message, evaluate, exit_status, is_acceptance, notice, plain_text,
    relaunch_command, summary, Access, Emphasis, Span,
};
use peel::probe::{ProbeResult, RuntimeInfo, RuntimeKind, StorageDriver};

fn runtime(kind: RuntimeKind, storage_root: &str, can_read: bool) -> RuntimeInfo {
    RuntimeInfo {
        kind,
        binary_path: "/usr/bin/x".to_string(),
        storage_root: storage_root.to_string(),
        storage_driver: StorageDriver::Overlay2,
        can_read,
        is_running: true,
    }
}

fn locked_docker() -> ProbeResult {
    ProbeResult {
        runtimes: vec![runtime(RuntimeKind::Docker, "/var/lib/docker", false)],
        default: Some(0),
    }
}

#[test]
fn readable_storage_is_satisfied() {
    let found = ProbeResult {
        runtimes: vec![runtime(RuntimeKind::Docker, "/var/lib/docker", true)],
        default: Some(0),
    };
    assert_eq!(evaluate(false, &found), Access::Satisfied);
}

#[test]
fn unreadable_storage_needs_a_decision() {
    assert_eq!(evaluate(false, &locked_docker()), Access::NeedsDecision);
}

#[test]
fn the_default_runtime_decides_not_the_first() {
    let found = ProbeResult {
        runtimes: vec![
            runtime(RuntimeKind::Docker, "/var/lib/docker", false),
            runtime(RuntimeKind::Podman, "/home/kim/.local/share/containers/storage", true),
        ],
        default: Some(1),
    };
    assert_eq!(evaluate(false, &found), Access::Satisfied);
}

#[test]
fn the_api_path_never_prompts() {
    assert_eq!(evaluate(true, &locked_docker()), Access::Bypassed);
    assert_eq!(evaluate(true, &ProbeResult { runtimes: vec![], default: None }), Access::Bypassed);
}

#[test]
fn no_default_runtime_means_no_prompt() {
    assert_eq!(evaluate(false, &ProbeResult { runtimes: vec![], default: None }), Access::Bypassed);
}

#[test]
fn empty_y_and_yes_accept() {
    for answer in ["", "y", "yes", "Y", "YES", "Yes", "yEs", "\n", "  y  ", "\tyes\r\n", " \n"] {
        assert_eq!(decide(answer), Access::Escalating, "{answer:?}");
    }
}

#[test]
fn everything_else_declines() {
    for answer in ["no", "N", "n", "quit", "ye", "yess", "y es", "yes!", "ok", "1", "да"] {
        assert_eq!(decide(answer), Access::Declined, "{answer:?}");
    }
}

#[test]
fn acceptance_of_a_normalized_answer_is_exact() {
    assert!(is_acceptance(""));
    assert!(is_acceptance("y"));
    assert!(is_acceptance("yes"));
    assert!(!is_acceptance("Y"));
    assert!(!is_acceptance(" "));
    assert!(!is_acceptance("yes "));
    assert!(!is_acceptance("no"));
}

#[test]
fn the_exit_status_is_the_childs_or_one() {
    assert_eq!(exit_status(Some(0)), 0);
    assert_eq!(exit_status(Some(3)), 3);
    assert_eq!(exit_status(Some(-1)), -1);
    assert_eq!(exit_status(None), 1);
}

#[test]
fn the_notice_names_the_path_and_both_ways_on() {
    let rt = runtime(RuntimeKind::Containerd, "/var/lib/containerd", false);
    assert_eq!(
        plain_text(&notice(&rt)),
        "! Direct layer access reads from /var/lib/containerd which is owned by root.\n  \
         peel needs to re-run with sudo to read layers directly.\n\n  \
         Alternatively, run with --use-oci to read layers through the containerd API\n  \
         (no root needed, but slower).\n\nRe-run with sudo? [Y/n] "
    );
}

#[test]
fn the_notice_marks_what_stands_out() {
    let rt = runtime(RuntimeKind::Docker, "/var/lib/docker", false);
    let marked: Vec<(String, Emphasis)> = notice(&rt)
        .into_iter()
        .filter(|span| span.emphasis != Emphasis::Plain)
        .map(|span| (span.text, span.emphasis))
        .collect();
    assert_eq!(
        marked,
        vec![
            ("!".to_string(), Emphasis::Warning),
            ("/var/lib/docker".to_string(), Emphasis::Strong),
            ("sudo".to_string(), Emphasis::Strong),
            ("--use-oci".to_string(), Emphasis::Choice),
            ("[Y/n]".to_string(), Emphasis::Hint),
        ]
    );
}

#[test]
fn plain_text_spells_the_spans_in_order() {
    let message = vec![
        Span { text: "a".to_string(), emphasis: Emphasis::Strong },
        Span { text: "".to_string(), emphasis: Emphasis::Plain },
        Span { text: "bc".to_string(), emphasis: Emphasis::Hint },
    ];
    assert_eq!(plain_text(&message), "abc");
    assert_eq!(plain_text(&Vec::new()), "");
}

#[test]
fn the_declined_message_names_both_ways_on() {
    assert_eq!(
        declined_message(),
        "Cannot read storage without root. Re-run with sudo or use --use-oci."
    );
}

#[test]
fn the_relaunch_keeps_the_arguments() {
    let argv: Vec<String> =
        ["peel", "--json", "inspect", "alpine:3"].iter().map(|a| a.to_string()).collect();
    assert_eq!(
        relaunch_command("/usr/local/bin/peel", &argv),
        vec!["sudo", "/usr/local/bin/peel", "--json", "inspect", "alpine:3"]
    );
    assert_eq!(
        relaunch_command("/usr/local/bin/peel", &argv[..1].to_vec()),
        vec!["sudo", "/usr/local/bin/peel"]
    );
    assert_eq!(relaunch_command("/bin/peel", &Vec::new()), vec!["sudo", "/bin/peel"]);
}

#[test]
fn the_summary_has_one_line_of_json_or_two_of_text() {
    assert_eq!(summary("alpine:3", true), vec!["{\"image\": \"alpine:3\", \"layers\": []}"]);
    assert_eq!(
        summary("alpine:3", false),
        vec!["Inspecting image: alpine:3", "(not yet implemented)"]
    );
}
