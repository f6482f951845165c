//! The text in which a probe result is shown to the user.

use crate::probe::host::texts;
use crate::probe::{ProbeFacts, ProbeResult, RuntimeFacts, RuntimeInfo};
use vstd::prelude::*;
use vstd::string::StringExecFns;

verus! {

/// The lines that describe one runtime: its kind, marked where it is the
/// default, then its binary, storage root, storage driver, liveness and
/// readability, and an empty line.
pub open spec fn section(rt: RuntimeFacts, is_default: bool) -> Seq<Seq<char>> {
    seq![
        "  "@ + rt.kind.label() + if is_default {
            " (default)"@
        } else {
            ""@
        },
        "    Binary:           "@ + rt.binary_path,
        "    Storage root:     "@ + rt.storage_root,
        "    Storage driver:   "@ + rt.storage_driver.label(),
        "    Daemon running:   "@ + if rt.is_running {
            "yes"@
        } else {
            "no"@
        },
        "    Storage readable: "@ + if rt.can_read {
            "yes"@
        } else {
            "no (run as root)"@
        },
        ""@,
    ]
}

/// The sections of the first `upto` runtimes of a probe result, one after
/// the other.
pub open spec fn sections(found: ProbeFacts, upto: int) -> Seq<Seq<char>>
    decreases upto,
{
    if upto <= 0 {
        Seq::empty()
    } else {
        sections(found, upto - 1) + section(
            found.runtimes[upto - 1],
            found.default == Some((upto - 1) as usize),
        )
    }
}

/// The lines in which a probe result is shown: one line where nothing was
/// detected, and else a heading, an empty line, and a section for each
/// runtime in detection order.
pub open spec fn report_lines(found: ProbeFacts) -> Seq<Seq<char>> {
    if found.runtimes.len() == 0 {
        seq!["No container runtimes detected."@]
    } else {
        seq!["Detected container runtimes:"@, ""@] + sections(found, found.runtimes.len() as int)
    }
}

/// Appends the section of one runtime to `lines`.
fn push_section(lines: &mut Vec<String>, rt: &RuntimeInfo, is_default: bool)
    ensures
        texts(final(lines)@) == texts(old(lines)@) + section(rt@, is_default),
{
    let mut title = "  ".to_owned();
    title.append(rt.kind.name());
    title.append(if is_default {
        " (default)"
    } else {
        ""
    });
    lines.push(title);
    let mut binary = "    Binary:           ".to_owned();
    binary.append(rt.binary_path.as_str());
    lines.push(binary);
    let mut root = "    Storage root:     ".to_owned();
    root.append(rt.storage_root.as_str());
    lines.push(root);
    let mut driver = "    Storage driver:   ".to_owned();
    driver.append(rt.storage_driver.name());
    lines.push(driver);
    let mut running = "    Daemon running:   ".to_owned();
    running.append(if rt.is_running {
        "yes"
    } else {
        "no"
    });
    lines.push(running);
    let mut readable = "    Storage readable: ".to_owned();
    readable.append(if rt.can_read {
        "yes"
    } else {
        "no (run as root)"
    });
    lines.push(readable);
    lines.push("".to_owned());
}

/// The lines in which a probe result is shown to the user.
pub fn report(found: &ProbeResult) -> (lines: Vec<String>)
    ensures
        texts(lines@) == report_lines(found@),
{
    let mut lines: Vec<String> = Vec::new();
    if found.runtimes.is_empty() {
        lines.push("No container runtimes detected.".to_owned());
        return lines;
    }
    lines.push("Detected container runtimes:".to_owned());
    lines.push("".to_owned());
    let ghost heading = texts(lines@);
    let mut i: usize = 0;
    while i < found.runtimes.len()
        invariant
            i <= found.runtimes.len(),
            heading == seq!["Detected container runtimes:"@, ""@],
            texts(lines@) == heading + sections(found@, i as int),
        decreases found.runtimes.len() - i,
    {
        let is_default = match found.default {
            Some(at) => at == i,
            None => false,
        };
        push_section(&mut lines, &found.runtimes[i], is_default);
        i += 1;
    }
    lines
}

} // verus!
