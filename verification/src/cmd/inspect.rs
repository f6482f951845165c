//! Access to a runtime's storage before an image is inspected: whether it
//! can be read as it is, and what to do where it cannot.
//!
//! One decision is taken per run. `evaluate` finds the storage readable
//! (`Satisfied`) or leaves the choice to the user (`NeedsDecision`); `decide`
//! takes the user's answer to `Escalating`, where the program is run again
//! with more rights, or to `Declined`, where the command fails. For a caller
//! that reads through the runtime's own interface, or that has no default
//! runtime, there is nothing to decide (`Bypassed`).

use crate::probe::host::texts;
use crate::probe::{ProbeFacts, ProbeResult, RuntimeFacts, RuntimeInfo};
use crate::text::{lowercase_of, same_text, to_lowercase, trim, trimmed_of};
use vstd::prelude::*;
use vstd::string::StringExecFns;

verus! {

/// Where the decision on direct storage access stands.
#[derive(Clone, Copy, Debug, PartialEq, Eq, Structural)]
pub enum Access {
    /// No decision is called for: storage is not read directly, or no
    /// runtime is selected.
    Bypassed,
    /// The storage of the default runtime can be read as it is.
    Satisfied,
    /// The storage of the default runtime cannot be read: the user has to
    /// choose between more rights and the slower path.
    NeedsDecision,
    /// The user chose to run the program again with more rights.
    Escalating,
    /// The user chose not to: the command fails.
    Declined,
}

/// Where the decision stands for a caller that wants the runtime's own
/// interface (`use_oci`) or direct access (otherwise), given what the probe
/// found.
pub open spec fn access_for(use_oci: bool, found: ProbeFacts) -> Access {
    if use_oci {
        Access::Bypassed
    } else {
        match found.default {
            None => Access::Bypassed,
            Some(at) => if found.runtimes[at as int].can_read {
                Access::Satisfied
            } else {
                Access::NeedsDecision
            },
        }
    }
}

/// Decides whether the storage of the default runtime can be read directly.
///
/// The user has to be asked only where the result is `NeedsDecision`.
pub fn evaluate(use_oci: bool, found: &ProbeResult) -> (access: Access)
    requires
        found.well_formed(),
    ensures
        access == access_for(use_oci, found@),
{
    if use_oci {
        return Access::Bypassed;
    }
    match found.default {
        None => Access::Bypassed,
        Some(at) => if found.runtimes[at].can_read {
            Access::Satisfied
        } else {
            Access::NeedsDecision
        },
    }
}

/// A caller that asks for the runtime's own interface is never sent to the
/// user, whatever the probe found: not even where the default runtime's
/// storage cannot be read.
pub proof fn lemma_api_path_bypasses_prompt(found: ProbeFacts)
    ensures
        access_for(true, found) == Access::Bypassed,
{
}

/// The user is asked exactly where direct access is wanted and the default
/// runtime's storage cannot be read.
pub proof fn lemma_prompt_only_when_unreadable(use_oci: bool, found: ProbeFacts)
    ensures
        access_for(use_oci, found) == Access::NeedsDecision <==> !use_oci && found.default is Some
            && !found.runtimes[found.default->0 as int].can_read,
{
}

/// Whether an answer, already trimmed and in lowercase, says yes. No answer
/// at all says yes.
pub open spec fn accepts(normalized: Seq<char>) -> bool {
    normalized.len() == 0 || normalized == "y"@ || normalized == "yes"@
}

/// The answers that say yes are exactly the empty one, `y` and `yes`.
pub proof fn lemma_acceptance_set(normalized: Seq<char>)
    ensures
        accepts(normalized) <==> normalized =~= Seq::<char>::empty() || normalized =~= seq!['y']
            || normalized =~= seq!['y', 'e', 's'],
{
    reveal_strlit("y");
    reveal_strlit("yes");
    assert("y"@ =~= seq!['y']);
    assert("yes"@ =~= seq!['y', 'e', 's']);
}

/// `no`, `n` and `quit` are among the answers that decline.
pub proof fn lemma_refusals_decline()
    ensures
        !accepts("no"@),
        !accepts("n"@),
        !accepts("quit"@),
{
    reveal_strlit("no");
    reveal_strlit("n");
    reveal_strlit("quit");
    lemma_acceptance_set("no"@);
    lemma_acceptance_set("n"@);
    lemma_acceptance_set("quit"@);
    assert("n"@[0] == 'n');
}

/// Where the user's answer, already trimmed and in lowercase, leads.
pub open spec fn decision_for(normalized: Seq<char>) -> Access {
    if accepts(normalized) {
        Access::Escalating
    } else {
        Access::Declined
    }
}

/// Whether an answer, already trimmed and in lowercase, says yes.
pub fn is_acceptance(normalized: &str) -> (yes: bool)
    ensures
        yes == accepts(normalized@),
{
    normalized.unicode_len() == 0 || same_text(normalized, "y") || same_text(normalized, "yes")
}

/// Takes the user's answer to the question whether to run again with more
/// rights. The answer is trimmed and put in lowercase first; nothing, `y`
/// and `yes` accept, and everything else declines.
pub fn decide(answer: &str) -> (access: Access)
    ensures
        access == decision_for(lowercase_of(trimmed_of(answer@))),
        access == Access::Escalating || access == Access::Declined,
{
    let normalized = to_lowercase(trim(answer));
    if is_acceptance(normalized.as_str()) {
        Access::Escalating
    } else {
        Access::Declined
    }
}

/// The status with which the program ends after the run with more rights:
/// that of the child, or 1 where the child did not exit with a status of
/// its own.
pub open spec fn exit_status_for(child: Option<i32>) -> i32 {
    match child {
        Some(code) => code,
        None => 1,
    }
}

/// The status with which the program ends after the run with more rights.
pub fn exit_status(child: Option<i32>) -> (status: i32)
    ensures
        status == exit_status_for(child),
{
    match child {
        Some(code) => code,
        None => 1,
    }
}

/// How a piece of a message is to stand out on the terminal.
#[derive(Clone, Copy, Debug, PartialEq, Eq, Structural)]
pub enum Emphasis {
    /// As it is.
    Plain,
    /// The mark that opens a warning.
    Warning,
    /// A path or a command that the sentence is about.
    Strong,
    /// The option that offers the other way.
    Choice,
    /// The answers that the question takes.
    Hint,
}

/// One piece of a message.
#[derive(Clone, Debug, PartialEq, Eq)]
pub struct Span {
    pub text: String,
    pub emphasis: Emphasis,
}

/// A `Span` with its text as a sequence of characters.
pub struct Piece {
    pub text: Seq<char>,
    pub emphasis: Emphasis,
}

impl View for Span {
    type V = Piece;

    open spec fn view(&self) -> Piece {
        Piece { text: self.text@, emphasis: self.emphasis }
    }
}

/// The pieces of a list of spans.
pub open spec fn pieces(spans: Seq<Span>) -> Seq<Piece> {
    Seq::new(spans.len(), |i: int| spans[i]@)
}

/// The text that a list of pieces spells, all emphasis left aside.
pub open spec fn plain(message: Seq<Piece>) -> Seq<char>
    decreases message.len(),
{
    if message.len() == 0 {
        Seq::empty()
    } else {
        plain(message.drop_last()) + message.last().text
    }
}

/// What the user is told where the storage of runtime `rt` cannot be read:
/// which path is out of reach, the two ways on, and the question, which
/// leans towards yes.
pub open spec fn notice_for(rt: RuntimeFacts) -> Seq<Piece> {
    seq![
        Piece { text: "!"@, emphasis: Emphasis::Warning },
        Piece { text: " Direct layer access reads from "@, emphasis: Emphasis::Plain },
        Piece { text: rt.storage_root, emphasis: Emphasis::Strong },
        Piece {
            text: " which is owned by root.\n  peel needs to re-run with "@,
            emphasis: Emphasis::Plain,
        },
        Piece { text: "sudo"@, emphasis: Emphasis::Strong },
        Piece {
            text: " to read layers directly.\n\n  Alternatively, run with "@,
            emphasis: Emphasis::Plain,
        },
        Piece { text: "--use-oci"@, emphasis: Emphasis::Choice },
        Piece { text: " to read layers through the "@, emphasis: Emphasis::Plain },
        Piece { text: rt.kind.label(), emphasis: Emphasis::Plain },
        Piece {
            text: " API\n  (no root needed, but slower).\n\nRe-run with sudo? "@,
            emphasis: Emphasis::Plain,
        },
        Piece { text: "[Y/n]"@, emphasis: Emphasis::Hint },
        Piece { text: " "@, emphasis: Emphasis::Plain },
    ]
}

/// One piece of a message.
fn span(text: &str, emphasis: Emphasis) -> (piece: Span)
    ensures
        piece@ == (Piece { text: text@, emphasis }),
{
    Span { text: text.to_owned(), emphasis }
}

/// What the user is told where the storage of runtime `rt` cannot be read.
pub fn notice(rt: &RuntimeInfo) -> (message: Vec<Span>)
    ensures
        pieces(message@) == notice_for(rt@),
{
    vec![
        span("!", Emphasis::Warning),
        span(" Direct layer access reads from ", Emphasis::Plain),
        span(rt.storage_root.as_str(), Emphasis::Strong),
        span(" which is owned by root.\n  peel needs to re-run with ", Emphasis::Plain),
        span("sudo", Emphasis::Strong),
        span(" to read layers directly.\n\n  Alternatively, run with ", Emphasis::Plain),
        span("--use-oci", Emphasis::Choice),
        span(" to read layers through the ", Emphasis::Plain),
        span(rt.kind.name(), Emphasis::Plain),
        span(" API\n  (no root needed, but slower).\n\nRe-run with sudo? ", Emphasis::Plain),
        span("[Y/n]", Emphasis::Hint),
        span(" ", Emphasis::Plain),
    ]
}

/// The text of a message, all emphasis left aside.
pub fn plain_text(message: &Vec<Span>) -> (text: String)
    ensures
        text@ == plain(pieces(message@)),
{
    let mut text = String::new();
    let mut i: usize = 0;
    while i < message.len()
        invariant
            i <= message.len(),
            text@ == plain(pieces(message@).take(i as int)),
        decreases message.len() - i,
    {
        assert(pieces(message@).take(i + 1).drop_last() =~= pieces(message@).take(i as int));
        text.append(message[i].text.as_str());
        i += 1;
    }
    assert(pieces(message@).take(message.len() as int) =~= pieces(message@));
    text
}

/// What the user is told after declining: both ways on.
pub fn declined_message() -> (text: &'static str)
    ensures
        text@ == "Cannot read storage without root. Re-run with sudo or use --use-oci."@,
{
    "Cannot read storage without root. Re-run with sudo or use --use-oci."
}

/// The command line that runs the program again with more rights: `sudo`,
/// the program's own path, and the arguments it was started with. `argv`
/// is the command line of this run, the program's name first.
pub open spec fn relaunch_line(exe: Seq<char>, argv: Seq<Seq<char>>) -> Seq<Seq<char>> {
    seq!["sudo"@, exe] + if argv.len() > 0 {
        argv.skip(1)
    } else {
        Seq::empty()
    }
}

/// The command line that runs the program again with more rights.
pub fn relaunch_command(exe: &str, argv: &Vec<String>) -> (line: Vec<String>)
    ensures
        texts(line@) == relaunch_line(exe@, texts(argv@)),
{
    let mut line: Vec<String> = Vec::new();
    line.push("sudo".to_owned());
    line.push(exe.to_owned());
    let mut i: usize = 1;
    while i < argv.len()
        invariant
            1 <= i,
            argv.len() > 0 ==> i <= argv.len(),
            line.len() == if argv.len() > 0 {
                i + 1
            } else {
                2
            },
            line@[0]@ == "sudo"@,
            line@[1]@ == exe@,
            forall|j: int| 1 <= j < i && j < argv.len() ==> line@[j + 1]@ == argv@[j]@,
        decreases argv.len() - i,
    {
        line.push(argv[i].clone());
        i += 1;
    }
    line
}

/// What inspecting `image` prints, line by line: one line of JSON where
/// machine-readable output is asked for, and two lines of text otherwise.
/// No layer is listed.
pub open spec fn summary_lines(image: Seq<char>, json: bool) -> Seq<Seq<char>> {
    if json {
        seq!["{\"image\": \""@ + image + "\", \"layers\": []}"@]
    } else {
        seq!["Inspecting image: "@ + image, "(not yet implemented)"@]
    }
}

/// What inspecting `image` prints, line by line.
pub fn summary(image: &str, json: bool) -> (lines: Vec<String>)
    ensures
        texts(lines@) == summary_lines(image@, json),
{
    let mut lines: Vec<String> = Vec::new();
    if json {
        let mut line = "{\"image\": \"".to_owned();
        line.append(image);
        line.append("\", \"layers\": []}");
        lines.push(line);
    } else {
        let mut line = "Inspecting image: ".to_owned();
        line.append(image);
        lines.push(line);
        lines.push("(not yet implemented)".to_owned());
    }
    lines
}

} // verus!
