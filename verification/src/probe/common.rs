//! The elementary observations a detector makes of a host: where a program
//! lies on the search path, whether a daemon answers, what a command prints,
//! whether a directory can be read.
//!
//! Each function answers from the `Knowledge` it is given. Where an answer it
//! needs is not on record it returns, as its error, the `Query` to put to the
//! host next.

use crate::probe::host::{texts, Host, Knowledge, Query, Question};
use crate::probe::plan::{covers, first_open, group_plans};
use crate::text::{join_path, joined_path, opt_text, trim, trimmed_of};
use vstd::prelude::*;

verus! {

broadcast use group_plans;

/// The directories that a search path lists: its fields between colons, in
/// order. A path without a colon is one field; an empty path is one empty
/// field.
pub open spec fn search_path_dirs(path: Seq<char>) -> Seq<Seq<char>>
    decreases path.len(),
{
    if path.len() == 0 {
        seq![Seq::<char>::empty()]
    } else {
        let before = search_path_dirs(path.drop_last());
        if path.last() == ':' {
            before.push(Seq::<char>::empty())
        } else {
            before.drop_last().push(before.last().push(path.last()))
        }
    }
}

/// The text made of `fields` with a colon between each two of them.
pub open spec fn colon_joined(fields: Seq<Seq<char>>) -> Seq<char>
    decreases fields.len(),
{
    if fields.len() == 0 {
        Seq::empty()
    } else if fields.len() == 1 {
        fields[0]
    } else {
        colon_joined(fields.drop_last()) + seq![':'] + fields.last()
    }
}

/// The directories of a search path are what stands between its colons:
/// there is at least one, none of them holds a colon, and with colons put
/// back between them they make up the path again.
pub proof fn lemma_search_path_dirs(path: Seq<char>)
    ensures
        search_path_dirs(path).len() >= 1,
        forall|i: int, j: int|
            0 <= i < search_path_dirs(path).len() && 0 <= j < search_path_dirs(path)[i].len()
                ==> #[trigger] search_path_dirs(path)[i][j] != ':',
        colon_joined(search_path_dirs(path)) == path,
    decreases path.len(),
{
    if path.len() > 0 {
        let dirs = search_path_dirs(path);
        let before = search_path_dirs(path.drop_last());
        lemma_search_path_dirs(path.drop_last());
        if path.last() == ':' {
            assert(dirs.drop_last() =~= before);
        } else {
            assert(dirs.drop_last() =~= before.drop_last());
            if before.len() > 1 {
                assert(colon_joined(dirs) =~= (colon_joined(before.drop_last()) + seq![':']
                    + before.last()).push(path.last()));
            }
        }
    }
}

/// Splits a search path into its directories.
pub fn split_search_path(path: &str) -> (dirs: Vec<String>)
    ensures
        texts(dirs@) == search_path_dirs(path@),
{
    let n = path.unicode_len();
    let mut dirs: Vec<String> = Vec::new();
    let mut start: usize = 0;
    let mut i: usize = 0;
    assert(path@.take(0) =~= Seq::<char>::empty());
    for c in it: path.chars()
        invariant
            i == it.index(),
            it.seq() == path@,
            n == path@.len(),
            start <= i <= n,
            search_path_dirs(path@.take(i as int)) == texts(dirs@).push(
                path@.subrange(start as int, i as int),
            ),
    {
        let ghost before = search_path_dirs(path@.take(i as int));
        let ghost upto = path@.take(i + 1);
        assert(upto.drop_last() =~= path@.take(i as int));
        if c == ':' {
            let field = path.substring_char(start, i).to_owned();
            dirs.push(field);
            start = i + 1;
            assert(path@.subrange(start as int, start as int) =~= Seq::<char>::empty());
        } else {
            assert(before.last().push(c) =~= path@.subrange(start as int, i + 1));
        }
        i += 1;
    }
    assert(path@.take(n as int) =~= path@);
    let field = path.substring_char(start, n).to_owned();
    dirs.push(field);
    dirs
}

/// The place of the first of `questions`, from place `from` on, to which host
/// `h` says yes.
pub open spec fn first_yes(h: Host, questions: Seq<Question>, from: int) -> Option<int>
    decreases questions.len() - from,
{
    if from < 0 || from >= questions.len() {
        None
    } else if h.reply(questions[from]).flag() {
        Some(from)
    } else {
        first_yes(h, questions, from + 1)
    }
}

/// The questions that looking for the first yes among `questions`, from
/// place `from` on, puts to host `h`, in order: each in turn, and none after
/// the first to which the host says yes.
pub open spec fn scan_plan(h: Host, questions: Seq<Question>, from: int) -> Seq<Question>
    decreases questions.len() - from,
{
    if from < 0 || from >= questions.len() {
        Seq::empty()
    } else {
        seq![questions[from]] + if h.reply(questions[from]).flag() {
            Seq::empty()
        } else {
            scan_plan(h, questions, from + 1)
        }
    }
}

/// The first yes is where the host says yes and has said no to every
/// question before; there is none where it says no to all.
pub proof fn lemma_first_yes(h: Host, questions: Seq<Question>, from: int)
    requires
        0 <= from,
    ensures
        match first_yes(h, questions, from) {
            Some(at) => from <= at < questions.len() && h.reply(questions[at]).flag()
                && forall|j: int| from <= j < at ==> !h.reply(#[trigger] questions[j]).flag(),
            None => forall|j: int|
                from <= j < questions.len() ==> !h.reply(#[trigger] questions[j]).flag(),
        },
    decreases questions.len() - from,
{
    if from < questions.len() && !h.reply(questions[from]).flag() {
        lemma_first_yes(h, questions, from + 1);
    }
}

/// A scan that has met no yes from place `from` up to `upto` goes on from
/// `upto` as it would from `from`.
proof fn lemma_scan_continues(
    h: Host,
    known: &Knowledge,
    questions: Seq<Question>,
    from: int,
    upto: int,
)
    requires
        known.agrees(h),
        0 <= from <= upto <= questions.len(),
        forall|j: int|
            from <= j < upto ==> known.knows(#[trigger] questions[j])
                && !known@[questions[j]].flag(),
    ensures
        first_yes(h, questions, from) == first_yes(h, questions, upto),
        covers(known@, scan_plan(h, questions, from)) <==> covers(
            known@,
            scan_plan(h, questions, upto),
        ),
        forall|q: Question|
            first_open(known@, scan_plan(h, questions, from), q) <==> first_open(
                known@,
                scan_plan(h, questions, upto),
                q,
            ),
    decreases upto - from,
{
    if from < upto {
        assert(known.knows(questions[from]) && !known@[questions[from]].flag());
        lemma_scan_continues(h, known, questions, from + 1, upto);
    }
}

/// The questions of a list of queries.
pub open spec fn questions_of(queries: Seq<Query>) -> Seq<Question> {
    Seq::new(queries.len(), |i: int| queries[i]@)
}

/// Finds the first of `queries` that is answered with yes, asking them in
/// order and none after the first yes.
///
/// Returns the place of that query, or that there is none, where `known`
/// answers every question of the scan; else the first question that is open.
pub fn first_match(known: &Knowledge, queries: &Vec<Query>) -> (found: Result<Option<usize>, Query>)
    ensures
        found matches Ok(Some(at)) ==> at < queries.len(),
        forall|h: Host| #[trigger]
            known.agrees(h) ==> match found {
                Ok(Some(at)) => first_yes(h, questions_of(queries@), 0) == Some(at as int)
                    && covers(known@, scan_plan(h, questions_of(queries@), 0)),
                Ok(None) => first_yes(h, questions_of(queries@), 0) is None && covers(
                    known@,
                    scan_plan(h, questions_of(queries@), 0),
                ),
                Err(q) => first_open(known@, scan_plan(h, questions_of(queries@), 0), q@),
            },
{
    let ghost questions = questions_of(queries@);
    let mut i: usize = 0;
    while i < queries.len()
        invariant
            i <= queries.len(),
            questions == questions_of(queries@),
            forall|j: int|
                0 <= j < i ==> known.knows(#[trigger] questions[j]) && !known@[questions[j]].flag(),
        decreases queries.len() - i,
    {
        assert(questions[i as int] == queries@[i as int]@);
        match known.flag(queries[i].duplicate()) {
            Ok(true) => {
                assert forall|h: Host| #[trigger] known.agrees(h) implies first_yes(
                    h,
                    questions,
                    0,
                ) == Some(i as int) && covers(known@, scan_plan(h, questions, 0)) by {
                    lemma_scan_continues(h, known, questions, 0, i as int);
                }
                return Ok(Some(i));
            },
            Ok(false) => {},
            Err(q) => {
                assert forall|h: Host| #[trigger] known.agrees(h) implies first_open(
                    known@,
                    scan_plan(h, questions, 0),
                    q@,
                ) by {
                    lemma_scan_continues(h, known, questions, 0, i as int);
                }
                return Err(q);
            },
        }
        i += 1;
    }
    assert forall|h: Host| #[trigger] known.agrees(h) implies first_yes(h, questions, 0) is None
        && covers(known@, scan_plan(h, questions, 0)) by {
        lemma_scan_continues(h, known, questions, 0, queries.len() as int);
    }
    Ok(None)
}

/// The questions whether each of `paths` is a regular file.
pub open spec fn file_questions(paths: Seq<Seq<char>>) -> Seq<Question> {
    Seq::new(paths.len(), |i: int| Question::IsFile(paths[i]))
}

/// The questions whether each of `paths` is a directory.
pub open spec fn dir_questions(paths: Seq<Seq<char>>) -> Seq<Question> {
    Seq::new(paths.len(), |i: int| Question::IsDir(paths[i]))
}

/// Finds the first of `paths` that is a regular file, asking of each in
/// order and of none after the first that is one.
pub fn first_file_among(known: &Knowledge, paths: &Vec<String>) -> (found: Result<
    Option<usize>,
    Query,
>)
    ensures
        found matches Ok(Some(at)) ==> at < paths.len(),
        forall|h: Host| #[trigger]
            known.agrees(h) ==> match found {
                Ok(Some(at)) => first_yes(h, file_questions(texts(paths@)), 0) == Some(at as int)
                    && covers(known@, scan_plan(h, file_questions(texts(paths@)), 0)),
                Ok(None) => first_yes(h, file_questions(texts(paths@)), 0) is None && covers(
                    known@,
                    scan_plan(h, file_questions(texts(paths@)), 0),
                ),
                Err(q) => first_open(known@, scan_plan(h, file_questions(texts(paths@)), 0), q@),
            },
{
    let mut queries: Vec<Query> = Vec::new();
    let mut i: usize = 0;
    while i < paths.len()
        invariant
            i <= paths.len(),
            queries.len() == i,
            forall|j: int| 0 <= j < i ==> queries@[j]@ == Question::IsFile(paths@[j]@),
        decreases paths.len() - i,
    {
        queries.push(Query::IsFile(paths[i].clone()));
        i += 1;
    }
    assert(questions_of(queries@) =~= file_questions(texts(paths@)));
    first_match(known, &queries)
}

/// Finds the first of `paths` that is a directory, asking of each in order
/// and of none after the first that is one.
pub fn first_dir_among(known: &Knowledge, paths: &Vec<String>) -> (found: Result<
    Option<usize>,
    Query,
>)
    ensures
        found matches Ok(Some(at)) ==> at < paths.len(),
        forall|h: Host| #[trigger]
            known.agrees(h) ==> match found {
                Ok(Some(at)) => first_yes(h, dir_questions(texts(paths@)), 0) == Some(at as int)
                    && covers(known@, scan_plan(h, dir_questions(texts(paths@)), 0)),
                Ok(None) => first_yes(h, dir_questions(texts(paths@)), 0) is None && covers(
                    known@,
                    scan_plan(h, dir_questions(texts(paths@)), 0),
                ),
                Err(q) => first_open(known@, scan_plan(h, dir_questions(texts(paths@)), 0), q@),
            },
{
    let mut queries: Vec<Query> = Vec::new();
    let mut i: usize = 0;
    while i < paths.len()
        invariant
            i <= paths.len(),
            queries.len() == i,
            forall|j: int| 0 <= j < i ==> queries@[j]@ == Question::IsDir(paths@[j]@),
        decreases paths.len() - i,
    {
        queries.push(Query::IsDir(paths[i].clone()));
        i += 1;
    }
    assert(questions_of(queries@) =~= dir_questions(texts(paths@)));
    first_match(known, &queries)
}

/// The paths at which the program `name` may lie: one in each of `dirs`.
pub open spec fn candidates(dirs: Seq<Seq<char>>, name: Seq<char>) -> Seq<Seq<char>> {
    Seq::new(dirs.len(), |i: int| joined_path(dirs[i], name))
}

/// Where the program `name` lies on host `h`: in the first directory of the
/// search path that holds a regular file of that name. There is none where
/// the search path is not set.
pub open spec fn binary_on(h: Host, name: Seq<char>) -> Option<Seq<char>> {
    match h.var("PATH"@) {
        Some(path) => {
            let paths = candidates(search_path_dirs(path), name);
            match first_yes(h, file_questions(paths), 0) {
                Some(at) => Some(paths[at]),
                None => None,
            }
        },
        None => None,
    }
}

/// The questions that finding the program `name` puts to host `h`, in order:
/// for the search path, then for the file in each of its directories.
pub open spec fn find_binary_plan(h: Host, name: Seq<char>) -> Seq<Question> {
    seq![Question::Env("PATH"@)] + match h.var("PATH"@) {
        Some(path) => scan_plan(h, file_questions(candidates(search_path_dirs(path), name)), 0),
        None => Seq::empty(),
    }
}

/// The path of `name` in each of `dirs`.
fn candidate_paths(dirs: &Vec<String>, name: &str) -> (paths: Vec<String>)
    ensures
        texts(paths@) == candidates(texts(dirs@), name@),
{
    let mut paths: Vec<String> = Vec::new();
    let mut i: usize = 0;
    while i < dirs.len()
        invariant
            i <= dirs.len(),
            paths.len() == i,
            forall|j: int| 0 <= j < i ==> paths@[j]@ == joined_path(dirs@[j]@, name@),
        decreases dirs.len() - i,
    {
        paths.push(join_path(dirs[i].as_str(), name));
        i += 1;
    }
    assert(texts(paths@) =~= candidates(texts(dirs@), name@));
    paths
}

/// Looks for the program `name` in the directories of the search path, in
/// the order in which the path lists them.
///
/// Returns the path of the program, or that there is none, where `known`
/// answers every question of the search; else the first question that is
/// open.
pub fn find_binary(known: &Knowledge, name: &str) -> (found: Result<Option<String>, Query>)
    ensures
        forall|h: Host| #[trigger]
            known.agrees(h) ==> match found {
                Ok(path) => opt_text(path) == binary_on(h, name@) && covers(
                    known@,
                    find_binary_plan(h, name@),
                ),
                Err(q) => first_open(known@, find_binary_plan(h, name@), q@),
            },
{
    let path_var = match known.text(Query::Env("PATH".to_owned()))? {
        Some(path) => path,
        None => {
            return Ok(None);
        },
    };
    let dirs = split_search_path(path_var.as_str());
    let paths = candidate_paths(&dirs, name);
    match first_file_among(known, &paths)? {
        Some(at) => Ok(Some(paths[at].clone())),
        None => Ok(None),
    }
}

/// The texts of a list of string slices.
pub open spec fn words(args: Seq<&str>) -> Seq<Seq<char>> {
    Seq::new(args.len(), |i: int| args[i]@)
}

/// Copies a list of string slices into owned strings.
fn owned_words(args: &[&str]) -> (owned: Vec<String>)
    ensures
        texts(owned@) == words(args@),
{
    let mut owned: Vec<String> = Vec::new();
    let mut i: usize = 0;
    while i < args.len()
        invariant
            i <= args.len(),
            owned.len() == i,
            forall|j: int| 0 <= j < i ==> owned@[j]@ == args@[j]@,
        decreases args.len() - i,
    {
        owned.push(args[i].to_owned());
        i += 1;
    }
    owned
}

/// Whether a daemon is alive: whether the command that asks it starts and
/// exits with success. A command that cannot be started counts as one that
/// fails.
pub fn check_daemon(known: &Knowledge, cmd: &str, args: &[&str]) -> (alive: Result<bool, Query>)
    ensures
        match alive {
            Ok(_) => known.knows(Question::Succeeds(cmd@, words(args@))),
            Err(q) => q@ == Question::Succeeds(cmd@, words(args@)) && !known.knows(q@),
        },
        forall|h: Host| #[trigger]
            known.agrees(h) ==> (alive matches Ok(b) ==> b == h.succeeds(cmd@, words(args@))),
{
    known.flag(Query::Succeeds(cmd.to_owned(), owned_words(args)))
}

/// What running a command yields on host `h`: its standard output without
/// the whitespace around it, if the command succeeds.
pub open spec fn output_on(h: Host, cmd: Seq<char>, args: Seq<Seq<char>>) -> Option<Seq<char>> {
    match h.output(cmd, args) {
        Some(raw) => Some(trimmed_of(raw)),
        None => None,
    }
}

/// The standard output of a command, trimmed; none where the command cannot
/// be started or does not exit with success.
pub fn command_output(known: &Knowledge, cmd: &str, args: &[&str]) -> (output: Result<
    Option<String>,
    Query,
>)
    ensures
        match output {
            Ok(_) => known.knows(Question::Output(cmd@, words(args@))),
            Err(q) => q@ == Question::Output(cmd@, words(args@)) && !known.knows(q@),
        },
        forall|h: Host| #[trigger]
            known.agrees(h) ==> (output matches Ok(text) ==> opt_text(text) == output_on(
                h,
                cmd@,
                words(args@),
            )),
{
    match known.text(Query::Output(cmd.to_owned(), owned_words(args)))? {
        Some(raw) => Ok(Some(trim(raw.as_str()).to_owned())),
        None => Ok(None),
    }
}

/// Whether the current user of host `h` can read the directory at `path`:
/// it has to exist, and its entries have to be listable.
pub open spec fn readable_on(h: Host, path: Seq<char>) -> bool {
    h.has(path) && h.lists(path)
}

/// A path that exists is still not readable where its entries cannot be
/// listed: existence alone does not make for read access.
pub proof fn lemma_unlistable_is_unreadable(h: Host, path: Seq<char>)
    requires
        !h.lists(path),
    ensures
        !readable_on(h, path),
{
}

/// The questions that checking read access to `path` puts to host `h`, in
/// order: listing is tried only on a path that exists.
pub open spec fn read_access_plan(h: Host, path: Seq<char>) -> Seq<Question> {
    seq![Question::Exists(path)] + if h.has(path) {
        seq![Question::Listable(path)]
    } else {
        Seq::empty()
    }
}

/// Whether a path exists and the entries of the directory there can be
/// listed.
pub fn check_read_access(known: &Knowledge, path: &str) -> (readable: Result<bool, Query>)
    ensures
        forall|h: Host| #[trigger]
            known.agrees(h) ==> match readable {
                Ok(b) => b == readable_on(h, path@) && covers(known@, read_access_plan(h, path@)),
                Err(q) => first_open(known@, read_access_plan(h, path@), q@),
            },
{
    let exists = known.flag(Query::Exists(path.to_owned()))?;
    Ok(exists && known.flag(Query::Listable(path.to_owned()))?)
}

} // verus!
