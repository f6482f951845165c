//! What the library may ask of a host, a model of the host that answers, and
//! the record of the answers so far.

use vstd::prelude::*;

verus! {

/// One thing to find out on the host.
#[derive(Clone, Debug, PartialEq, Eq)]
pub enum Query {
    /// The value of an environment variable.
    Env(String),
    /// Whether a path is a regular file.
    IsFile(String),
    /// Whether a path exists.
    Exists(String),
    /// Whether a path is a directory.
    IsDir(String),
    /// Whether the entries of the directory at a path can be listed.
    Listable(String),
    /// Whether a program, run with these arguments and its output thrown
    /// away, starts and exits with success.
    Succeeds(String, Vec<String>),
    /// The standard output of a program run with these arguments.
    Output(String, Vec<String>),
}

/// A `Query` with its texts as sequences of characters.
pub enum Question {
    Env(Seq<char>),
    IsFile(Seq<char>),
    Exists(Seq<char>),
    IsDir(Seq<char>),
    Listable(Seq<char>),
    Succeeds(Seq<char>, Seq<Seq<char>>),
    Output(Seq<char>, Seq<Seq<char>>),
}

/// The texts of a list of strings.
pub open spec fn texts(words: Seq<String>) -> Seq<Seq<char>> {
    Seq::new(words.len(), |i: int| words[i]@)
}

impl View for Query {
    type V = Question;

    open spec fn view(&self) -> Question {
        match self {
            Query::Env(name) => Question::Env(name@),
            Query::IsFile(path) => Question::IsFile(path@),
            Query::Exists(path) => Question::Exists(path@),
            Query::IsDir(path) => Question::IsDir(path@),
            Query::Listable(path) => Question::Listable(path@),
            Query::Succeeds(program, args) => Question::Succeeds(program@, texts(args@)),
            Query::Output(program, args) => Question::Output(program@, texts(args@)),
        }
    }
}

/// What the host said to a `Query`.
#[derive(Clone, Debug, PartialEq, Eq)]
pub enum Answer {
    /// Yes or no.
    Flag(bool),
    /// A text, or none: a variable that is not set, a command that failed.
    Text(Option<String>),
}

/// An `Answer` with its text as a sequence of characters.
pub enum Reply {
    Flag(bool),
    Text(Option<Seq<char>>),
}

impl Reply {
    /// A reply read as yes or no: a text is no.
    pub open spec fn flag(self) -> bool {
        match self {
            Reply::Flag(b) => b,
            Reply::Text(_) => false,
        }
    }

    /// A reply read as a text: a flag is no text.
    pub open spec fn text(self) -> Option<Seq<char>> {
        match self {
            Reply::Flag(_) => None,
            Reply::Text(t) => t,
        }
    }
}

impl View for Answer {
    type V = Reply;

    open spec fn view(&self) -> Reply {
        match self {
            Answer::Flag(b) => Reply::Flag(*b),
            Answer::Text(Some(t)) => Reply::Text(Some(t@)),
            Answer::Text(None) => Reply::Text(None),
        }
    }
}

/// A host at one moment: what it says to each question that can be put to
/// it.
pub struct Host {
    pub replies: spec_fn(Question) -> Reply,
}

impl Host {
    /// What this host says to a question.
    pub open spec fn reply(self, q: Question) -> Reply {
        (self.replies)(q)
    }

    /// The value of an environment variable, if it is set to valid text.
    pub open spec fn var(self, name: Seq<char>) -> Option<Seq<char>> {
        self.reply(Question::Env(name)).text()
    }

    /// Whether a path is a regular file.
    pub open spec fn is_file(self, path: Seq<char>) -> bool {
        self.reply(Question::IsFile(path)).flag()
    }

    /// Whether a path exists.
    pub open spec fn has(self, path: Seq<char>) -> bool {
        self.reply(Question::Exists(path)).flag()
    }

    /// Whether a path is a directory.
    pub open spec fn is_dir(self, path: Seq<char>) -> bool {
        self.reply(Question::IsDir(path)).flag()
    }

    /// Whether the current user can list the entries of the directory at a
    /// path.
    pub open spec fn lists(self, path: Seq<char>) -> bool {
        self.reply(Question::Listable(path)).flag()
    }

    /// Whether a command starts and exits with success when its output is
    /// thrown away.
    pub open spec fn succeeds(self, program: Seq<char>, args: Seq<Seq<char>>) -> bool {
        self.reply(Question::Succeeds(program, args)).flag()
    }

    /// The standard output of a command, if it starts and exits with
    /// success.
    pub open spec fn output(self, program: Seq<char>, args: Seq<Seq<char>>) -> Option<Seq<char>> {
        self.reply(Question::Output(program, args)).text()
    }

    /// Whether every answer in `answers` is the one that this host gives.
    pub open spec fn confirms(self, answers: Map<Question, Reply>) -> bool {
        forall|q: Question| #[trigger] answers.dom().contains(q) ==> answers[q] == self.reply(q)
    }
}

/// Whatever answers are on record, there is a host that gives them: no
/// record is beyond what the contracts of this library speak of.
pub proof fn lemma_some_host_confirms(answers: Map<Question, Reply>)
    ensures
        exists|h: Host| h.confirms(answers),
{
    let h = Host {
        replies: |q: Question|
            if answers.dom().contains(q) {
                answers[q]
            } else {
                Reply::Flag(false)
            },
    };
    assert(h.confirms(answers));
}

/// Answers that host `h` confirms stay confirmed when the host's answer to
/// one more question is added: a caller that records what the host says
/// never loses agreement with it.
pub proof fn lemma_learning_keeps_agreement(h: Host, answers: Map<Question, Reply>, q: Question)
    requires
        h.confirms(answers),
    ensures
        h.confirms(answers.insert(q, h.reply(q))),
        answers.insert(q, h.reply(q)).dom().contains(q),
{
}

/// Whether two lists of strings hold the same texts.
fn same_words(a: &Vec<String>, b: &Vec<String>) -> (same: bool)
    ensures
        same == (texts(a@) == texts(b@)),
{
    if a.len() != b.len() {
        return false;
    }
    let mut i: usize = 0;
    while i < a.len()
        invariant
            i <= a.len(),
            a.len() == b.len(),
            forall|j: int| 0 <= j < i ==> a@[j]@ == b@[j]@,
        decreases a.len() - i,
    {
        if a[i] != b[i] {
            assert(texts(a@)[i as int] != texts(b@)[i as int]);
            return false;
        }
        i += 1;
    }
    assert(texts(a@) =~= texts(b@));
    true
}

/// A copy of a list of strings.
fn copied_words(words: &Vec<String>) -> (copy: Vec<String>)
    ensures
        texts(copy@) == texts(words@),
{
    let mut copy: Vec<String> = Vec::new();
    let mut i: usize = 0;
    while i < words.len()
        invariant
            i <= words.len(),
            copy.len() == i,
            forall|j: int| 0 <= j < i ==> copy@[j]@ == words@[j]@,
        decreases words.len() - i,
    {
        copy.push(words[i].clone());
        i += 1;
    }
    assert(texts(copy@) =~= texts(words@));
    copy
}

impl Query {
    /// A query that asks the same question.
    pub fn duplicate(&self) -> (copy: Query)
        ensures
            copy@ == self@,
    {
        match self {
            Query::Env(name) => Query::Env(name.clone()),
            Query::IsFile(path) => Query::IsFile(path.clone()),
            Query::Exists(path) => Query::Exists(path.clone()),
            Query::IsDir(path) => Query::IsDir(path.clone()),
            Query::Listable(path) => Query::Listable(path.clone()),
            Query::Succeeds(program, args) => Query::Succeeds(program.clone(), copied_words(args)),
            Query::Output(program, args) => Query::Output(program.clone(), copied_words(args)),
        }
    }

    /// Whether two queries ask the same question.
    pub fn same(&self, other: &Query) -> (same: bool)
        ensures
            same == (self@ == other@),
    {
        match (self, other) {
            (Query::Env(a), Query::Env(b)) => *a == *b,
            (Query::IsFile(a), Query::IsFile(b)) => *a == *b,
            (Query::Exists(a), Query::Exists(b)) => *a == *b,
            (Query::IsDir(a), Query::IsDir(b)) => *a == *b,
            (Query::Listable(a), Query::Listable(b)) => *a == *b,
            (Query::Succeeds(a, x), Query::Succeeds(b, y)) => *a == *b && same_words(x, y),
            (Query::Output(a, x), Query::Output(b, y)) => *a == *b && same_words(x, y),
            _ => false,
        }
    }
}

/// One recorded answer.
#[derive(Clone, Debug, PartialEq, Eq)]
struct Fact {
    query: Query,
    answer: Answer,
}

/// The map that a list of facts amounts to: where a question was answered
/// more than once, the latest answer stands.
spec fn learned(facts: Seq<Fact>) -> Map<Question, Reply>
    decreases facts.len(),
{
    if facts.len() == 0 {
        Map::empty()
    } else {
        learned(facts.drop_last()).insert(facts.last().query@, facts.last().answer@)
    }
}

/// A question is in the map exactly if some fact answers it.
proof fn lemma_learned_domain(facts: Seq<Fact>, q: Question)
    ensures
        learned(facts).dom().contains(q) <==> exists|j: int|
            0 <= j < facts.len() && (#[trigger] facts[j]).query@ == q,
    decreases facts.len(),
{
    if facts.len() > 0 {
        let front = facts.drop_last();
        lemma_learned_domain(front, q);
        if exists|j: int| 0 <= j < facts.len() && (#[trigger] facts[j]).query@ == q {
            let j = choose|j: int| 0 <= j < facts.len() && (#[trigger] facts[j]).query@ == q;
            if j < front.len() {
                assert(front[j].query@ == q);
            }
        }
    }
}

/// The answer in the map is that of the last fact on the question.
proof fn lemma_learned_latest(facts: Seq<Fact>, at: int)
    requires
        0 <= at < facts.len(),
        forall|j: int| at < j < facts.len() ==> (#[trigger] facts[j]).query@ != facts[at].query@,
    ensures
        learned(facts).dom().contains(facts[at].query@),
        learned(facts)[facts[at].query@] == facts[at].answer@,
    decreases facts.len(),
{
    if at < facts.len() - 1 {
        let front = facts.drop_last();
        lemma_learned_latest(front, at);
    }
}

/// The answers gathered so far, by question.
#[derive(Debug)]
pub struct Knowledge {
    facts: Vec<Fact>,
}

impl View for Knowledge {
    type V = Map<Question, Reply>;

    closed spec fn view(&self) -> Map<Question, Reply> {
        learned(self.facts@)
    }
}

impl Knowledge {
    /// Whether a question has been answered.
    pub open spec fn knows(&self, q: Question) -> bool {
        self@.dom().contains(q)
    }

    /// Every recorded answer is the one that host `h` gives.
    pub open spec fn agrees(&self, h: Host) -> bool {
        h.confirms(self@)
    }

    /// Nothing is known yet.
    pub fn new() -> (known: Knowledge)
        ensures
            known@ == Map::<Question, Reply>::empty(),
    {
        Knowledge { facts: Vec::new() }
    }

    /// Records the answer to a question; an earlier answer to the same
    /// question gives way.
    pub fn record(&mut self, query: Query, answer: Answer)
        ensures
            final(self)@ == old(self)@.insert(query@, answer@),
    {
        let fact = Fact { query, answer };
        self.facts.push(fact);
        assert(self.facts@.drop_last() == old(self).facts@);
    }

    /// The answer on record for a question.
    pub fn lookup(&self, query: &Query) -> (found: Option<&Answer>)
        ensures
            match found {
                Some(answer) => self.knows(query@) && self@[query@] == answer@,
                None => !self.knows(query@),
            },
    {
        let mut i: usize = self.facts.len();
        while i > 0
            invariant
                i <= self.facts.len(),
                forall|j: int|
                    i <= j < self.facts.len() ==> (#[trigger] self.facts@[j]).query@ != query@,
            decreases i,
        {
            i -= 1;
            if self.facts[i].query.same(query) {
                proof {
                    lemma_learned_latest(self.facts@, i as int);
                }
                return Some(&self.facts[i].answer);
            }
        }
        proof {
            lemma_learned_domain(self.facts@, query@);
        }
        None
    }

    /// The recorded answer to a yes-or-no question, or the question itself
    /// where it has not been answered.
    pub fn flag(&self, query: Query) -> (found: Result<bool, Query>)
        ensures
            match found {
                Ok(b) => self.knows(query@) && b == self@[query@].flag(),
                Err(q) => q == query && !self.knows(query@),
            },
    {
        match self.lookup(&query) {
            Some(Answer::Flag(b)) => Ok(*b),
            Some(Answer::Text(_)) => Ok(false),
            None => Err(query),
        }
    }

    /// The recorded answer to a question for a text, or the question itself
    /// where it has not been answered.
    pub fn text(&self, query: Query) -> (found: Result<Option<String>, Query>)
        ensures
            match found {
                Ok(Some(t)) => self.knows(query@) && self@[query@].text() == Some(t@),
                Ok(None) => self.knows(query@) && self@[query@].text() is None,
                Err(q) => q == query && !self.knows(query@),
            },
    {
        match self.lookup(&query) {
            Some(Answer::Text(Some(t))) => Ok(Some(t.clone())),
            Some(_) => Ok(None),
            None => Err(query),
        }
    }
}

} // verus!
