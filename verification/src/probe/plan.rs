//! Plans: the questions that a step puts to the host, in the order in which
//! it puts them, and how far the answers on record go along a plan.

use crate::probe::host::{Host, Question, Reply};
use vstd::prelude::*;

verus! {

/// Every question of `plan` is answered in `answers`.
pub open spec fn covers(answers: Map<Question, Reply>, plan: Seq<Question>) -> bool {
    forall|i: int| 0 <= i < plan.len() ==> answers.dom().contains(#[trigger] plan[i])
}

/// The question at place `at` of `plan` is not answered in `answers`, and
/// every question before it is.
pub open spec fn open_at(answers: Map<Question, Reply>, plan: Seq<Question>, at: int) -> bool {
    &&& 0 <= at < plan.len()
    &&& !answers.dom().contains(plan[at])
    &&& forall|j: int| 0 <= j < at ==> answers.dom().contains(#[trigger] plan[j])
}

/// `q` is the first question of `plan` that is not answered in `answers`.
pub open spec fn first_open(
    answers: Map<Question, Reply>,
    plan: Seq<Question>,
    q: Question,
) -> bool {
    exists|at: int| #[trigger] open_at(answers, plan, at) && plan[at] == q
}

/// The number of questions at the head of `plan` that are answered in
/// `answers`, up to the first that is not.
pub open spec fn settled(answers: Map<Question, Reply>, plan: Seq<Question>) -> nat
    decreases plan.len(),
{
    if plan.len() == 0 || !answers.dom().contains(plan[0]) {
        0
    } else {
        1 + settled(answers, plan.drop_first())
    }
}

/// An empty plan has no open question.
pub broadcast proof fn lemma_plan_empty(answers: Map<Question, Reply>, q: Question)
    ensures
        !#[trigger] first_open(answers, Seq::<Question>::empty(), q),
{
}

/// A plan of one question is covered exactly where that question is
/// answered.
pub broadcast proof fn lemma_plan_one_covered(answers: Map<Question, Reply>, only: Question)
    ensures
        #[trigger] covers(answers, seq![only]) <==> answers.dom().contains(only),
{
    assert(seq![only][0] == only);
}

/// The one question of a plan is its first open question exactly where it is
/// not answered.
pub broadcast proof fn lemma_plan_one_open(
    answers: Map<Question, Reply>,
    only: Question,
    q: Question,
)
    ensures
        #[trigger] first_open(answers, seq![only], q) <==> q == only && !answers.dom().contains(
            only,
        ),
{
    let plan = seq![only];
    if q == only && !answers.dom().contains(only) {
        assert(open_at(answers, plan, 0));
    }
}

/// Two plans in a row are covered where both are.
pub broadcast proof fn lemma_plan_covers_both(
    answers: Map<Question, Reply>,
    first: Seq<Question>,
    second: Seq<Question>,
)
    ensures
        #[trigger] covers(answers, first + second) <==> covers(answers, first) && covers(
            answers,
            second,
        ),
{
    let both = first + second;
    if covers(answers, both) {
        assert forall|i: int| 0 <= i < first.len() implies answers.dom().contains(
            #[trigger] first[i],
        ) by {
            assert(both[i] == first[i]);
        }
        assert forall|i: int| 0 <= i < second.len() implies answers.dom().contains(
            #[trigger] second[i],
        ) by {
            assert(both[first.len() + i] == second[i]);
        }
    }
}

/// The first open question of two plans in a row is that of the first plan,
/// or, where the first plan is covered, that of the second.
pub broadcast proof fn lemma_plan_first_open(
    answers: Map<Question, Reply>,
    first: Seq<Question>,
    second: Seq<Question>,
    q: Question,
)
    ensures
        #[trigger] first_open(answers, first + second, q) <==> first_open(answers, first, q) || (
        covers(answers, first) && first_open(answers, second, q)),
{
    let both = first + second;
    if first_open(answers, both, q) {
        let at = choose|at: int| #[trigger] open_at(answers, both, at) && both[at] == q;
        if at < first.len() {
            assert forall|j: int| 0 <= j < at implies answers.dom().contains(
                #[trigger] first[j],
            ) by {
                assert(both[j] == first[j]);
            }
            assert(open_at(answers, first, at));
        } else {
            assert forall|i: int| 0 <= i < first.len() implies answers.dom().contains(
                #[trigger] first[i],
            ) by {
                assert(both[i] == first[i]);
            }
            assert forall|j: int| 0 <= j < at - first.len() implies answers.dom().contains(
                #[trigger] second[j],
            ) by {
                assert(both[first.len() + j] == second[j]);
            }
            assert(open_at(answers, second, at - first.len()));
        }
    }
    if first_open(answers, first, q) {
        let at = choose|at: int| #[trigger] open_at(answers, first, at) && first[at] == q;
        assert(open_at(answers, both, at));
    }
    if covers(answers, first) && first_open(answers, second, q) {
        let at = choose|at: int| #[trigger] open_at(answers, second, at) && second[at] == q;
        assert(open_at(answers, both, first.len() + at));
    }
}

/// Where the first `upto` questions of a plan are answered, at least that
/// many are settled.
proof fn lemma_settled_at_least(answers: Map<Question, Reply>, plan: Seq<Question>, upto: int)
    requires
        0 <= upto <= plan.len(),
        forall|j: int| 0 <= j < upto ==> answers.dom().contains(#[trigger] plan[j]),
    ensures
        settled(answers, plan) >= upto,
    decreases plan.len(),
{
    if upto > 0 {
        lemma_settled_at_least(answers, plan.drop_first(), upto - 1);
    }
}

/// The questions settled are those before the first open one.
proof fn lemma_settled_before_open(answers: Map<Question, Reply>, plan: Seq<Question>, at: int)
    requires
        open_at(answers, plan, at),
    ensures
        settled(answers, plan) == at,
    decreases plan.len(),
{
    if at > 0 {
        lemma_settled_before_open(answers, plan.drop_first(), at - 1);
    }
}

/// No more questions are settled than the plan has, and all of them are
/// exactly where the plan is covered.
pub proof fn lemma_settled_all(answers: Map<Question, Reply>, plan: Seq<Question>)
    ensures
        settled(answers, plan) <= plan.len(),
        covers(answers, plan) <==> settled(answers, plan) == plan.len(),
    decreases plan.len(),
{
    if plan.len() > 0 {
        let rest = plan.drop_first();
        lemma_settled_all(answers, rest);
        if settled(answers, plan) == plan.len() {
            assert forall|i: int| 0 <= i < plan.len() implies answers.dom().contains(
                #[trigger] plan[i],
            ) by {
                if i > 0 {
                    assert(rest[i - 1] == plan[i]);
                }
            }
        }
    }
}

/// An answer to the first open question of a plan settles more of it. A plan
/// is finite, so that a caller who answers the open question each time gets
/// to the end of it.
pub proof fn lemma_answer_settles_more(
    answers: Map<Question, Reply>,
    plan: Seq<Question>,
    q: Question,
    reply: Reply,
)
    requires
        first_open(answers, plan, q),
    ensures
        settled(answers, plan) < settled(answers.insert(q, reply), plan) <= plan.len(),
{
    let at = choose|at: int| #[trigger] open_at(answers, plan, at) && plan[at] == q;
    lemma_settled_before_open(answers, plan, at);
    lemma_settled_at_least(answers.insert(q, reply), plan, at + 1);
    lemma_settled_all(answers.insert(q, reply), plan);
}

/// Where a plan is not covered, its first open question stands at the place
/// up to which the plan is settled.
pub proof fn lemma_open_where_settled_ends(answers: Map<Question, Reply>, plan: Seq<Question>)
    requires
        !covers(answers, plan),
    ensures
        open_at(answers, plan, settled(answers, plan) as int),
    decreases plan.len(),
{
    if plan.len() > 0 && answers.dom().contains(plan[0]) {
        let rest = plan.drop_first();
        assert(!covers(answers, rest)) by {
            if covers(answers, rest) {
                assert forall|i: int| 0 <= i < plan.len() implies answers.dom().contains(
                    #[trigger] plan[i],
                ) by {
                    if i > 0 {
                        assert(rest[i - 1] == plan[i]);
                    }
                }
            }
        }
        lemma_open_where_settled_ends(answers, rest);
        let at = settled(answers, rest) as int;
        assert forall|j: int| 0 <= j < at + 1 implies answers.dom().contains(
            #[trigger] plan[j],
        ) by {
            if j > 0 {
                assert(rest[j - 1] == plan[j]);
            }
        }
    }
}

/// The answers on record after a number of rounds with host `h`: nothing at
/// first, and after each round the host's reply to the first question of the
/// plan that was open before it. Once the plan is covered, nothing is added.
pub open spec fn after_rounds(h: Host, plan: Seq<Question>, rounds: nat) -> Map<Question, Reply>
    decreases rounds,
{
    if rounds == 0 {
        Map::empty()
    } else {
        let before = after_rounds(h, plan, (rounds - 1) as nat);
        if covers(before, plan) {
            before
        } else {
            let q = plan[settled(before, plan) as int];
            before.insert(q, h.reply(q))
        }
    }
}

/// Rounds with host `h` keep to what the host says, and each round settles
/// one more question of the plan at least, until the plan is covered.
pub proof fn lemma_rounds_settle(h: Host, plan: Seq<Question>, rounds: nat)
    ensures
        h.confirms(after_rounds(h, plan, rounds)),
        covers(after_rounds(h, plan, rounds), plan) || settled(
            after_rounds(h, plan, rounds),
            plan,
        ) >= rounds,
    decreases rounds,
{
    if rounds > 0 {
        let before = after_rounds(h, plan, (rounds - 1) as nat);
        lemma_rounds_settle(h, plan, (rounds - 1) as nat);
        if !covers(before, plan) {
            lemma_open_where_settled_ends(before, plan);
            let q = plan[settled(before, plan) as int];
            lemma_answer_settles_more(before, plan, q, h.reply(q));
        }
    }
}

/// As many rounds as the plan has questions cover the plan: a caller that
/// answers the open question each time has every answer after that.
pub proof fn lemma_rounds_suffice(h: Host, plan: Seq<Question>)
    ensures
        h.confirms(after_rounds(h, plan, plan.len())),
        covers(after_rounds(h, plan, plan.len()), plan),
{
    lemma_rounds_settle(h, plan, plan.len());
    lemma_settled_all(after_rounds(h, plan, plan.len()), plan);
}

/// How answers stand to plans that are made of others.
pub broadcast group group_plans {
    lemma_plan_empty,
    lemma_plan_one_covered,
    lemma_plan_one_open,
    lemma_plan_covers_both,
    lemma_plan_first_open,
}

} // verus!
