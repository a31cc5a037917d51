//! Weighing discards and calls against each other.

use crate::engine::{Action, ActionView};
use crate::random::choose_random;
use std::cmp::Ordering;
use vstd::prelude::*;

verus! {

/// A discard and what it leaves of the hand.
#[derive(Debug)]
pub struct DiscardEvaluation {
    pub action: Action,
    pub shanten: i32,
    pub ukeire: u32,
    pub safe_against_riichi_count: u8,
}

/// The contents of a [`DiscardEvaluation`].
pub struct DiscardView {
    pub action: ActionView,
    pub shanten: int,
    pub ukeire: int,
    pub safe_against_riichi_count: int,
}

impl View for DiscardEvaluation {
    type V = DiscardView;

    open spec fn view(&self) -> DiscardView {
        DiscardView {
            action: self.action@,
            shanten: self.shanten as int,
            ukeire: self.ukeire as int,
            safe_against_riichi_count: self.safe_against_riichi_count as int,
        }
    }
}

/// Whether the left discard is better. A discard is better by a lower shanten number, then by more
/// improving tiles, then by safety against more riichi players; where safety comes first, by
/// safety, then shanten number, then improving tiles.
pub open spec fn better_discard(
    left: DiscardView,
    right: DiscardView,
    prioritize_safety: bool,
) -> bool {
    let safer = left.safe_against_riichi_count > right.safe_against_riichi_count;
    let as_safe = left.safe_against_riichi_count == right.safe_against_riichi_count;
    let closer = left.shanten < right.shanten;
    let as_close = left.shanten == right.shanten;
    let wider = left.ukeire > right.ukeire;
    let as_wide = left.ukeire == right.ukeire;
    if prioritize_safety {
        safer || (as_safe && (closer || (as_close && wider)))
    } else {
        closer || (as_close && (wider || (as_wide && safer)))
    }
}

/// Compares two discards: the better one is the lesser one.
pub fn compare_discard_eval(
    lhs: &DiscardEvaluation,
    rhs: &DiscardEvaluation,
    prioritize_safety: bool,
) -> (order: Ordering)
    ensures
        order == Ordering::Less <==> better_discard(lhs@, rhs@, prioritize_safety),
        order == Ordering::Greater <==> better_discard(rhs@, lhs@, prioritize_safety),
{
    let by_safety = if lhs.safe_against_riichi_count > rhs.safe_against_riichi_count {
        Ordering::Less
    } else if lhs.safe_against_riichi_count < rhs.safe_against_riichi_count {
        Ordering::Greater
    } else {
        Ordering::Equal
    };
    let by_shanten = if lhs.shanten < rhs.shanten {
        Ordering::Less
    } else if lhs.shanten > rhs.shanten {
        Ordering::Greater
    } else {
        Ordering::Equal
    };
    let by_ukeire = if lhs.ukeire > rhs.ukeire {
        Ordering::Less
    } else if lhs.ukeire < rhs.ukeire {
        Ordering::Greater
    } else {
        Ordering::Equal
    };
    if prioritize_safety {
        first_decisive(by_safety, by_shanten, by_ukeire)
    } else {
        first_decisive(by_shanten, by_ukeire, by_safety)
    }
}

/// The first of three orders that is not a tie.
fn first_decisive(first: Ordering, second: Ordering, third: Ordering) -> (order: Ordering)
    ensures
        order == if first != Ordering::Equal {
            first
        } else if second != Ordering::Equal {
            second
        } else {
            third
        },
{
    match first {
        Ordering::Equal => match second {
            Ordering::Equal => third,
            decided => decided,
        },
        decided => decided,
    }
}

/// Whether a choice is a best one among evaluated discards: none is better, and there is no choice
/// only where there are no discards.
pub open spec fn is_best_discard_eval(
    evaluations: Seq<DiscardView>,
    prioritize_safety: bool,
    best: Option<DiscardView>,
) -> bool {
    match best {
        Some(b) => {
            &&& evaluations.contains(b)
            &&& forall|i: int|
                0 <= i < evaluations.len() ==> !better_discard(
                    #[trigger] evaluations[i],
                    b,
                    prioritize_safety,
                )
        },
        None => evaluations.len() == 0,
    }
}

/// The contents of a list of evaluated discards.
pub open spec fn discard_views(evaluations: Seq<DiscardEvaluation>) -> Seq<DiscardView> {
    evaluations.map_values(|e: DiscardEvaluation| e@)
}

/// The contents of an optional evaluated discard.
pub open spec fn discard_view(evaluation: Option<DiscardEvaluation>) -> Option<DiscardView> {
    match evaluation {
        Some(e) => Some(e@),
        None => None,
    }
}

proof fn lemma_take_all<T>(items: Seq<T>)
    ensures
        items.take(items.len() as int) == items,
{
}

/// Chooses a best discard; chance decides between discards that are as good as each other.
pub fn choose_best_discard_eval(
    evaluations: Vec<DiscardEvaluation>,
    prioritize_safety: bool,
) -> (best: Option<DiscardEvaluation>)
    ensures
        is_best_discard_eval(
            discard_views(evaluations@),
            prioritize_safety,
            discard_view(best),
        ),
{
    let ghost views = discard_views(evaluations@);
    let mut best: Option<DiscardEvaluation> = None;
    for evaluation in rest: evaluations
        invariant
            rest.seq() == evaluations@,
            views == discard_views(evaluations@),
            is_best_discard_eval(
                views.take(rest.index()),
                prioritize_safety,
                discard_view(best),
            ),
    {
        let ghost seen = views.take(rest.index());
        let ghost now = views.take(rest.index() + 1);
        assert(now =~= seen.push(evaluation@));
        assert(now[rest.index()] == evaluation@);
        best = match best {
            None => Some(evaluation),
            Some(current) => match compare_discard_eval(&evaluation, &current, prioritize_safety) {
                Ordering::Less => Some(evaluation),
                Ordering::Equal => {
                    let mut tied: Vec<DiscardEvaluation> = Vec::new();
                    tied.push(current);
                    tied.push(evaluation);
                    choose_random(tied)
                },
                Ordering::Greater => Some(current),
            },
        };
    }
    proof {
        lemma_take_all(views);
    }
    best
}

/// A call and what it leaves of the hand.
#[derive(Debug)]
pub struct CallEvaluation {
    pub action: Action,
    pub shanten: i32,
    pub ukeire: u32,
}

/// The contents of a [`CallEvaluation`].
pub struct CallView {
    pub action: ActionView,
    pub shanten: int,
    pub ukeire: int,
}

impl View for CallEvaluation {
    type V = CallView;

    open spec fn view(&self) -> CallView {
        CallView {
            action: self.action@,
            shanten: self.shanten as int,
            ukeire: self.ukeire as int,
        }
    }
}

/// Whether the left call is better: by a lower shanten number, then by more improving tiles.
pub open spec fn better_call(left: CallView, right: CallView) -> bool {
    left.shanten < right.shanten || (left.shanten == right.shanten && left.ukeire > right.ukeire)
}

/// Whether a choice is a best one among evaluated calls: none is better, and there is no choice
/// only where there are no calls.
pub open spec fn is_best_call_eval(evaluations: Seq<CallView>, best: Option<CallView>) -> bool {
    match best {
        Some(b) => {
            &&& evaluations.contains(b)
            &&& forall|i: int|
                0 <= i < evaluations.len() ==> !better_call(#[trigger] evaluations[i], b)
        },
        None => evaluations.len() == 0,
    }
}

/// The contents of a list of evaluated calls.
pub open spec fn call_views(evaluations: Seq<CallEvaluation>) -> Seq<CallView> {
    evaluations.map_values(|e: CallEvaluation| e@)
}

/// The contents of an optional evaluated call.
pub open spec fn call_view(evaluation: Option<CallEvaluation>) -> Option<CallView> {
    match evaluation {
        Some(e) => Some(e@),
        None => None,
    }
}

/// Chooses a best call; chance decides between calls that are as good as each other.
pub fn choose_best_call_eval(evaluations: Vec<CallEvaluation>) -> (best: Option<CallEvaluation>)
    ensures
        is_best_call_eval(call_views(evaluations@), call_view(best)),
{
    let ghost views = call_views(evaluations@);
    let mut best: Option<CallEvaluation> = None;
    for evaluation in rest: evaluations
        invariant
            rest.seq() == evaluations@,
            views == call_views(evaluations@),
            is_best_call_eval(views.take(rest.index()), call_view(best)),
    {
        let ghost seen = views.take(rest.index());
        let ghost now = views.take(rest.index() + 1);
        assert(now =~= seen.push(evaluation@));
        assert(now[rest.index()] == evaluation@);
        best = match best {
            None => Some(evaluation),
            Some(current) => if evaluation.shanten < current.shanten || (evaluation.shanten
                == current.shanten && evaluation.ukeire > current.ukeire) {
                Some(evaluation)
            } else if evaluation.shanten == current.shanten && evaluation.ukeire
                == current.ukeire {
                let mut tied: Vec<CallEvaluation> = Vec::new();
                tied.push(current);
                tied.push(evaluation);
                choose_random(tied)
            } else {
                Some(current)
            },
        };
    }
    proof {
        lemma_take_all(views);
    }
    best
}

/// Being a better discard is a strict order: no discard is better than itself, of two discards at
/// most one is better, and better than a better one is better still.
pub proof fn law_better_discard_is_strict_order(
    a: DiscardView,
    b: DiscardView,
    c: DiscardView,
    prioritize_safety: bool,
)
    ensures
        !better_discard(a, a, prioritize_safety),
        better_discard(a, b, prioritize_safety) ==> !better_discard(b, a, prioritize_safety),
        better_discard(a, b, prioritize_safety) && better_discard(b, c, prioritize_safety)
            ==> better_discard(a, c, prioritize_safety),
{
}

/// Two discards are as good as each other exactly if they agree in shanten number, improving tiles
/// and safety.
pub proof fn law_tied_discards_agree(a: DiscardView, b: DiscardView, prioritize_safety: bool)
    ensures
        (!better_discard(a, b, prioritize_safety) && !better_discard(b, a, prioritize_safety))
            <==> (a.shanten == b.shanten && a.ukeire == b.ukeire && a.safe_against_riichi_count
            == b.safe_against_riichi_count),
{
}

/// Being a better call is a strict order, and two calls are as good as each other exactly if they
/// agree in shanten number and improving tiles.
pub proof fn law_better_call_is_strict_order(a: CallView, b: CallView, c: CallView)
    ensures
        !better_call(a, a),
        better_call(a, b) ==> !better_call(b, a),
        better_call(a, b) && better_call(b, c) ==> better_call(a, c),
        (!better_call(a, b) && !better_call(b, a)) <==> (a.shanten == b.shanten && a.ukeire
            == b.ukeire),
{
}

/// Where safety does not come first, the lower shanten number is better whatever the rest; with the
/// same shanten number more improving tiles are better whatever the safety; and safety decides only
/// between discards with the same shanten number and as many improving tiles.
pub proof fn law_speed_before_safety(a: DiscardView, b: DiscardView)
    ensures
        a.shanten < b.shanten ==> better_discard(a, b, false) && !better_discard(b, a, false),
        a.shanten == b.shanten && a.ukeire > b.ukeire ==> better_discard(a, b, false)
            && !better_discard(b, a, false),
        a.shanten == b.shanten && a.ukeire == b.ukeire ==> (better_discard(a, b, false)
            <==> a.safe_against_riichi_count > b.safe_against_riichi_count),
{
}

/// Where safety comes first, safety against more players is better whatever the rest; with the same
/// safety the lower shanten number is better whatever the improving tiles; and these decide only
/// between discards with the same safety and the same shanten number.
pub proof fn law_safety_before_speed(a: DiscardView, b: DiscardView)
    ensures
        a.safe_against_riichi_count > b.safe_against_riichi_count ==> better_discard(a, b, true)
            && !better_discard(b, a, true),
        a.safe_against_riichi_count == b.safe_against_riichi_count && a.shanten < b.shanten
            ==> better_discard(a, b, true) && !better_discard(b, a, true),
        a.safe_against_riichi_count == b.safe_against_riichi_count && a.shanten == b.shanten ==> (
        better_discard(a, b, true) <==> a.ukeire > b.ukeire),
{
}

/// The lower shanten number makes the better call whatever the improving tiles, which decide only
/// between calls with the same shanten number.
pub proof fn law_faster_call_is_better(a: CallView, b: CallView)
    ensures
        a.shanten < b.shanten ==> better_call(a, b) && !better_call(b, a),
        a.shanten == b.shanten ==> (better_call(a, b) <==> a.ukeire > b.ukeire),
{
}

/// A best discard is one of the evaluated ones, and there is one unless there are none. Where safety
/// does not come first it has the lowest shanten number, with that the most improving tiles, and
/// with both the greatest safety; where safety comes first it has the greatest safety, with that the
/// lowest shanten number, and with both the most improving tiles.
pub proof fn law_best_discard_is_extreme(
    evaluations: Seq<DiscardView>,
    prioritize_safety: bool,
    best: Option<DiscardView>,
    position: int,
)
    requires
        is_best_discard_eval(evaluations, prioritize_safety, best),
        0 <= position < evaluations.len(),
    ensures
        best matches Some(b) && evaluations.contains(b) && {
            let other = evaluations[position];
            let as_safe = b.safe_against_riichi_count == other.safe_against_riichi_count;
            if prioritize_safety {
                &&& b.safe_against_riichi_count >= other.safe_against_riichi_count
                &&& as_safe ==> b.shanten <= other.shanten
                &&& as_safe && b.shanten == other.shanten ==> b.ukeire >= other.ukeire
            } else {
                &&& b.shanten <= other.shanten
                &&& b.shanten == other.shanten ==> b.ukeire >= other.ukeire
                &&& b.shanten == other.shanten && b.ukeire == other.ukeire
                    ==> b.safe_against_riichi_count >= other.safe_against_riichi_count
            }
        },
{
    law_speed_before_safety(evaluations[position], best->0);
    law_safety_before_speed(evaluations[position], best->0);
}

/// A best call is one of the evaluated ones, and there is one unless there are none. It has the
/// lowest shanten number, and with that the most improving tiles.
pub proof fn law_best_call_is_extreme(
    evaluations: Seq<CallView>,
    best: Option<CallView>,
    position: int,
)
    requires
        is_best_call_eval(evaluations, best),
        0 <= position < evaluations.len(),
    ensures
        best matches Some(b) && evaluations.contains(b) && {
            let other = evaluations[position];
            &&& b.shanten <= other.shanten
            &&& b.shanten == other.shanten ==> b.ukeire >= other.ukeire
        },
{
    law_faster_call_is_better(evaluations[position], best->0);
}

/// Nothing is best among nothing.
pub proof fn law_nothing_to_choose(
    discards: Seq<DiscardView>,
    calls: Seq<CallView>,
    prioritize_safety: bool,
    discard: Option<DiscardView>,
    call: Option<CallView>,
)
    ensures
        discards.len() == 0 && is_best_discard_eval(discards, prioritize_safety, discard)
            ==> discard is None,
        calls.len() == 0 && is_best_call_eval(calls, call) ==> call is None,
{
}

} // verus!
