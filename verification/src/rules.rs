//! The rules by which the agent chooses an action.

use crate::context::{context_of, winds_in_range, RuleContext, RuleContextView, EAST};
use crate::engine::{
    action_view, action_views, Action, ActionType, ActionView, Observation, ObservationView,
};
use crate::evaluation::{
    better_call, better_discard, call_view, call_views, choose_best_call_eval,
    choose_best_discard_eval, discard_view, discard_views, is_best_call_eval, is_best_discard_eval,
    CallEvaluation, CallView, DiscardEvaluation, DiscardView,
};
use crate::hand::{
    calculate_shanten, calculate_ukeire, drawable, hand_after_call, hand_after_call_action,
    has_kind, is_drawable, is_measurable, kind_of, law_playable_hand_is_drawable,
    lemma_call_measurable, measurable, playable, remove_one_tile, shanten_number, ukeire,
    without_one,
};
use crate::random::choose_random;
use crate::selection::{
    copy_first, find_pass, find_riichi, find_win, first_action, first_such, is_pass, is_riichi,
    is_win, law_first_such,
};
use vstd::prelude::*;
use vstd::slice::slice_to_vec;

verus! {

/// Whether the action discards a tile of a kind that the hand holds.
pub open spec fn is_discard(context: RuleContextView, action: ActionView) -> bool {
    &&& action.action_type == ActionType::Discard
    &&& action.tile matches Some(tile)
    &&& has_kind(context.self_hand, kind_of(tile as u32))
}

/// The hand without the tile that an action discards.
pub open spec fn hand_after_discard(context: RuleContextView, action: ActionView) -> Seq<u32> {
    without_one(context.self_hand, kind_of(action.tile->0 as u32))
}

/// Whether every discard among the actions leaves a hand that can take a tile.
pub open spec fn discards_drawable(context: RuleContextView, actions: Seq<ActionView>) -> bool {
    forall|i: int|
        0 <= i < actions.len() && is_discard(context, #[trigger] actions[i]) ==> drawable(
            hand_after_discard(context, actions[i]),
        )
}

/// What a discard leaves of the hand.
pub open spec fn discard_evaluation(context: RuleContextView, action: ActionView) -> DiscardView {
    let rest = hand_after_discard(context, action);
    DiscardView {
        action,
        shanten: shanten_number(rest) as int,
        ukeire: ukeire(rest, context.visible_tiles) as int,
        safe_against_riichi_count: context.safe_count(kind_of(action.tile->0 as u32)) as int,
    }
}

/// The evaluations of the discards among the actions, in the order of the actions.
pub open spec fn discard_evaluations_of(
    context: RuleContextView,
    actions: Seq<ActionView>,
) -> Seq<DiscardView>
    decreases actions.len(),
{
    if actions.len() == 0 {
        Seq::empty()
    } else if is_discard(context, actions.last()) {
        discard_evaluations_of(context, actions.drop_last()).push(
            discard_evaluation(context, actions.last()),
        )
    } else {
        discard_evaluations_of(context, actions.drop_last())
    }
}

/// Evaluates the discards among the actions.
pub fn discard_evaluations(context: &RuleContext, legal_actions: &[Action]) -> (evaluations: Vec<
    DiscardEvaluation,
>)
    requires
        discards_drawable(context@, action_views(legal_actions@)),
    ensures
        discard_views(evaluations@) == discard_evaluations_of(
            context@,
            action_views(legal_actions@),
        ),
{
    let ghost actions = action_views(legal_actions@);
    let mut evaluations: Vec<DiscardEvaluation> = Vec::new();
    let mut i: usize = 0;
    assert(discard_views(evaluations@) =~= discard_evaluations_of(context@, actions.take(0)));
    while i < legal_actions.len()
        invariant
            discards_drawable(context@, actions),
            actions == action_views(legal_actions@),
            i <= legal_actions@.len(),
            discard_views(evaluations@) == discard_evaluations_of(
                context@,
                actions.take(i as int),
            ),
        decreases legal_actions.len() - i,
    {
        let action = &legal_actions[i];
        assert(actions.take(i + 1).drop_last() =~= actions.take(i as int));
        assert(actions.take(i + 1).last() == action@);
        assert(actions[i as int] == action@);
        match evaluate_discard(context, action) {
            Some(evaluation) => {
                let ghost before = evaluations@;
                evaluations.push(evaluation);
                assert(discard_views(evaluations@) =~= discard_views(before).push(evaluation@));
            },
            None => {},
        }
        i = i + 1;
    }
    assert(actions.take(i as int) =~= actions);
    evaluations
}

/// Evaluates an action that is a discard.
pub fn evaluate_discard(context: &RuleContext, action: &Action) -> (evaluation: Option<
    DiscardEvaluation,
>)
    requires
        is_discard(context@, action@) ==> drawable(hand_after_discard(context@, action@)),
    ensures
        discard_view(evaluation) == if is_discard(context@, action@) {
            Some(discard_evaluation(context@, action@))
        } else {
            None
        },
{
    if action.action_type != ActionType::Discard {
        return None;
    }
    let tile = match action.tile {
        Some(tile) => tile,
        None => return None,
    };
    let mut new_hand = slice_to_vec(context.self_hand());
    if remove_one_tile(&mut new_hand, tile as u32).is_none() {
        return None;
    }
    Some(
        DiscardEvaluation {
            action: action.clone(),
            shanten: calculate_shanten(new_hand.as_slice()),
            ukeire: calculate_ukeire(new_hand.as_slice(), context.visible_tiles()),
            safe_against_riichi_count: context.safe_against_riichi_count((tile / 4) as u32),
        },
    )
}

/// Whether the rules consider a discard: in defence only one that is safe against a riichi player.
pub open spec fn discard_candidate(
    context: RuleContextView,
    action: ActionView,
    defending: bool,
) -> bool {
    is_discard(context, action) && (defending ==> discard_evaluation(
        context,
        action,
    ).safe_against_riichi_count > 0)
}

/// Whether a choice is a best discard among the actions: a discard that the rules consider and
/// that no other one beats, safety first in defence. There is no choice only where there is no
/// such discard.
pub open spec fn is_best_discard(
    context: RuleContextView,
    actions: Seq<ActionView>,
    defending: bool,
    choice: Option<ActionView>,
) -> bool {
    match choice {
        Some(chosen) => {
            &&& actions.contains(chosen)
            &&& discard_candidate(context, chosen, defending)
            &&& forall|i: int|
                0 <= i < actions.len() && discard_candidate(
                    context,
                    #[trigger] actions[i],
                    defending,
                ) ==> !better_discard(
                    discard_evaluation(context, actions[i]),
                    discard_evaluation(context, chosen),
                    defending,
                )
        },
        None => forall|i: int|
            0 <= i < actions.len() ==> !discard_candidate(
                context,
                #[trigger] actions[i],
                defending,
            ),
    }
}

/// The evaluations are those of the discards among the actions.
proof fn lemma_discard_evaluations(context: RuleContextView, actions: Seq<ActionView>)
    ensures
        forall|i: int|
            0 <= i < actions.len() && is_discard(context, #[trigger] actions[i])
                ==> discard_evaluations_of(context, actions).contains(
                discard_evaluation(context, actions[i]),
            ),
        forall|k: int|
            0 <= k < discard_evaluations_of(context, actions).len() ==> {
                let evaluation = #[trigger] discard_evaluations_of(context, actions)[k];
                &&& actions.contains(evaluation.action)
                &&& is_discard(context, evaluation.action)
                &&& evaluation == discard_evaluation(context, evaluation.action)
            },
    decreases actions.len(),
{
    if actions.len() > 0 {
        let front = actions.drop_last();
        let last = actions.last();
        lemma_discard_evaluations(context, front);
        let before = discard_evaluations_of(context, front);
        let all = discard_evaluations_of(context, actions);
        assert forall|i: int| 0 <= i < actions.len() && is_discard(context, #[trigger] actions[i])
            implies all.contains(discard_evaluation(context, actions[i])) by {
            if i < front.len() {
                assert(front[i] == actions[i]);
                let k = before.index_of(discard_evaluation(context, front[i]));
                assert(all[k] == before[k]);
            } else {
                assert(all[all.len() - 1] == discard_evaluation(context, last));
            }
        }
        assert forall|k: int| 0 <= k < all.len() implies {
            let evaluation = #[trigger] all[k];
            &&& actions.contains(evaluation.action)
            &&& is_discard(context, evaluation.action)
            &&& evaluation == discard_evaluation(context, evaluation.action)
        } by {
            if k < before.len() {
                assert(all[k] == before[k]);
                let i = front.index_of(before[k].action);
                assert(actions[i] == front[i]);
            } else {
                assert(actions[actions.len() - 1] == last);
            }
        }
    }
}

/// Chooses a best discard.
pub fn choose_best_discard(context: &RuleContext, legal_actions: &[Action]) -> (choice: Option<
    Action,
>)
    requires
        discards_drawable(context@, action_views(legal_actions@)),
    ensures
        is_best_discard(context@, action_views(legal_actions@), false, action_view(choice)),
{
    let evaluations = discard_evaluations(context, legal_actions);
    let best = choose_best_discard_eval(evaluations, false);
    proof {
        lemma_discard_evaluations(context@, action_views(legal_actions@));
    }
    match best {
        Some(evaluation) => Some(evaluation.action),
        None => None,
    }
}

/// Chooses a best discard among those that are safe against a riichi player.
pub fn choose_betaori_discard(context: &RuleContext, legal_actions: &[Action]) -> (choice: Option<
    Action,
>)
    requires
        discards_drawable(context@, action_views(legal_actions@)),
    ensures
        is_best_discard(context@, action_views(legal_actions@), true, action_view(choice)),
{
    let evaluations = discard_evaluations(context, legal_actions);
    let ghost all = discard_views(evaluations@);
    let mut candidates: Vec<DiscardEvaluation> = Vec::new();
    for evaluation in rest: evaluations
        invariant
            rest.seq() == evaluations@,
            all == discard_views(evaluations@),
            forall|k: int|
                0 <= k < candidates@.len() ==> all.contains(#[trigger] candidates@[k]@)
                    && candidates@[k]@.safe_against_riichi_count > 0,
            forall|j: int|
                0 <= j < rest.index() && #[trigger] all[j].safe_against_riichi_count > 0
                    ==> discard_views(candidates@).contains(all[j]),
    {
        let ghost before = candidates@;
        assert(all[rest.index()] == evaluation@);
        if evaluation.safe_against_riichi_count > 0 {
            candidates.push(evaluation);
            assert(discard_views(candidates@) =~= discard_views(before).push(evaluation@));
            assert forall|j: int|
                0 <= j < rest.index() + 1 && #[trigger] all[j].safe_against_riichi_count
                    > 0 implies discard_views(candidates@).contains(all[j]) by {
                let views = discard_views(candidates@);
                if j < rest.index() {
                    let k = discard_views(before).index_of(all[j]);
                    assert(views[k] == all[j]);
                } else {
                    assert(views[views.len() - 1] == all[j]);
                }
            }
        }
    }
    let ghost safe = discard_views(candidates@);
    let best = choose_best_discard_eval(candidates, true);
    proof {
        let actions = action_views(legal_actions@);
        lemma_discard_evaluations(context@, actions);
        lemma_safe_choice(context@, actions, all, safe, discard_view(best));
    }
    match best {
        Some(evaluation) => Some(evaluation.action),
        None => None,
    }
}

/// A best one of the safe evaluations is a best safe discard.
proof fn lemma_safe_choice(
    context: RuleContextView,
    actions: Seq<ActionView>,
    all: Seq<DiscardView>,
    safe: Seq<DiscardView>,
    best: Option<DiscardView>,
)
    requires
        all == discard_evaluations_of(context, actions),
        forall|k: int|
            0 <= k < safe.len() ==> all.contains(#[trigger] safe[k])
                && safe[k].safe_against_riichi_count > 0,
        forall|j: int|
            0 <= j < all.len() && #[trigger] all[j].safe_against_riichi_count > 0 ==> safe.contains(
                all[j],
            ),
        is_best_discard_eval(safe, true, best),
    ensures
        is_best_discard(
            context,
            actions,
            true,
            match best {
                Some(b) => Some(b.action),
                None => None,
            },
        ),
{
    lemma_discard_evaluations(context, actions);
    assert forall|i: int|
        0 <= i < actions.len() && discard_candidate(
            context,
            #[trigger] actions[i],
            true,
        ) implies safe.contains(discard_evaluation(context, actions[i])) by {
        let j = all.index_of(discard_evaluation(context, actions[i]));
        assert(all[j].safe_against_riichi_count > 0);
    }
    match best {
        Some(b) => {
            let k = safe.index_of(b);
            assert(safe[k] == b);
            let j = all.index_of(b);
            assert(all[j] == b);
            assert forall|i: int|
                0 <= i < actions.len() && discard_candidate(
                    context,
                    #[trigger] actions[i],
                    true,
                ) implies !better_discard(
                discard_evaluation(context, actions[i]),
                discard_evaluation(context, b.action),
                true,
            ) by {
                let m = safe.index_of(discard_evaluation(context, actions[i]));
                assert(safe[m] == discard_evaluation(context, actions[i]));
            }
        },
        None => {},
    }
}

/// The measure of what a call leaves of the hand.
pub open spec fn shanten_after_call(context: RuleContextView, action: ActionView) -> i32 {
    shanten_number(hand_after_call(context.self_hand, action))
}

/// Measures what a call leaves of the hand.
fn measure_call(context: &RuleContext, action: &Action) -> (shanten: i32)
    ensures
        shanten == shanten_after_call(context@, action@),
{
    let new_hand = hand_after_call_action(context.self_hand(), action);
    proof {
        lemma_call_measurable(context@.self_hand, action@);
    }
    calculate_shanten(new_hand.as_slice())
}

/// Whether the rules consider a kan of the player's own: it does not set the hand back.
pub open spec fn kan_candidate(context: RuleContextView, action: ActionView) -> bool {
    &&& action.action_type == ActionType::Ankan || action.action_type == ActionType::Kakan
    &&& shanten_after_call(context, action) <= context.current_shanten
}

/// Whether the rules consider a kan on another player's discard: it does not set the hand back.
pub open spec fn daiminkan_candidate(context: RuleContextView, action: ActionView) -> bool {
    &&& action.action_type == ActionType::Daiminkan
    &&& shanten_after_call(context, action) <= context.current_shanten
}

/// Whether the rules consider a pon of a scoring kind: it brings the hand closer to ready.
pub open spec fn yakuhai_pon_candidate(context: RuleContextView, action: ActionView) -> bool {
    &&& action.action_type == ActionType::Pon
    &&& action.tile matches Some(tile)
    &&& context.yakuhai_kinds.contains(tile / 4)
    &&& shanten_after_call(context, action) < context.current_shanten
}

/// Whether the rules consider an open call once the hand scores anyway: it brings the hand closer
/// to ready.
pub open spec fn open_meld_candidate(context: RuleContextView, action: ActionView) -> bool {
    &&& action.action_type == ActionType::Chi || action.action_type == ActionType::Pon
    &&& shanten_after_call(context, action) < context.current_shanten
}

/// Whether every wanted call among the actions leaves a hand that can take a tile.
pub open spec fn calls_drawable(
    context: RuleContextView,
    actions: Seq<ActionView>,
    wanted: spec_fn(ActionView) -> bool,
) -> bool {
    forall|i: int|
        0 <= i < actions.len() && wanted(#[trigger] actions[i]) ==> drawable(
            hand_after_call(context.self_hand, actions[i]),
        )
}

/// Whether a choice is one of the wanted actions; there is no choice only where there is none.
pub open spec fn is_any_such(
    actions: Seq<ActionView>,
    wanted: spec_fn(ActionView) -> bool,
    choice: Option<ActionView>,
) -> bool {
    match choice {
        Some(chosen) => actions.contains(chosen) && wanted(chosen),
        None => forall|i: int| 0 <= i < actions.len() ==> !wanted(#[trigger] actions[i]),
    }
}

/// What a call leaves of the hand.
pub open spec fn call_evaluation(context: RuleContextView, action: ActionView) -> CallView {
    CallView {
        action,
        shanten: shanten_after_call(context, action) as int,
        ukeire: ukeire(
            hand_after_call(context.self_hand, action),
            context.visible_tiles,
        ) as int,
    }
}

/// Whether a choice is a best one of the wanted calls: none of them is better. There is no choice
/// only where there is no wanted call.
pub open spec fn is_best_call(
    context: RuleContextView,
    actions: Seq<ActionView>,
    wanted: spec_fn(ActionView) -> bool,
    choice: Option<ActionView>,
) -> bool {
    &&& is_any_such(actions, wanted, choice)
    &&& choice matches Some(chosen) ==> forall|i: int|
        0 <= i < actions.len() && wanted(#[trigger] actions[i]) ==> !better_call(
            call_evaluation(context, actions[i]),
            call_evaluation(context, chosen),
        )
}

/// Chooses by chance among the kans of the player's own that do not set the hand back.
pub fn choose_kan_action(context: &RuleContext, legal_actions: &[Action]) -> (choice: Option<
    Action,
>)
    ensures
        is_any_such(
            action_views(legal_actions@),
            |a: ActionView| kan_candidate(context@, a),
            action_view(choice),
        ),
{
    let ghost actions = action_views(legal_actions@);
    let mut candidates: Vec<Action> = Vec::new();
    let mut i: usize = 0;
    while i < legal_actions.len()
        invariant
            actions == action_views(legal_actions@),
            i <= legal_actions@.len(),
            forall|k: int|
                0 <= k < candidates@.len() ==> actions.contains(#[trigger] candidates@[k]@)
                    && kan_candidate(context@, candidates@[k]@),
            forall|j: int|
                0 <= j < i && kan_candidate(context@, #[trigger] actions[j]) ==> candidates@.len()
                    > 0,
        decreases legal_actions.len() - i,
    {
        let action = &legal_actions[i];
        assert(actions[i as int] == action@);
        if matches!(action.action_type, ActionType::Ankan | ActionType::Kakan) && measure_call(
            context,
            action,
        ) <= context.current_shanten() {
            candidates.push(action.clone());
        }
        i = i + 1;
    }
    choose_random(candidates)
}

/// Chooses by chance among the kans on another player's discard that do not set the hand back.
pub fn choose_daiminkan_action(context: &RuleContext, legal_actions: &[Action]) -> (choice: Option<
    Action,
>)
    ensures
        is_any_such(
            action_views(legal_actions@),
            |a: ActionView| daiminkan_candidate(context@, a),
            action_view(choice),
        ),
{
    let ghost actions = action_views(legal_actions@);
    let mut candidates: Vec<Action> = Vec::new();
    let mut i: usize = 0;
    while i < legal_actions.len()
        invariant
            actions == action_views(legal_actions@),
            i <= legal_actions@.len(),
            forall|k: int|
                0 <= k < candidates@.len() ==> actions.contains(#[trigger] candidates@[k]@)
                    && daiminkan_candidate(context@, candidates@[k]@),
            forall|j: int|
                0 <= j < i && daiminkan_candidate(context@, #[trigger] actions[j])
                    ==> candidates@.len() > 0,
        decreases legal_actions.len() - i,
    {
        let action = &legal_actions[i];
        assert(actions[i as int] == action@);
        if matches!(action.action_type, ActionType::Daiminkan) && measure_call(context, action)
            <= context.current_shanten() {
            candidates.push(action.clone());
        }
        i = i + 1;
    }
    choose_random(candidates)
}

/// Evaluates a call that brings the hand closer to ready.
pub fn evaluate_call(context: &RuleContext, action: &Action) -> (evaluation: Option<CallEvaluation>)
    requires
        shanten_after_call(context@, action@) < context@.current_shanten ==> drawable(
            hand_after_call(context@.self_hand, action@),
        ),
    ensures
        call_view(evaluation) == if shanten_after_call(context@, action@)
            < context@.current_shanten {
            Some(call_evaluation(context@, action@))
        } else {
            None
        },
{
    let new_hand = hand_after_call_action(context.self_hand(), action);
    proof {
        lemma_call_measurable(context@.self_hand, action@);
    }
    let new_shanten = calculate_shanten(new_hand.as_slice());
    if new_shanten < context.current_shanten() {
        Some(
            CallEvaluation {
                action: action.clone(),
                shanten: new_shanten,
                ukeire: calculate_ukeire(new_hand.as_slice(), context.visible_tiles()),
            },
        )
    } else {
        None
    }
}

/// A best one of the evaluations of the wanted calls is a best wanted call.
proof fn lemma_call_choice(
    context: RuleContextView,
    actions: Seq<ActionView>,
    wanted: spec_fn(ActionView) -> bool,
    evaluations: Seq<CallView>,
    best: Option<CallView>,
)
    requires
        evaluates_wanted(context, actions, wanted, evaluations, actions.len() as int),
        is_best_call_eval(evaluations, best),
    ensures
        is_best_call(
            context,
            actions,
            wanted,
            match best {
                Some(b) => Some(b.action),
                None => None,
            },
        ),
{
    if let Some(b) = best {
        let k = evaluations.index_of(b);
        assert(evaluations[k] == b);
        assert forall|i: int| 0 <= i < actions.len() && wanted(#[trigger] actions[i]) implies !better_call(
            call_evaluation(context, actions[i]),
            call_evaluation(context, b.action),
        ) by {
            let m = evaluations.index_of(call_evaluation(context, actions[i]));
            assert(evaluations[m] == call_evaluation(context, actions[i]));
        }
    }
}

/// Whether a list holds the evaluations of wanted calls alone, and those of all wanted calls among
/// the first `count` actions.
spec fn evaluates_wanted(
    context: RuleContextView,
    actions: Seq<ActionView>,
    wanted: spec_fn(ActionView) -> bool,
    evaluations: Seq<CallView>,
    count: int,
) -> bool {
    &&& forall|k: int|
        0 <= k < evaluations.len() ==> {
            let evaluation = #[trigger] evaluations[k];
            &&& actions.contains(evaluation.action)
            &&& wanted(evaluation.action)
            &&& evaluation == call_evaluation(context, evaluation.action)
        }
    &&& forall|i: int|
        0 <= i < count && wanted(#[trigger] actions[i]) ==> evaluations.contains(
            call_evaluation(context, actions[i]),
        )
}

proof fn lemma_evaluates_one_more(
    context: RuleContextView,
    actions: Seq<ActionView>,
    wanted: spec_fn(ActionView) -> bool,
    evaluations: Seq<CallView>,
    count: int,
)
    requires
        0 <= count < actions.len(),
        evaluates_wanted(context, actions, wanted, evaluations, count),
    ensures
        wanted(actions[count]) ==> evaluates_wanted(
            context,
            actions,
            wanted,
            evaluations.push(call_evaluation(context, actions[count])),
            count + 1,
        ),
        !wanted(actions[count]) ==> evaluates_wanted(
            context,
            actions,
            wanted,
            evaluations,
            count + 1,
        ),
{
    if wanted(actions[count]) {
        let added = call_evaluation(context, actions[count]);
        let more = evaluations.push(added);
        assert forall|i: int| 0 <= i < count + 1 && wanted(#[trigger] actions[i]) implies more.contains(
            call_evaluation(context, actions[i]),
        ) by {
            if i < count {
                let k = evaluations.index_of(call_evaluation(context, actions[i]));
                assert(more[k] == evaluations[k]);
            } else {
                assert(more[more.len() - 1] == added);
            }
        }
    }
}

/// Chooses a best pon of a scoring kind.
pub fn choose_yakuhai_pon_action(context: &RuleContext, legal_actions: &[Action]) -> (choice: Option<
    Action,
>)
    requires
        calls_drawable(
            context@,
            action_views(legal_actions@),
            |a: ActionView| yakuhai_pon_candidate(context@, a),
        ),
    ensures
        is_best_call(
            context@,
            action_views(legal_actions@),
            |a: ActionView| yakuhai_pon_candidate(context@, a),
            action_view(choice),
        ),
{
    let ghost actions = action_views(legal_actions@);
    let ghost wanted = |a: ActionView| yakuhai_pon_candidate(context@, a);
    let mut candidates: Vec<CallEvaluation> = Vec::new();
    let mut i: usize = 0;
    while i < legal_actions.len()
        invariant
            calls_drawable(context@, actions, wanted),
            actions == action_views(legal_actions@),
            wanted == |a: ActionView| yakuhai_pon_candidate(context@, a),
            i <= legal_actions@.len(),
            evaluates_wanted(context@, actions, wanted, call_views(candidates@), i as int),
        decreases legal_actions.len() - i,
    {
        let action = &legal_actions[i];
        assert(actions[i as int] == action@);
        proof {
            lemma_evaluates_one_more(context@, actions, wanted, call_views(candidates@), i as int);
        }
        let scoring = match action.tile {
            Some(tile) => context.is_yakuhai_tile(tile / 4),
            None => false,
        };
        if action.action_type == ActionType::Pon && scoring {
            if let Some(evaluation) = evaluate_call(context, action) {
                let ghost before = candidates@;
                candidates.push(evaluation);
                assert(call_views(candidates@) =~= call_views(before).push(evaluation@));
            }
        }
        i = i + 1;
    }
    let ghost evaluations = call_views(candidates@);
    let best = choose_best_call_eval(candidates);
    proof {
        lemma_call_choice(context@, actions, wanted, evaluations, call_view(best));
    }
    match best {
        Some(evaluation) => Some(evaluation.action),
        None => None,
    }
}

/// Chooses a best chi or pon that brings the hand closer to ready.
pub fn choose_improving_open_meld_action(
    context: &RuleContext,
    legal_actions: &[Action],
) -> (choice: Option<Action>)
    requires
        calls_drawable(
            context@,
            action_views(legal_actions@),
            |a: ActionView| open_meld_candidate(context@, a),
        ),
    ensures
        is_best_call(
            context@,
            action_views(legal_actions@),
            |a: ActionView| open_meld_candidate(context@, a),
            action_view(choice),
        ),
{
    let ghost actions = action_views(legal_actions@);
    let ghost wanted = |a: ActionView| open_meld_candidate(context@, a);
    let mut candidates: Vec<CallEvaluation> = Vec::new();
    let mut i: usize = 0;
    while i < legal_actions.len()
        invariant
            calls_drawable(context@, actions, wanted),
            actions == action_views(legal_actions@),
            wanted == |a: ActionView| open_meld_candidate(context@, a),
            i <= legal_actions@.len(),
            evaluates_wanted(context@, actions, wanted, call_views(candidates@), i as int),
        decreases legal_actions.len() - i,
    {
        let action = &legal_actions[i];
        assert(actions[i as int] == action@);
        proof {
            lemma_evaluates_one_more(context@, actions, wanted, call_views(candidates@), i as int);
        }
        if matches!(action.action_type, ActionType::Chi | ActionType::Pon) {
            if let Some(evaluation) = evaluate_call(context, action) {
                let ghost before = candidates@;
                candidates.push(evaluation);
                assert(call_views(candidates@) =~= call_views(before).push(evaluation@));
            }
        }
        i = i + 1;
    }
    let ghost evaluations = call_views(candidates@);
    let best = choose_best_call_eval(candidates);
    proof {
        lemma_call_choice(context@, actions, wanted, evaluations, call_view(best));
    }
    match best {
        Some(evaluation) => Some(evaluation.action),
        None => None,
    }
}

/// Whether there is a wanted action.
pub open spec fn has_such(
    actions: Seq<ActionView>,
    wanted: spec_fn(ActionView) -> bool,
) -> bool {
    exists|i: int| 0 <= i < actions.len() && wanted(#[trigger] actions[i])
}

/// Whether the hand calls for defence: an opponent has declared riichi and the hand is at least two
/// tiles from ready.
pub open spec fn defends(context: RuleContextView) -> bool {
    context.any_opponent_riichi() && context.current_shanten >= 2
}

/// Whether the rules may choose an action where no win and no riichi is possible. In this order, as
/// far as there is one to choose: in defence a best safe discard; a kan of the player's own; a best
/// pon of a scoring kind; once the hand scores, a best open call and then a kan on a discard; a
/// best discard; the first pass; the first action.
pub open spec fn is_weighed_choice(
    context: RuleContextView,
    actions: Seq<ActionView>,
    choice: Option<ActionView>,
) -> bool {
    if defends(context) && has_such(actions, |a: ActionView| discard_candidate(context, a, true)) {
        is_best_discard(context, actions, true, choice)
    } else if has_such(actions, |a: ActionView| kan_candidate(context, a)) {
        is_any_such(actions, |a: ActionView| kan_candidate(context, a), choice)
    } else if has_such(actions, |a: ActionView| yakuhai_pon_candidate(context, a)) {
        is_best_call(context, actions, |a: ActionView| yakuhai_pon_candidate(context, a), choice)
    } else if context.secured_yakuhai() && has_such(
        actions,
        |a: ActionView| open_meld_candidate(context, a),
    ) {
        is_best_call(context, actions, |a: ActionView| open_meld_candidate(context, a), choice)
    } else if context.secured_yakuhai() && has_such(
        actions,
        |a: ActionView| daiminkan_candidate(context, a),
    ) {
        is_any_such(actions, |a: ActionView| daiminkan_candidate(context, a), choice)
    } else if has_such(actions, |a: ActionView| discard_candidate(context, a, false)) {
        is_best_discard(context, actions, false, choice)
    } else if has_such(actions, |a: ActionView| is_pass(a)) {
        choice == first_such(actions, |a: ActionView| is_pass(a))
    } else {
        choice == first_action(actions)
    }
}

/// Whether the engine can measure every hand that the rules come to weigh: in defence what each
/// discard leaves of the player's hand; and then, until there is an action to choose, what the pons
/// of a scoring kind, once the hand scores the open calls, and at last the discards leave.
pub open spec fn can_weigh(context: RuleContextView, actions: Seq<ActionView>) -> bool {
    &&& defends(context) ==> discards_drawable(context, actions)
    &&& {
        ||| defends(context) && has_such(
            actions,
            |a: ActionView| discard_candidate(context, a, true),
        )
        ||| has_such(actions, |a: ActionView| kan_candidate(context, a))
        ||| {
            &&& calls_drawable(context, actions, |a: ActionView| yakuhai_pon_candidate(context, a))
            &&& {
                ||| has_such(actions, |a: ActionView| yakuhai_pon_candidate(context, a))
                ||| can_weigh_rest(context, actions)
            }
        }
    }
}

/// Whether the engine can measure every hand that the rules come to weigh where there is no safe
/// discard in defence, no kan of the player's own and no pon of a scoring kind to choose.
pub open spec fn can_weigh_rest(context: RuleContextView, actions: Seq<ActionView>) -> bool {
    if context.secured_yakuhai() {
        &&& calls_drawable(context, actions, |a: ActionView| open_meld_candidate(context, a))
        &&& {
            ||| has_such(actions, |a: ActionView| open_meld_candidate(context, a))
            ||| has_such(actions, |a: ActionView| daiminkan_candidate(context, a))
            ||| discards_drawable(context, actions)
        }
    } else {
        discards_drawable(context, actions)
    }
}

/// Chooses an action where no win and no riichi is possible.
pub fn choose_weighed_action(context: &RuleContext, legal_actions: &[Action]) -> (choice: Option<
    Action,
>)
    requires
        can_weigh(context@, action_views(legal_actions@)),
    ensures
        is_weighed_choice(context@, action_views(legal_actions@), action_view(choice)),
{
    let ghost c = context@;
    let ghost actions = action_views(legal_actions@);
    if context.any_opponent_riichi() && context.current_shanten() >= 2 {
        let discard = choose_betaori_discard(context, legal_actions);
        if discard.is_some() {
            proof {
                lemma_contained(actions, |a: ActionView| discard_candidate(c, a, true), discard->0@);
            }
            return discard;
        }
    }
    let kan = choose_kan_action(context, legal_actions);
    if kan.is_some() {
        proof {
            lemma_contained(actions, |a: ActionView| kan_candidate(c, a), kan->0@);
        }
        return kan;
    }
    let pon = choose_yakuhai_pon_action(context, legal_actions);
    if pon.is_some() {
        proof {
            lemma_contained(actions, |a: ActionView| yakuhai_pon_candidate(c, a), pon->0@);
        }
        return pon;
    }
    if context.has_secured_yakuhai() {
        let meld = choose_improving_open_meld_action(context, legal_actions);
        if meld.is_some() {
            proof {
                lemma_contained(actions, |a: ActionView| open_meld_candidate(c, a), meld->0@);
            }
            return meld;
        }
        let daiminkan = choose_daiminkan_action(context, legal_actions);
        if daiminkan.is_some() {
            proof {
                lemma_contained(actions, |a: ActionView| daiminkan_candidate(c, a), daiminkan->0@);
            }
            return daiminkan;
        }
    }
    let discard = choose_best_discard(context, legal_actions);
    if discard.is_some() {
        proof {
            lemma_contained(actions, |a: ActionView| discard_candidate(c, a, false), discard->0@);
        }
        return discard;
    }
    let pass = find_pass(legal_actions);
    proof {
        law_first_such(actions, |a: ActionView| is_pass(a));
    }
    if pass.is_some() {
        proof {
            lemma_contained(actions, |a: ActionView| is_pass(a), pass->0@);
        }
        return pass;
    }
    copy_first(legal_actions)
}

pub(crate) proof fn lemma_contained(
    actions: Seq<ActionView>,
    wanted: spec_fn(ActionView) -> bool,
    action: ActionView,
)
    requires
        actions.contains(action),
        wanted(action),
    ensures
        has_such(actions, wanted),
{
    let i = actions.index_of(action);
    assert(wanted(actions[i]));
}

/// Whether the rules weigh the hand: there are actions, and no win and no riichi among them.
pub open spec fn weighs_hand(actions: Seq<ActionView>) -> bool {
    &&& actions.len() > 0
    &&& !has_such(actions, |a: ActionView| is_win(a))
    &&& !has_such(actions, |a: ActionView| is_riichi(a))
}

/// Whether the rules may choose an action: none only where there is none; a win, or else riichi, as
/// soon as it is possible; and otherwise by weighing the hand.
pub open spec fn is_choice(observation: ObservationView, choice: Option<ActionView>) -> bool {
    let actions = observation.legal_actions;
    if actions.len() == 0 {
        choice is None
    } else if has_such(actions, |a: ActionView| is_win(a)) {
        choice == first_such(actions, |a: ActionView| is_win(a))
    } else if has_such(actions, |a: ActionView| is_riichi(a)) {
        choice == first_such(actions, |a: ActionView| is_riichi(a))
    } else {
        is_weighed_choice(context_of(observation), actions, choice)
    }
}

/// Whether the rules can choose an action: where they weigh the hand, the player has a seat, the
/// winds can be numbered as kinds, and the engine can measure the hands.
pub open spec fn can_choose(observation: ObservationView) -> bool {
    weighs_hand(observation.legal_actions) ==> {
        &&& observation.player_id < 4
        &&& winds_in_range(observation)
        &&& measurable(observation.hands[observation.player_id as int])
        &&& can_weigh(context_of(observation), observation.legal_actions)
    }
}

/// Chooses an action for the player who observes.
pub fn choose_action(observation: &Observation) -> (choice: Option<Action>)
    requires
        can_choose(observation@),
    ensures
        is_choice(observation@, action_view(choice)),
{
    let legal_actions = observation.legal_actions.as_slice();
    let ghost actions = observation@.legal_actions;
    assert(actions == action_views(legal_actions@));
    if legal_actions.len() == 0 {
        return None;
    }
    proof {
        law_first_such(actions, |a: ActionView| is_win(a));
        law_first_such(actions, |a: ActionView| is_riichi(a));
    }
    let win = find_win(legal_actions);
    if win.is_some() {
        proof {
            lemma_contained(actions, |a: ActionView| is_win(a), win->0@);
        }
        return win;
    }
    let riichi = find_riichi(legal_actions);
    if riichi.is_some() {
        proof {
            lemma_contained(actions, |a: ActionView| is_riichi(a), riichi->0@);
        }
        return riichi;
    }
    let context = RuleContext::new(observation);
    choose_weighed_action(&context, legal_actions)
}

/// Whether every discard among the actions leaves a hand that can take a tile.
fn check_discards(context: &RuleContext, legal_actions: &[Action]) -> (drawable: bool)
    ensures
        drawable == discards_drawable(context@, action_views(legal_actions@)),
{
    let ghost actions = action_views(legal_actions@);
    let mut i: usize = 0;
    while i < legal_actions.len()
        invariant
            actions == action_views(legal_actions@),
            i <= legal_actions@.len(),
            forall|j: int|
                0 <= j < i && is_discard(context@, #[trigger] actions[j]) ==> drawable(
                    hand_after_discard(context@, actions[j]),
                ),
        decreases legal_actions.len() - i,
    {
        let action = &legal_actions[i];
        assert(actions[i as int] == action@);
        if action.action_type == ActionType::Discard {
            if let Some(tile) = action.tile {
                let mut rest = slice_to_vec(context.self_hand());
                if remove_one_tile(&mut rest, tile as u32).is_some() && !is_drawable(
                    rest.as_slice(),
                ) {
                    return false;
                }
            }
        }
        i = i + 1;
    }
    true
}

/// Whether a call leaves a hand that can take a tile, unless it does not bring the hand closer to
/// ready.
fn check_call(context: &RuleContext, action: &Action) -> (passes: bool)
    ensures
        passes == (shanten_after_call(context@, action@) < context@.current_shanten ==> drawable(
            hand_after_call(context@.self_hand, action@),
        )),
{
    if measure_call(context, action) < context.current_shanten() {
        is_drawable(hand_after_call_action(context.self_hand(), action).as_slice())
    } else {
        true
    }
}

/// Whether every pon of a scoring kind that the rules consider leaves a hand that can take a tile.
fn check_yakuhai_pons(context: &RuleContext, legal_actions: &[Action]) -> (drawable: bool)
    ensures
        drawable == calls_drawable(
            context@,
            action_views(legal_actions@),
            |a: ActionView| yakuhai_pon_candidate(context@, a),
        ),
{
    let ghost actions = action_views(legal_actions@);
    let mut i: usize = 0;
    while i < legal_actions.len()
        invariant
            actions == action_views(legal_actions@),
            i <= legal_actions@.len(),
            forall|j: int|
                0 <= j < i && yakuhai_pon_candidate(context@, #[trigger] actions[j]) ==> drawable(
                    hand_after_call(context@.self_hand, actions[j]),
                ),
        decreases legal_actions.len() - i,
    {
        let action = &legal_actions[i];
        assert(actions[i as int] == action@);
        let scoring = match action.tile {
            Some(tile) => context.is_yakuhai_tile(tile / 4),
            None => false,
        };
        if action.action_type == ActionType::Pon && scoring && !check_call(context, action) {
            return false;
        }
        i = i + 1;
    }
    true
}

/// Whether every chi and pon that the rules consider leaves a hand that can take a tile.
fn check_open_melds(context: &RuleContext, legal_actions: &[Action]) -> (drawable: bool)
    ensures
        drawable == calls_drawable(
            context@,
            action_views(legal_actions@),
            |a: ActionView| open_meld_candidate(context@, a),
        ),
{
    let ghost actions = action_views(legal_actions@);
    let mut i: usize = 0;
    while i < legal_actions.len()
        invariant
            actions == action_views(legal_actions@),
            i <= legal_actions@.len(),
            forall|j: int|
                0 <= j < i && open_meld_candidate(context@, #[trigger] actions[j]) ==> drawable(
                    hand_after_call(context@.self_hand, actions[j]),
                ),
        decreases legal_actions.len() - i,
    {
        let action = &legal_actions[i];
        assert(actions[i as int] == action@);
        if matches!(action.action_type, ActionType::Chi | ActionType::Pon) && !check_call(
            context,
            action,
        ) {
            return false;
        }
        i = i + 1;
    }
    true
}

/// Whether the engine can measure every hand that the rules come to weigh.
fn check_weighing(context: &RuleContext, legal_actions: &[Action]) -> (passes: bool)
    ensures
        passes == can_weigh(context@, action_views(legal_actions@)),
{
    let ghost c = context@;
    let ghost actions = action_views(legal_actions@);
    if context.any_opponent_riichi() && context.current_shanten() >= 2 {
        if !check_discards(context, legal_actions) {
            return false;
        }
        let discard = choose_betaori_discard(context, legal_actions);
        if discard.is_some() {
            proof {
                lemma_contained(actions, |a: ActionView| discard_candidate(c, a, true), discard->0@);
            }
            return true;
        }
    }
    let kan = choose_kan_action(context, legal_actions);
    if kan.is_some() {
        proof {
            lemma_contained(actions, |a: ActionView| kan_candidate(c, a), kan->0@);
        }
        return true;
    }
    if !check_yakuhai_pons(context, legal_actions) {
        return false;
    }
    let pon = choose_yakuhai_pon_action(context, legal_actions);
    if pon.is_some() {
        proof {
            lemma_contained(actions, |a: ActionView| yakuhai_pon_candidate(c, a), pon->0@);
        }
        return true;
    }
    if context.has_secured_yakuhai() {
        if !check_open_melds(context, legal_actions) {
            return false;
        }
        let meld = choose_improving_open_meld_action(context, legal_actions);
        if meld.is_some() {
            proof {
                lemma_contained(actions, |a: ActionView| open_meld_candidate(c, a), meld->0@);
            }
            return true;
        }
        let daiminkan = choose_daiminkan_action(context, legal_actions);
        if daiminkan.is_some() {
            proof {
                lemma_contained(actions, |a: ActionView| daiminkan_candidate(c, a), daiminkan->0@);
            }
            return true;
        }
    }
    check_discards(context, legal_actions)
}

/// The rules cannot choose an action: the player has no seat, the winds cannot be numbered as
/// kinds, or a hand to be weighed holds more tiles than the engine can measure.
#[derive(Debug, Clone, Copy, PartialEq, Eq, Structural)]
pub struct NotWeighable;

/// Chooses an action for the player who observes, if the rules can.
pub fn choose_action_checked(observation: &Observation) -> (choice: Result<
    Option<Action>,
    NotWeighable,
>)
    ensures
        choice matches Ok(c) ==> can_choose(observation@) && is_choice(
            observation@,
            action_view(c),
        ),
        choice is Err ==> !can_choose(observation@),
{
    let legal_actions = observation.legal_actions.as_slice();
    let ghost actions = observation@.legal_actions;
    assert(actions == action_views(legal_actions@));
    proof {
        law_first_such(actions, |a: ActionView| is_win(a));
        law_first_such(actions, |a: ActionView| is_riichi(a));
    }
    let win = find_win(legal_actions);
    let riichi = find_riichi(legal_actions);
    proof {
        if win is Some {
            lemma_contained(actions, |a: ActionView| is_win(a), win->0@);
        }
        if riichi is Some {
            lemma_contained(actions, |a: ActionView| is_riichi(a), riichi->0@);
        }
    }
    if legal_actions.len() > 0 && win.is_none() && riichi.is_none() {
        assert(weighs_hand(actions));
        if observation.player_id >= 4 || observation.oya > observation.player_id + 4
            || observation.round_wind > 255 - EAST {
            return Err(NotWeighable);
        }
        let hand = observation.hands[observation.player_id as usize].as_slice();
        assert(hand@ == observation@.hands[observation@.player_id as int]);
        if !is_measurable(hand) {
            return Err(NotWeighable);
        }
        if !check_weighing(&RuleContext::new(observation), legal_actions) {
            return Err(NotWeighable);
        }
    }
    Ok(choose_action(observation))
}

/// With a playable hand, which every hand dealt in a game is, the rules can choose an action.
pub proof fn law_playable_hand_is_weighable(observation: ObservationView)
    requires
        observation.player_id < 4,
        winds_in_range(observation),
        playable(observation.hands[observation.player_id as int]),
    ensures
        can_choose(observation),
{
    let context = context_of(observation);
    let actions = observation.legal_actions;
    law_playable_hand_is_drawable(context.self_hand);
    assert(discards_drawable(context, actions));
    assert forall|i: int| 0 <= i < actions.len() && shanten_after_call(
        context,
        #[trigger] actions[i],
    ) < context.current_shanten implies drawable(
        hand_after_call(context.self_hand, actions[i]),
    ) by {
        assert(hand_after_call(context.self_hand, actions[i]) != context.self_hand);
    }
}

/// The rules choose a legal action, and they choose one whenever there is one.
pub proof fn law_choice_is_legal(observation: ObservationView, choice: Option<ActionView>)
    requires
        is_choice(observation, choice),
    ensures
        choice is Some <==> observation.legal_actions.len() > 0,
        choice matches Some(a) ==> observation.legal_actions.contains(a),
{
    let actions = observation.legal_actions;
    let context = context_of(observation);
    law_first_such(actions, |a: ActionView| is_win(a));
    law_first_such(actions, |a: ActionView| is_riichi(a));
    law_first_such(actions, |a: ActionView| is_pass(a));
    if actions.len() > 0 && weighs_hand(actions) {
        lemma_weighed_choice_is_legal(context, actions, choice);
    }
}

proof fn lemma_weighed_choice_is_legal(
    context: RuleContextView,
    actions: Seq<ActionView>,
    choice: Option<ActionView>,
)
    requires
        actions.len() > 0,
        is_weighed_choice(context, actions, choice),
    ensures
        choice matches Some(a) && actions.contains(a),
{
    law_first_such(actions, |a: ActionView| is_pass(a));
}

/// A possible win is never passed over, and riichi only for a win.
pub proof fn law_choice_prefers_win_and_riichi(
    observation: ObservationView,
    choice: Option<ActionView>,
    legal: ActionView,
)
    requires
        is_choice(observation, choice),
        observation.legal_actions.contains(legal),
    ensures
        is_win(legal) ==> (choice matches Some(a) && is_win(a)),
        is_riichi(legal) ==> (choice matches Some(a) && (is_win(a) || is_riichi(a))),
{
    let actions = observation.legal_actions;
    law_first_such(actions, |a: ActionView| is_win(a));
    law_first_such(actions, |a: ActionView| is_riichi(a));
    if is_win(legal) {
        lemma_contained(actions, |a: ActionView| is_win(a), legal);
    }
    if is_riichi(legal) {
        lemma_contained(actions, |a: ActionView| is_riichi(a), legal);
    }
}

/// In defence the rules discard a tile that a riichi opponent has discarded, if they may, and no
/// other legal discard is safe against more riichi opponents.
pub proof fn law_defence_discards_the_safest_tile(
    observation: ObservationView,
    choice: Option<ActionView>,
    legal: ActionView,
)
    requires
        is_choice(observation, choice),
        weighs_hand(observation.legal_actions),
        defends(context_of(observation)),
        observation.legal_actions.contains(legal),
        discard_candidate(context_of(observation), legal, true),
    ensures
        choice matches Some(a) && discard_candidate(context_of(observation), a, true)
            && discard_evaluation(context_of(observation), a).safe_against_riichi_count
            >= discard_evaluation(context_of(observation), legal).safe_against_riichi_count,
{
    let actions = observation.legal_actions;
    let context = context_of(observation);
    lemma_contained(actions, |a: ActionView| discard_candidate(context, a, true), legal);
    let i = actions.index_of(legal);
    assert(actions[i] == legal);
}

/// Whether the action is a call.
pub open spec fn is_call(action: ActionView) -> bool {
    ||| action.action_type == ActionType::Chi
    ||| action.action_type == ActionType::Pon
    ||| action.action_type == ActionType::Daiminkan
    ||| action.action_type == ActionType::Ankan
    ||| action.action_type == ActionType::Kakan
}

/// Where the player may pass or discard, the rules make no call that sets the hand back; and an
/// open call, other than a pon of a scoring kind, only for a hand that scores anyway.
pub proof fn law_calls_never_set_the_hand_back(
    observation: ObservationView,
    choice: Option<ActionView>,
    chosen: ActionView,
    alternative: ActionView,
)
    requires
        is_choice(observation, choice),
        choice == Some(chosen),
        observation.legal_actions.contains(alternative),
        is_pass(alternative) || discard_candidate(context_of(observation), alternative, false),
        is_call(chosen),
    ensures
        shanten_after_call(context_of(observation), chosen) <= context_of(
            observation,
        ).current_shanten,
        chosen.action_type == ActionType::Chi || chosen.action_type == ActionType::Daiminkan
            ==> context_of(observation).secured_yakuhai(),
        chosen.action_type == ActionType::Pon ==> context_of(observation).secured_yakuhai()
            || yakuhai_pon_candidate(context_of(observation), chosen),
{
    let actions = observation.legal_actions;
    let context = context_of(observation);
    law_first_such(actions, |a: ActionView| is_win(a));
    law_first_such(actions, |a: ActionView| is_riichi(a));
    law_first_such(actions, |a: ActionView| is_pass(a));
    if is_pass(alternative) {
        lemma_contained(actions, |a: ActionView| is_pass(a), alternative);
    } else {
        lemma_contained(
            actions,
            |a: ActionView| discard_candidate(context, a, false),
            alternative,
        );
    }
    assert(actions.len() > 0);
}

} // verus!
