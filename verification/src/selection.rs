//! Searching the legal actions by type.

use crate::engine::{action_view, action_views, Action, ActionType, ActionView};
use vstd::prelude::*;

verus! {

/// Whether the first wanted action stands at the position.
pub open spec fn is_first_such(
    actions: Seq<ActionView>,
    wanted: spec_fn(ActionView) -> bool,
    position: int,
) -> bool {
    &&& 0 <= position < actions.len()
    &&& wanted(actions[position])
    &&& forall|i: int| 0 <= i < position ==> !wanted(#[trigger] actions[i])
}

/// The first wanted action, if there is one.
pub open spec fn first_such(
    actions: Seq<ActionView>,
    wanted: spec_fn(ActionView) -> bool,
) -> Option<ActionView> {
    if exists|position: int| is_first_such(actions, wanted, position) {
        Some(actions[choose|position: int| is_first_such(actions, wanted, position)])
    } else {
        None
    }
}

proof fn lemma_first_such_at(
    actions: Seq<ActionView>,
    wanted: spec_fn(ActionView) -> bool,
    position: int,
)
    requires
        is_first_such(actions, wanted, position),
    ensures
        first_such(actions, wanted) == Some(actions[position]),
{
    let chosen = choose|p: int| is_first_such(actions, wanted, p);
    assert(is_first_such(actions, wanted, chosen));
    if chosen < position {
        assert(!wanted(actions[chosen]));
    }
    if position < chosen {
        assert(!wanted(actions[position]));
    }
}

/// The first wanted action is a wanted action of the list, and there is one exactly if the list
/// holds a wanted action.
pub proof fn law_first_such(actions: Seq<ActionView>, wanted: spec_fn(ActionView) -> bool)
    ensures
        first_such(actions, wanted) matches Some(a) ==> wanted(a) && actions.contains(a),
        first_such(actions, wanted) is None <==> forall|i: int|
            0 <= i < actions.len() ==> !wanted(#[trigger] actions[i]),
    decreases actions.len(),
{
    if forall|i: int| 0 <= i < actions.len() ==> !wanted(#[trigger] actions[i]) {
        assert forall|p: int| !is_first_such(actions, wanted, p) by {
            if is_first_such(actions, wanted, p) {
                assert(wanted(actions[p]));
            }
        }
    } else {
        let found = choose|i: int| 0 <= i < actions.len() && wanted(#[trigger] actions[i]);
        let position = lemma_earliest(actions, wanted, found);
        lemma_first_such_at(actions, wanted, position);
    }
}

proof fn lemma_earliest(
    actions: Seq<ActionView>,
    wanted: spec_fn(ActionView) -> bool,
    found: int,
) -> (position: int)
    requires
        0 <= found < actions.len(),
        wanted(actions[found]),
    ensures
        is_first_such(actions, wanted, position),
    decreases found,
{
    if exists|i: int| 0 <= i < found && wanted(#[trigger] actions[i]) {
        let earlier = choose|i: int| 0 <= i < found && wanted(#[trigger] actions[i]);
        lemma_earliest(actions, wanted, earlier)
    } else {
        found
    }
}

/// Copies the first action that satisfies the predicate.
pub fn find_action(actions: &[Action], predicate: impl Fn(&Action) -> bool) -> (found: Option<
    Action,
>)
    requires
        forall|action: &Action| call_requires(predicate, (action,)),
    ensures
        match found {
            Some(f) => exists|i: int|
                {
                    &&& 0 <= i < actions@.len()
                    &&& f@ == #[trigger] actions@[i]@
                    &&& call_ensures(predicate, (&actions@[i],), true)
                    &&& forall|j: int|
                        0 <= j < i ==> call_ensures(predicate, (&#[trigger] actions@[j],), false)
                },
            None => forall|j: int|
                0 <= j < actions@.len() ==> call_ensures(
                    predicate,
                    (&#[trigger] actions@[j],),
                    false,
                ),
        },
{
    let mut i: usize = 0;
    while i < actions.len()
        invariant
            forall|action: &Action| call_requires(predicate, (action,)),
            i <= actions@.len(),
            forall|j: int|
                0 <= j < i ==> call_ensures(predicate, (&#[trigger] actions@[j],), false),
        decreases actions.len() - i,
    {
        let action = &actions[i];
        if predicate(action) {
            let copy = action.clone();
            assert(copy@ == actions@[i as int]@);
            return Some(copy);
        }
        i = i + 1;
    }
    None
}

/// Whether the action wins the hand.
pub open spec fn is_win(action: ActionView) -> bool {
    action.action_type == ActionType::Tsumo || action.action_type == ActionType::Ron
}

/// Whether the action declares riichi.
pub open spec fn is_riichi(action: ActionView) -> bool {
    action.action_type == ActionType::Riichi
}

/// Whether the action discards a given tile.
pub open spec fn is_tile_discard(action: ActionView) -> bool {
    action.action_type == ActionType::Discard && action.tile is Some
}

/// Whether the action passes.
pub open spec fn is_pass(action: ActionView) -> bool {
    action.action_type == ActionType::Pass
}

/// A copy of the first wanted action is what [`first_such`] names.
proof fn lemma_found(
    actions: Seq<Action>,
    wanted: spec_fn(ActionView) -> bool,
    found: Option<Action>,
)
    requires
        match found {
            Some(f) => exists|i: int|
                {
                    &&& 0 <= i < actions.len()
                    &&& f@ == #[trigger] actions[i]@
                    &&& wanted(actions[i]@)
                    &&& forall|j: int| 0 <= j < i ==> !wanted(#[trigger] actions[j]@)
                },
            None => forall|j: int| 0 <= j < actions.len() ==> !wanted(#[trigger] actions[j]@),
        },
    ensures
        action_view(found) == first_such(action_views(actions), wanted),
{
    let views = action_views(actions);
    match found {
        Some(f) => {
            let i = choose|i: int|
                {
                    &&& 0 <= i < actions.len()
                    &&& f@ == #[trigger] actions[i]@
                    &&& wanted(actions[i]@)
                    &&& forall|j: int| 0 <= j < i ==> !wanted(#[trigger] actions[j]@)
                };
            assert forall|j: int| 0 <= j < i implies !wanted(#[trigger] views[j]) by {
                assert(views[j] == actions[j]@);
            }
            lemma_first_such_at(views, wanted, i);
        },
        None => {
            assert forall|j: int| 0 <= j < views.len() implies !wanted(#[trigger] views[j]) by {
                assert(views[j] == actions[j]@);
            }
            law_first_such(views, wanted);
        },
    }
}

/// Whether the action discards a given tile.
pub fn is_tsumogiri_discard(action: &Action) -> (yes: bool)
    ensures
        yes == is_tile_discard(action@),
{
    matches!(action.action_type, ActionType::Discard) && action.tile.is_some()
}

/// Copies the first action that wins the hand.
pub fn find_win(actions: &[Action]) -> (found: Option<Action>)
    ensures
        action_view(found) == first_such(action_views(actions@), |a: ActionView| is_win(a)),
{
    let wanted = |action: &Action| -> (yes: bool)
        ensures
            yes == is_win(action@),
    {
        matches!(action.action_type, ActionType::Tsumo | ActionType::Ron)
    };
    let found = find_action(actions, wanted);
    proof {
        lemma_found(actions@, |a: ActionView| is_win(a), found);
    }
    found
}

/// Copies the first action that declares riichi.
pub fn find_riichi(actions: &[Action]) -> (found: Option<Action>)
    ensures
        action_view(found) == first_such(action_views(actions@), |a: ActionView| is_riichi(a)),
{
    let wanted = |action: &Action| -> (yes: bool)
        ensures
            yes == is_riichi(action@),
    {
        matches!(action.action_type, ActionType::Riichi)
    };
    let found = find_action(actions, wanted);
    proof {
        lemma_found(actions@, |a: ActionView| is_riichi(a), found);
    }
    found
}

/// Copies the first action that discards a given tile.
pub fn find_tile_discard(actions: &[Action]) -> (found: Option<Action>)
    ensures
        action_view(found) == first_such(action_views(actions@), |a: ActionView| is_tile_discard(a)),
{
    let wanted = |action: &Action| -> (yes: bool)
        ensures
            yes == is_tile_discard(action@),
    {
        is_tsumogiri_discard(action)
    };
    let found = find_action(actions, wanted);
    proof {
        lemma_found(actions@, |a: ActionView| is_tile_discard(a), found);
    }
    found
}

/// Copies the first action that passes.
pub fn find_pass(actions: &[Action]) -> (found: Option<Action>)
    ensures
        action_view(found) == first_such(action_views(actions@), |a: ActionView| is_pass(a)),
{
    let wanted = |action: &Action| -> (yes: bool)
        ensures
            yes == is_pass(action@),
    {
        matches!(action.action_type, ActionType::Pass)
    };
    let found = find_action(actions, wanted);
    proof {
        lemma_found(actions@, |a: ActionView| is_pass(a), found);
    }
    found
}

/// The first action of a list.
pub open spec fn first_action(actions: Seq<ActionView>) -> Option<ActionView> {
    if actions.len() > 0 {
        Some(actions[0])
    } else {
        None
    }
}

/// Copies the first action of a list.
pub fn copy_first(actions: &[Action]) -> (found: Option<Action>)
    ensures
        action_view(found) == first_action(action_views(actions@)),
{
    if actions.len() > 0 {
        Some(actions[0].clone())
    } else {
        None
    }
}

/// The first action of the list in this order of preference: a win, riichi, a discard, a pass, any
/// action.
pub open spec fn temporary_choice(actions: Seq<ActionView>) -> Option<ActionView> {
    match first_such(actions, |a: ActionView| is_win(a)) {
        Some(a) => Some(a),
        None => match first_such(actions, |a: ActionView| is_riichi(a)) {
            Some(a) => Some(a),
            None => match first_such(actions, |a: ActionView| is_tile_discard(a)) {
                Some(a) => Some(a),
                None => match first_such(actions, |a: ActionView| is_pass(a)) {
                    Some(a) => Some(a),
                    None => first_action(actions),
                },
            },
        },
    }
}

/// Selects an action by its type alone.
pub fn select_temporary_action(possible_actions: &[Action]) -> (selected: Option<Action>)
    ensures
        action_view(selected) == temporary_choice(action_views(possible_actions@)),
{
    let win = find_win(possible_actions);
    if win.is_some() {
        return win;
    }
    let riichi = find_riichi(possible_actions);
    if riichi.is_some() {
        return riichi;
    }
    let discard = find_tile_discard(possible_actions);
    if discard.is_some() {
        return discard;
    }
    let pass = find_pass(possible_actions);
    if pass.is_some() {
        return pass;
    }
    copy_first(possible_actions)
}

/// The selected action is one of the possible actions, and there is one unless there are none.
pub proof fn law_temporary_choice_is_possible(actions: Seq<ActionView>)
    ensures
        temporary_choice(actions) is Some <==> actions.len() > 0,
        temporary_choice(actions) matches Some(a) ==> actions.contains(a),
{
    law_first_such(actions, |a: ActionView| is_win(a));
    law_first_such(actions, |a: ActionView| is_riichi(a));
    law_first_such(actions, |a: ActionView| is_tile_discard(a));
    law_first_such(actions, |a: ActionView| is_pass(a));
}

/// A possible win is never passed over, and riichi only for a win.
pub proof fn law_temporary_choice_prefers_win_and_riichi(
    actions: Seq<ActionView>,
    possible: ActionView,
)
    requires
        actions.contains(possible),
    ensures
        is_win(possible) ==> (temporary_choice(actions) matches Some(a) && is_win(a)),
        is_riichi(possible) ==> (temporary_choice(actions) matches Some(a) && (is_win(a)
            || is_riichi(a))),
{
    law_first_such(actions, |a: ActionView| is_win(a));
    law_first_such(actions, |a: ActionView| is_riichi(a));
    let i = actions.index_of(possible);
    assert(actions[i] == possible);
}

/// The first wanted action is the one that no other wanted action precedes.
pub proof fn law_first_such_is_earliest(
    actions: Seq<ActionView>,
    wanted: spec_fn(ActionView) -> bool,
    position: int,
)
    requires
        0 <= position < actions.len(),
        wanted(actions[position]),
        forall|i: int| 0 <= i < position ==> !wanted(#[trigger] actions[i]),
    ensures
        first_such(actions, wanted) == Some(actions[position]),
{
    lemma_first_such_at(actions, wanted, position);
}

/// What is selected by type: the first tsumo or ron; without one the first riichi; without these
/// the first discard that names its tile; without these the first pass; and without any of them
/// the first action.
pub proof fn law_temporary_choice_by_type(actions: Seq<ActionView>, position: int)
    requires
        0 <= position < actions.len(),
    ensures
        (actions[position].action_type == ActionType::Tsumo || actions[position].action_type
            == ActionType::Ron) && (forall|i: int|
            0 <= i < position ==> (#[trigger] actions[i]).action_type != ActionType::Tsumo
                && actions[i].action_type != ActionType::Ron) ==> temporary_choice(actions) == Some(
            actions[position],
        ),
        actions[position].action_type == ActionType::Riichi && (forall|i: int|
            0 <= i < actions.len() ==> (#[trigger] actions[i]).action_type != ActionType::Tsumo
                && actions[i].action_type != ActionType::Ron && (i < position
                ==> actions[i].action_type != ActionType::Riichi)) ==> temporary_choice(actions)
            == Some(actions[position]),
        actions[position].action_type == ActionType::Discard && actions[position].tile is Some && (
        forall|i: int|
            0 <= i < actions.len() ==> (#[trigger] actions[i]).action_type != ActionType::Tsumo
                && actions[i].action_type != ActionType::Ron && actions[i].action_type
                != ActionType::Riichi && (i < position ==> actions[i].action_type
                != ActionType::Discard || actions[i].tile is None)) ==> temporary_choice(actions)
            == Some(actions[position]),
        actions[position].action_type == ActionType::Pass && (forall|i: int|
            0 <= i < actions.len() ==> (#[trigger] actions[i]).action_type != ActionType::Tsumo
                && actions[i].action_type != ActionType::Ron && actions[i].action_type
                != ActionType::Riichi && (actions[i].action_type != ActionType::Discard
                || actions[i].tile is None) && (i < position ==> actions[i].action_type
                != ActionType::Pass)) ==> temporary_choice(actions) == Some(actions[position]),
        (forall|i: int|
            0 <= i < actions.len() ==> (#[trigger] actions[i]).action_type != ActionType::Tsumo
                && actions[i].action_type != ActionType::Ron && actions[i].action_type
                != ActionType::Riichi && (actions[i].action_type != ActionType::Discard
                || actions[i].tile is None) && actions[i].action_type != ActionType::Pass)
            ==> temporary_choice(actions) == Some(actions[0]),
{
    law_first_such(actions, |a: ActionView| is_win(a));
    law_first_such(actions, |a: ActionView| is_riichi(a));
    law_first_such(actions, |a: ActionView| is_tile_discard(a));
    law_first_such(actions, |a: ActionView| is_pass(a));
    if is_first_such(actions, |a: ActionView| is_win(a), position) {
        lemma_first_such_at(actions, |a: ActionView| is_win(a), position);
    }
    if is_first_such(actions, |a: ActionView| is_riichi(a), position) {
        lemma_first_such_at(actions, |a: ActionView| is_riichi(a), position);
    }
    if is_first_such(actions, |a: ActionView| is_tile_discard(a), position) {
        lemma_first_such_at(actions, |a: ActionView| is_tile_discard(a), position);
    }
    if is_first_such(actions, |a: ActionView| is_pass(a), position) {
        lemma_first_such_at(actions, |a: ActionView| is_pass(a), position);
    }
}

} // verus!
