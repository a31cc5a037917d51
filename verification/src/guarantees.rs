//! What the rules guarantee, said of what the player observes and of the engine's measure of hands.

use crate::context::{
    context_of, law_riichi_of_an_opponent, law_scoring_kinds, law_what_secures_a_scoring_triplet,
    visible_tiles, RuleContextView,
};
use crate::engine::{ActionType, ActionView, MeldType, ObservationView};
use crate::evaluation::{
    law_faster_call_is_better, law_safety_before_speed, law_speed_before_safety,
};
use crate::hand::{
    count_kind, hand_after_call, has_kind, kind_of, playable, shanten_number, ukeire, without_one,
};
use crate::rules::{
    call_evaluation, can_choose, daiminkan_candidate, defends, discard_candidate,
    discard_evaluation, discard_evaluations_of, has_such, is_choice, is_discard, is_weighed_choice,
    kan_candidate, law_playable_hand_is_weighable, lemma_contained,
    open_meld_candidate, yakuhai_pon_candidate,
};
use crate::selection::{is_pass, is_riichi, is_win, law_first_such, law_first_such_is_earliest};
use vstd::prelude::*;

verus! {

/// The hand of the player who observes.
pub open spec fn own_hand(observation: ObservationView) -> Seq<u32> {
    observation.hands[observation.player_id as int]
}

/// Whether the player has a seat, and the winds can be numbered as kinds.
pub open spec fn seated(observation: ObservationView) -> bool {
    &&& observation.player_id < 4
    &&& observation.oya <= observation.player_id + 4
    &&& observation.round_wind <= 228
}

/// Whether no win and no riichi is legal, but something is.
pub open spec fn quiet(observation: ObservationView) -> bool {
    &&& observation.legal_actions.len() > 0
    &&& forall|i: int|
        0 <= i < observation.legal_actions.len() ==> {
            &&& (#[trigger] observation.legal_actions[i]).action_type != ActionType::Tsumo
            &&& observation.legal_actions[i].action_type != ActionType::Ron
            &&& observation.legal_actions[i].action_type != ActionType::Riichi
        }
}

/// Whether the action discards a tile of a kind that is in the player's hand.
pub open spec fn discards_own_tile(observation: ObservationView, action: ActionView) -> bool {
    &&& action.action_type == ActionType::Discard
    &&& action.tile is Some
    &&& exists|i: int|
        0 <= i < own_hand(observation).len() && (#[trigger] own_hand(observation)[i]) as int / 4
            == action.tile->0 as int / 4
}

/// What a discard leaves of the hand.
pub open spec fn rest_of_hand(observation: ObservationView, action: ActionView) -> Seq<u32> {
    without_one(own_hand(observation), action.tile->0 as int / 4)
}

/// How many opponents have declared riichi and have discarded the kind of the action's tile.
pub open spec fn safety_of(observation: ObservationView, action: ActionView) -> nat {
    context_of(observation).safe_count(action.tile->0 as int / 4)
}

/// How many tiles improve a hand at this table.
pub open spec fn improving_tiles(observation: ObservationView, hand: Seq<u32>) -> nat {
    ukeire(hand, visible_tiles(observation, observation.player_id as int))
}

/// Whether the player does not fold: the hand is less than two tiles from ready, or no opponent has
/// declared riichi, or no own tile can be discarded that is safe against one who has.
pub open spec fn presses_on(observation: ObservationView) -> bool {
    ||| shanten_number(own_hand(observation)) < 2
    ||| forall|player: int|
        0 <= player < 4 && player != observation.player_id
            ==> !#[trigger] observation.riichi_declared[player]
    ||| forall|i: int|
        0 <= i < observation.legal_actions.len() && discards_own_tile(
            observation,
            #[trigger] observation.legal_actions[i],
        ) ==> safety_of(observation, observation.legal_actions[i]) == 0
}

/// Whether a call keeps the shanten number of the hand or lowers it.
pub open spec fn keeps_pace(observation: ObservationView, action: ActionView) -> bool {
    shanten_number(hand_after_call(own_hand(observation), action)) <= shanten_number(
        own_hand(observation),
    )
}

/// Whether a call lowers the shanten number of the hand.
pub open spec fn gains_pace(observation: ObservationView, action: ActionView) -> bool {
    shanten_number(hand_after_call(own_hand(observation), action)) < shanten_number(
        own_hand(observation),
    )
}

/// Whether the kind scores: a dragon, the wind of the round or the wind of the seat.
pub open spec fn kind_scores(observation: ObservationView, kind: int) -> bool {
    ||| kind == 31
    ||| kind == 32
    ||| kind == 33
    ||| kind == 27 + observation.round_wind
    ||| kind == 27 + (observation.player_id + 4 - observation.oya) % 4
}

/// Whether the player has a pon or kan of a scoring kind set aside, or three tiles of one in the hand.
pub open spec fn hand_scores(observation: ObservationView) -> bool {
    let melds = observation.melds[observation.player_id as int];
    ||| exists|i: int|
        {
            &&& 0 <= i < melds.len()
            &&& (#[trigger] melds[i]).tiles.len() > 0
            &&& kind_scores(observation, melds[i].tiles[0] as int / 4)
            &&& {
                ||| melds[i].meld_type == MeldType::Pon
                ||| melds[i].meld_type == MeldType::Daiminkan
                ||| melds[i].meld_type == MeldType::Ankan
                ||| melds[i].meld_type == MeldType::Kakan
            }
        }
    ||| exists|kind: int| #[trigger]
        kind_scores(observation, kind) && count_kind(own_hand(observation), kind) >= 3
}

/// Whether some legal kan of the player's own keeps the pace.
pub open spec fn has_own_kan(observation: ObservationView) -> bool {
    exists|i: int|
        {
            &&& 0 <= i < observation.legal_actions.len()
            &&& {
                ||| (#[trigger] observation.legal_actions[i]).action_type == ActionType::Ankan
                ||| observation.legal_actions[i].action_type == ActionType::Kakan
            }
            &&& keeps_pace(observation, observation.legal_actions[i])
        }
}

/// Whether some legal pon of a scoring kind gains pace.
pub open spec fn has_scoring_pon(observation: ObservationView) -> bool {
    exists|i: int|
        {
            &&& 0 <= i < observation.legal_actions.len()
            &&& (#[trigger] observation.legal_actions[i]).action_type == ActionType::Pon
            &&& observation.legal_actions[i].tile is Some
            &&& kind_scores(observation, observation.legal_actions[i].tile->0 as int / 4)
            &&& gains_pace(observation, observation.legal_actions[i])
        }
}

/// Whether some legal chi or pon gains pace.
pub open spec fn has_open_call(observation: ObservationView) -> bool {
    exists|i: int|
        {
            &&& 0 <= i < observation.legal_actions.len()
            &&& {
                ||| (#[trigger] observation.legal_actions[i]).action_type == ActionType::Chi
                ||| observation.legal_actions[i].action_type == ActionType::Pon
            }
            &&& gains_pace(observation, observation.legal_actions[i])
        }
}

/// Whether some legal kan on a discard keeps the pace.
pub open spec fn has_open_kan(observation: ObservationView) -> bool {
    exists|i: int|
        {
            &&& 0 <= i < observation.legal_actions.len()
            &&& (#[trigger] observation.legal_actions[i]).action_type == ActionType::Daiminkan
            &&& keeps_pace(observation, observation.legal_actions[i])
        }
}

/// Whether the player neither folds nor has a call to make: no kan of the own that keeps the pace, no
/// pon of a scoring kind that gains pace and, once the hand scores, no call that gains pace and no
/// kan that keeps it.
pub open spec fn no_call_to_make(observation: ObservationView) -> bool {
    &&& presses_on(observation)
    &&& !has_own_kan(observation)
    &&& !has_scoring_pon(observation)
    &&& hand_scores(observation) ==> !has_open_call(observation) && !has_open_kan(observation)
}

proof fn lemma_weighed(observation: ObservationView, choice: Option<ActionView>)
    requires
        is_choice(observation, choice),
        quiet(observation),
    ensures
        is_weighed_choice(context_of(observation), observation.legal_actions, choice),
{
    let actions = observation.legal_actions;
    assert(!has_such(actions, |a: ActionView| is_win(a)));
    assert(!has_such(actions, |a: ActionView| is_riichi(a)));
}

proof fn lemma_is_discard(observation: ObservationView, action: ActionView)
    ensures
        is_discard(context_of(observation), action) == discards_own_tile(observation, action),
{
    let hand = own_hand(observation);
    if is_discard(context_of(observation), action) {
        let kind = kind_of(action.tile->0 as u32);
        let i = choose|i: int| 0 <= i < hand.len() && kind_of(#[trigger] hand[i]) == kind;
        assert(own_hand(observation)[i] as int / 4 == action.tile->0 as int / 4);
    }
    if discards_own_tile(observation, action) {
        let i = choose|i: int|
            0 <= i < own_hand(observation).len() && (#[trigger] own_hand(observation)[i]) as int / 4
                == action.tile->0 as int / 4;
        assert(kind_of(hand[i]) == kind_of(action.tile->0 as u32));
    }
}

proof fn lemma_riichi(observation: ObservationView)
    ensures
        context_of(observation).any_opponent_riichi() <==> exists|player: int|
            0 <= player < 4 && player != observation.player_id
                && #[trigger] observation.riichi_declared[player],
{
    law_riichi_of_an_opponent(context_of(observation));
    let declared = observation.riichi_declared;
    assert(declared[0] || !declared[0]);
    assert(declared[1] || !declared[1]);
    assert(declared[2] || !declared[2]);
    assert(declared[3] || !declared[3]);
}

proof fn lemma_no_fold(observation: ObservationView)
    requires
        presses_on(observation),
    ensures
        !(defends(context_of(observation)) && has_such(
            observation.legal_actions,
            |a: ActionView| discard_candidate(context_of(observation), a, true),
        )),
{
    let context = context_of(observation);
    let actions = observation.legal_actions;
    lemma_riichi(observation);
    if defends(context) && has_such(actions, |a: ActionView| discard_candidate(context, a, true)) {
        let i = choose|i: int|
            0 <= i < actions.len() && discard_candidate(context, #[trigger] actions[i], true);
        lemma_is_discard(observation, actions[i]);
        assert(discards_own_tile(observation, actions[i]));
    }
}

proof fn lemma_scoring(observation: ObservationView, tile: u8)
    requires
        seated(observation),
    ensures
        context_of(observation).yakuhai_kinds.contains(tile / 4) == kind_scores(
            observation,
            tile as int / 4,
        ),
        context_of(observation).secured_yakuhai() == hand_scores(observation),
{
    let context = context_of(observation);
    let melds = observation.melds[observation.player_id as int];
    law_scoring_kinds(observation, tile / 4);
    law_what_secures_a_scoring_triplet(context);
    assert forall|kind: u8| #[trigger] context.yakuhai_kinds.contains(kind) <==> kind_scores(
        observation,
        kind as int,
    ) by {
        law_scoring_kinds(observation, kind);
    }
    assert forall|i: int| 0 <= i < melds.len() implies context.yakuhai_kinds.contains(
        (#[trigger] melds[i]).tiles[0] / 4,
    ) == kind_scores(observation, melds[i].tiles[0] as int / 4) by {
        law_scoring_kinds(observation, melds[i].tiles[0] / 4);
    }
    if exists|kind: int| #[trigger]
        kind_scores(observation, kind) && count_kind(own_hand(observation), kind) >= 3 {
        let kind = choose|kind: int| #[trigger]
            kind_scores(observation, kind) && count_kind(own_hand(observation), kind) >= 3;
        assert(context.yakuhai_kinds.contains(kind as u8));
    }
}

/// A legal win is taken, and the first one in the list of actions.
pub proof fn law_first_win_is_taken(
    observation: ObservationView,
    choice: Option<ActionView>,
    position: int,
)
    requires
        is_choice(observation, choice),
        0 <= position < observation.legal_actions.len(),
        observation.legal_actions[position].action_type == ActionType::Tsumo
            || observation.legal_actions[position].action_type == ActionType::Ron,
        forall|i: int|
            0 <= i < position ==> (#[trigger] observation.legal_actions[i]).action_type
                != ActionType::Tsumo && observation.legal_actions[i].action_type
                != ActionType::Ron,
    ensures
        choice == Some(observation.legal_actions[position]),
{
    let actions = observation.legal_actions;
    law_first_such_is_earliest(actions, |a: ActionView| is_win(a), position);
    lemma_contained(actions, |a: ActionView| is_win(a), actions[position]);
}

/// Where no win is legal, a legal riichi is declared, and the first one in the list of actions.
pub proof fn law_first_riichi_is_declared(
    observation: ObservationView,
    choice: Option<ActionView>,
    position: int,
)
    requires
        is_choice(observation, choice),
        0 <= position < observation.legal_actions.len(),
        observation.legal_actions[position].action_type == ActionType::Riichi,
        forall|i: int|
            0 <= i < observation.legal_actions.len() ==> {
                &&& (#[trigger] observation.legal_actions[i]).action_type != ActionType::Tsumo
                &&& observation.legal_actions[i].action_type != ActionType::Ron
                &&& i < position ==> observation.legal_actions[i].action_type
                    != ActionType::Riichi
            },
    ensures
        choice == Some(observation.legal_actions[position]),
{
    let actions = observation.legal_actions;
    law_first_such_is_earliest(actions, |a: ActionView| is_riichi(a), position);
    assert(!has_such(actions, |a: ActionView| is_win(a)));
    lemma_contained(actions, |a: ActionView| is_riichi(a), actions[position]);
}

/// Against an opponent's riichi a hand that is at least two tiles from ready is folded, as long as a
/// safe tile of its own can be discarded: the choice is a discard that no other is safer than; of the
/// safest it leaves the lowest shanten number, and with that the most improving tiles.
pub proof fn law_distant_hand_folds(
    observation: ObservationView,
    choice: Option<ActionView>,
    legal: ActionView,
    opponent: int,
)
    requires
        is_choice(observation, choice),
        quiet(observation),
        0 <= opponent < 4,
        opponent != observation.player_id,
        observation.riichi_declared[opponent],
        shanten_number(observation.hands[observation.player_id as int]) >= 2,
        observation.legal_actions.contains(legal),
        discards_own_tile(observation, legal),
        safety_of(observation, legal) > 0,
    ensures
        choice matches Some(chosen) && {
            let rest = shanten_number(rest_of_hand(observation, chosen));
            let legal_rest = shanten_number(rest_of_hand(observation, legal));
            let as_safe = safety_of(observation, chosen) == safety_of(observation, legal);
            &&& discards_own_tile(observation, chosen)
            &&& safety_of(observation, chosen) >= safety_of(observation, legal)
            &&& as_safe ==> rest <= legal_rest
            &&& as_safe && rest == legal_rest ==> improving_tiles(
                observation,
                rest_of_hand(observation, chosen),
            ) >= improving_tiles(observation, rest_of_hand(observation, legal))
        },
{
    let context = context_of(observation);
    let actions = observation.legal_actions;
    lemma_weighed(observation, choice);
    lemma_riichi(observation);
    lemma_is_discard(observation, legal);
    lemma_contained(actions, |a: ActionView| discard_candidate(context, a, true), legal);
    let i = actions.index_of(legal);
    assert(actions[i] == legal);
    let chosen = choice->0;
    lemma_is_discard(observation, chosen);
    law_safety_before_speed(
        discard_evaluation(context, legal),
        discard_evaluation(context, chosen),
    );
}

/// A hand that is less than two tiles from ready is not folded, whoever has declared riichi. Where
/// every legal call would set such a hand back, the choice is a discard that leaves the lowest
/// shanten number of all, safe or not; and with that the most improving tiles.
pub proof fn law_close_hand_does_not_fold(
    observation: ObservationView,
    choice: Option<ActionView>,
    legal: ActionView,
)
    requires
        is_choice(observation, choice),
        seated(observation),
        shanten_number(observation.hands[observation.player_id as int]) < 2,
        forall|i: int|
            0 <= i < observation.legal_actions.len() ==> match (
            #[trigger] observation.legal_actions[i]).action_type {
                ActionType::Tsumo | ActionType::Ron | ActionType::Riichi => false,
                ActionType::Chi
                | ActionType::Pon
                | ActionType::Daiminkan
                | ActionType::Ankan
                | ActionType::Kakan => shanten_number(
                    hand_after_call(
                        observation.hands[observation.player_id as int],
                        observation.legal_actions[i],
                    ),
                ) > shanten_number(observation.hands[observation.player_id as int]),
                _ => true,
            },
        observation.legal_actions.contains(legal),
        legal.action_type == ActionType::Discard,
        legal.tile is Some,
        has_kind(observation.hands[observation.player_id as int], legal.tile->0 as int / 4),
    ensures
        choice matches Some(chosen) && {
            let hand = observation.hands[observation.player_id as int];
            let visible = visible_tiles(observation, observation.player_id as int);
            let rest = without_one(hand, chosen.tile->0 as int / 4);
            let legal_rest = without_one(hand, legal.tile->0 as int / 4);
            &&& chosen.action_type == ActionType::Discard
            &&& chosen.tile is Some
            &&& shanten_number(rest) <= shanten_number(legal_rest)
            &&& shanten_number(rest) == shanten_number(legal_rest) ==> ukeire(rest, visible)
                >= ukeire(legal_rest, visible)
        },
{
    let actions = observation.legal_actions;
    let i = actions.index_of(legal);
    assert(actions[i] == legal);
    lemma_is_discard(observation, legal);
    law_fastest_discard_is_made(observation, choice, legal);
}

/// Without folding, a legal kan of the player's own that keeps the pace is made, or another such one.
pub proof fn law_own_kan_is_made(
    observation: ObservationView,
    choice: Option<ActionView>,
    legal: ActionView,
)
    requires
        is_choice(observation, choice),
        quiet(observation),
        presses_on(observation),
        observation.legal_actions.contains(legal),
        legal.action_type == ActionType::Ankan || legal.action_type == ActionType::Kakan,
        keeps_pace(observation, legal),
    ensures
        choice matches Some(chosen) && {
            &&& chosen.action_type == ActionType::Ankan || chosen.action_type == ActionType::Kakan
            &&& keeps_pace(observation, chosen)
        },
{
    let context = context_of(observation);
    lemma_weighed(observation, choice);
    lemma_no_fold(observation);
    lemma_contained(
        observation.legal_actions,
        |a: ActionView| kan_candidate(context, a),
        legal,
    );
}

proof fn lemma_no_own_kan(observation: ObservationView)
    requires
        !has_own_kan(observation),
    ensures
        !has_such(
            observation.legal_actions,
            |a: ActionView| kan_candidate(context_of(observation), a),
        ),
{
    let context = context_of(observation);
    let actions = observation.legal_actions;
    if has_such(actions, |a: ActionView| kan_candidate(context, a)) {
        let i = choose|i: int| 0 <= i < actions.len() && kan_candidate(context, #[trigger] actions[i]);
        assert(keeps_pace(observation, observation.legal_actions[i]));
    }
}

/// Without folding and without a kan of the player's own to make, a legal pon of a scoring kind that
/// gains pace is made, or one that is not slower: a lower shanten number comes before more improving
/// tiles.
pub proof fn law_scoring_pon_is_made(
    observation: ObservationView,
    choice: Option<ActionView>,
    legal: ActionView,
)
    requires
        is_choice(observation, choice),
        seated(observation),
        quiet(observation),
        presses_on(observation),
        !has_own_kan(observation),
        observation.legal_actions.contains(legal),
        legal.action_type == ActionType::Pon,
        legal.tile is Some,
        kind_scores(observation, legal.tile->0 as int / 4),
        gains_pace(observation, legal),
    ensures
        choice matches Some(chosen) && {
            &&& chosen.action_type == ActionType::Pon
            &&& chosen.tile is Some
            &&& kind_scores(observation, chosen.tile->0 as int / 4)
            &&& gains_pace(observation, chosen)
            &&& not_slower_call(observation, chosen, legal)
        },
{
    let context = context_of(observation);
    let actions = observation.legal_actions;
    lemma_weighed(observation, choice);
    lemma_no_fold(observation);
    lemma_no_own_kan(observation);
    lemma_scoring(observation, legal.tile->0);
    lemma_contained(actions, |a: ActionView| yakuhai_pon_candidate(context, a), legal);
    let i = actions.index_of(legal);
    assert(actions[i] == legal);
    let chosen = choice->0;
    lemma_scoring(observation, chosen.tile->0);
    law_faster_call_is_better(call_evaluation(context, legal), call_evaluation(context, chosen));
}

/// Whether a call leaves a lower shanten number than another, or the same and as many improving tiles.
pub open spec fn not_slower_call(
    observation: ObservationView,
    call: ActionView,
    other: ActionView,
) -> bool {
    let rest = hand_after_call(own_hand(observation), call);
    let other_rest = hand_after_call(own_hand(observation), other);
    ||| shanten_number(rest) < shanten_number(other_rest)
    ||| shanten_number(rest) == shanten_number(other_rest) && improving_tiles(observation, rest)
        >= improving_tiles(observation, other_rest)
}

proof fn lemma_no_scoring_pon(observation: ObservationView)
    requires
        seated(observation),
        !has_scoring_pon(observation),
    ensures
        !has_such(
            observation.legal_actions,
            |a: ActionView| yakuhai_pon_candidate(context_of(observation), a),
        ),
{
    let context = context_of(observation);
    let actions = observation.legal_actions;
    if has_such(actions, |a: ActionView| yakuhai_pon_candidate(context, a)) {
        let i = choose|i: int|
            0 <= i < actions.len() && yakuhai_pon_candidate(context, #[trigger] actions[i]);
        lemma_scoring(observation, actions[i].tile->0);
        assert(gains_pace(observation, observation.legal_actions[i]));
    }
}

/// Without folding, without a kan of the player's own and without a pon of a scoring kind to make, a
/// hand that scores is opened by a legal chi or pon that gains pace, or by one that is not slower.
pub proof fn law_scoring_hand_is_opened(
    observation: ObservationView,
    choice: Option<ActionView>,
    legal: ActionView,
)
    requires
        is_choice(observation, choice),
        seated(observation),
        quiet(observation),
        presses_on(observation),
        !has_own_kan(observation),
        !has_scoring_pon(observation),
        hand_scores(observation),
        observation.legal_actions.contains(legal),
        legal.action_type == ActionType::Chi || legal.action_type == ActionType::Pon,
        gains_pace(observation, legal),
    ensures
        choice matches Some(chosen) && {
            &&& chosen.action_type == ActionType::Chi || chosen.action_type == ActionType::Pon
            &&& gains_pace(observation, chosen)
            &&& not_slower_call(observation, chosen, legal)
        },
{
    let context = context_of(observation);
    let actions = observation.legal_actions;
    lemma_weighed(observation, choice);
    lemma_no_fold(observation);
    lemma_no_own_kan(observation);
    lemma_no_scoring_pon(observation);
    lemma_scoring(observation, 0);
    lemma_contained(actions, |a: ActionView| open_meld_candidate(context, a), legal);
    let i = actions.index_of(legal);
    assert(actions[i] == legal);
    let chosen = choice->0;
    law_faster_call_is_better(call_evaluation(context, legal), call_evaluation(context, chosen));
}

proof fn lemma_no_open_call(observation: ObservationView)
    requires
        !has_open_call(observation),
    ensures
        !has_such(
            observation.legal_actions,
            |a: ActionView| open_meld_candidate(context_of(observation), a),
        ),
{
    let context = context_of(observation);
    let actions = observation.legal_actions;
    if has_such(actions, |a: ActionView| open_meld_candidate(context, a)) {
        let i = choose|i: int|
            0 <= i < actions.len() && open_meld_candidate(context, #[trigger] actions[i]);
        assert(gains_pace(observation, observation.legal_actions[i]));
    }
}

proof fn lemma_no_open_kan(observation: ObservationView)
    requires
        !has_open_kan(observation),
    ensures
        !has_such(
            observation.legal_actions,
            |a: ActionView| daiminkan_candidate(context_of(observation), a),
        ),
{
    let context = context_of(observation);
    let actions = observation.legal_actions;
    if has_such(actions, |a: ActionView| daiminkan_candidate(context, a)) {
        let i = choose|i: int|
            0 <= i < actions.len() && daiminkan_candidate(context, #[trigger] actions[i]);
        assert(keeps_pace(observation, observation.legal_actions[i]));
    }
}

/// Where none of the calls before it is to be made, a hand that scores is opened by a legal kan on a
/// discard that keeps the pace, or by another such one.
pub proof fn law_open_kan_is_made(
    observation: ObservationView,
    choice: Option<ActionView>,
    legal: ActionView,
)
    requires
        is_choice(observation, choice),
        seated(observation),
        quiet(observation),
        presses_on(observation),
        !has_own_kan(observation),
        !has_scoring_pon(observation),
        hand_scores(observation),
        !has_open_call(observation),
        observation.legal_actions.contains(legal),
        legal.action_type == ActionType::Daiminkan,
        keeps_pace(observation, legal),
    ensures
        choice matches Some(chosen) && {
            &&& chosen.action_type == ActionType::Daiminkan
            &&& keeps_pace(observation, chosen)
        },
{
    let context = context_of(observation);
    lemma_weighed(observation, choice);
    lemma_no_fold(observation);
    lemma_no_own_kan(observation);
    lemma_no_scoring_pon(observation);
    lemma_no_open_call(observation);
    lemma_scoring(observation, 0);
    lemma_contained(
        observation.legal_actions,
        |a: ActionView| daiminkan_candidate(context, a),
        legal,
    );
}

/// Without folding and without a call to make, the choice is a discard that leaves the lowest shanten
/// number of all; with that the most improving tiles; and with both it is the safest.
pub proof fn law_fastest_discard_is_made(
    observation: ObservationView,
    choice: Option<ActionView>,
    legal: ActionView,
)
    requires
        is_choice(observation, choice),
        seated(observation),
        quiet(observation),
        no_call_to_make(observation),
        observation.legal_actions.contains(legal),
        discards_own_tile(observation, legal),
    ensures
        choice matches Some(chosen) && {
            let rest = rest_of_hand(observation, chosen);
            let legal_rest = rest_of_hand(observation, legal);
            let as_close = shanten_number(rest) == shanten_number(legal_rest);
            let wide = improving_tiles(observation, rest);
            let legal_wide = improving_tiles(observation, legal_rest);
            &&& discards_own_tile(observation, chosen)
            &&& shanten_number(rest) <= shanten_number(legal_rest)
            &&& as_close ==> wide >= legal_wide
            &&& as_close && wide == legal_wide ==> safety_of(observation, chosen) >= safety_of(
                observation,
                legal,
            )
        },
{
    let context = context_of(observation);
    let actions = observation.legal_actions;
    lemma_weighed(observation, choice);
    lemma_calls_are_out(observation);
    lemma_is_discard(observation, legal);
    lemma_contained(actions, |a: ActionView| discard_candidate(context, a, false), legal);
    let i = actions.index_of(legal);
    assert(actions[i] == legal);
    let chosen = choice->0;
    lemma_is_discard(observation, chosen);
    law_speed_before_safety(
        discard_evaluation(context, legal),
        discard_evaluation(context, chosen),
    );
}

proof fn lemma_calls_are_out(observation: ObservationView)
    requires
        seated(observation),
        no_call_to_make(observation),
    ensures
        ({
            let context = context_of(observation);
            let actions = observation.legal_actions;
            &&& !(defends(context) && has_such(
                actions,
                |a: ActionView| discard_candidate(context, a, true),
            ))
            &&& !has_such(actions, |a: ActionView| kan_candidate(context, a))
            &&& !has_such(actions, |a: ActionView| yakuhai_pon_candidate(context, a))
            &&& context.secured_yakuhai() ==> !has_such(
                actions,
                |a: ActionView| open_meld_candidate(context, a),
            ) && !has_such(actions, |a: ActionView| daiminkan_candidate(context, a))
        }),
{
    lemma_no_fold(observation);
    lemma_no_own_kan(observation);
    lemma_no_scoring_pon(observation);
    lemma_scoring(observation, 0);
    if hand_scores(observation) {
        lemma_no_open_call(observation);
        lemma_no_open_kan(observation);
    }
}

/// Without folding, without a call to make and without a tile of the own to discard, the choice is the
/// first legal pass.
pub proof fn law_first_pass_is_taken(
    observation: ObservationView,
    choice: Option<ActionView>,
    position: int,
)
    requires
        is_choice(observation, choice),
        seated(observation),
        quiet(observation),
        no_call_to_make(observation),
        forall|i: int|
            0 <= i < observation.legal_actions.len() ==> !discards_own_tile(
                observation,
                #[trigger] observation.legal_actions[i],
            ),
        0 <= position < observation.legal_actions.len(),
        observation.legal_actions[position].action_type == ActionType::Pass,
        forall|i: int|
            0 <= i < position ==> (#[trigger] observation.legal_actions[i]).action_type
                != ActionType::Pass,
    ensures
        choice == Some(observation.legal_actions[position]),
{
    let actions = observation.legal_actions;
    lemma_weighed(observation, choice);
    lemma_calls_are_out(observation);
    lemma_discards_are_out(observation);
    law_first_such_is_earliest(actions, |a: ActionView| is_pass(a), position);
    lemma_contained(actions, |a: ActionView| is_pass(a), actions[position]);
}

proof fn lemma_discards_are_out(observation: ObservationView)
    requires
        forall|i: int|
            0 <= i < observation.legal_actions.len() ==> !discards_own_tile(
                observation,
                #[trigger] observation.legal_actions[i],
            ),
    ensures
        !has_such(
            observation.legal_actions,
            |a: ActionView| discard_candidate(context_of(observation), a, false),
        ),
{
    let context = context_of(observation);
    let actions = observation.legal_actions;
    if has_such(actions, |a: ActionView| discard_candidate(context, a, false)) {
        let i = choose|i: int|
            0 <= i < actions.len() && discard_candidate(context, #[trigger] actions[i], false);
        lemma_is_discard(observation, actions[i]);
        assert(discards_own_tile(observation, observation.legal_actions[i]));
    }
}

/// Where nothing else is to be done, the choice is the first legal action.
pub proof fn law_first_action_is_the_last_resort(
    observation: ObservationView,
    choice: Option<ActionView>,
)
    requires
        is_choice(observation, choice),
        seated(observation),
        quiet(observation),
        no_call_to_make(observation),
        forall|i: int|
            0 <= i < observation.legal_actions.len() ==> !discards_own_tile(
                observation,
                #[trigger] observation.legal_actions[i],
            ) && observation.legal_actions[i].action_type != ActionType::Pass,
    ensures
        choice == Some(observation.legal_actions[0]),
{
    let actions = observation.legal_actions;
    lemma_weighed(observation, choice);
    lemma_calls_are_out(observation);
    lemma_discards_are_out(observation);
    assert(!has_such(actions, |a: ActionView| is_pass(a)));
}

/// Where passing is legal, a pon is chosen only if it lowers the shanten number, and only if its tile
/// is a dragon, the wind of the round or the wind of the seat, or a triplet of one of these is set
/// aside or in the hand already.
pub proof fn law_pon_needs_a_scoring_kind(
    observation: ObservationView,
    choice: Option<ActionView>,
    chosen: ActionView,
    pass: ActionView,
)
    requires
        is_choice(observation, choice),
        seated(observation),
        choice == Some(chosen),
        chosen.action_type == ActionType::Pon,
        observation.legal_actions.contains(pass),
        pass.action_type == ActionType::Pass,
    ensures
        shanten_number(
            hand_after_call(observation.hands[observation.player_id as int], chosen),
        ) < shanten_number(observation.hands[observation.player_id as int]),
        ({
            let round_wind = 27 + observation.round_wind;
            let seat_wind = 27 + (observation.player_id + 4 - observation.oya) % 4;
            let hand = observation.hands[observation.player_id as int];
            let melds = observation.melds[observation.player_id as int];
            ||| chosen.tile matches Some(tile) && {
                let kind = tile as int / 4;
                kind == 31 || kind == 32 || kind == 33 || kind == round_wind || kind == seat_wind
            }
            ||| exists|i: int|
                {
                    let kind = (#[trigger] melds[i]).tiles[0] as int / 4;
                    &&& 0 <= i < melds.len()
                    &&& melds[i].meld_type != MeldType::Chi
                    &&& melds[i].tiles.len() > 0
                    &&& kind == 31 || kind == 32 || kind == 33 || kind == round_wind || kind
                        == seat_wind
                }
            ||| count_kind(hand, 31) >= 3
            ||| count_kind(hand, 32) >= 3
            ||| count_kind(hand, 33) >= 3
            ||| count_kind(hand, round_wind) >= 3
            ||| count_kind(hand, seat_wind) >= 3
        }),
{
    let context = context_of(observation);
    lemma_open_choice(observation, choice, chosen, pass);
    if chosen.tile is Some {
        lemma_scoring(observation, chosen.tile->0);
    }
    lemma_scoring(observation, 0);
    let melds = observation.melds[observation.player_id as int];
    if hand_scores(observation) {
        if exists|kind: int| #[trigger]
            kind_scores(observation, kind) && count_kind(own_hand(observation), kind) >= 3 {
        } else {
            let i = choose|i: int|
                {
                    &&& 0 <= i < melds.len()
                    &&& (#[trigger] melds[i]).tiles.len() > 0
                    &&& kind_scores(observation, melds[i].tiles[0] as int / 4)
                    &&& {
                        ||| melds[i].meld_type == MeldType::Pon
                        ||| melds[i].meld_type == MeldType::Daiminkan
                        ||| melds[i].meld_type == MeldType::Ankan
                        ||| melds[i].meld_type == MeldType::Kakan
                    }
                };
            assert(melds[i].meld_type != MeldType::Chi);
        }
    }
}

/// Where passing is legal, the rules choose a call only for the reasons they have for it.
proof fn lemma_open_choice(
    observation: ObservationView,
    choice: Option<ActionView>,
    chosen: ActionView,
    pass: ActionView,
)
    requires
        is_choice(observation, choice),
        choice == Some(chosen),
        observation.legal_actions.contains(pass),
        pass.action_type == ActionType::Pass,
    ensures
        ({
            let context = context_of(observation);
            &&& chosen.action_type == ActionType::Pon ==> yakuhai_pon_candidate(context, chosen) || (
            context.secured_yakuhai() && open_meld_candidate(context, chosen))
            &&& chosen.action_type == ActionType::Chi ==> context.secured_yakuhai()
                && open_meld_candidate(context, chosen)
            &&& chosen.action_type == ActionType::Daiminkan ==> context.secured_yakuhai()
                && daiminkan_candidate(context, chosen)
            &&& chosen.action_type == ActionType::Ankan || chosen.action_type == ActionType::Kakan
                ==> kan_candidate(context, chosen)
            &&& chosen.action_type != ActionType::KyushuKyuhai && chosen.action_type
                != ActionType::Kita
        }),
{
    let actions = observation.legal_actions;
    law_first_such(actions, |a: ActionView| is_win(a));
    law_first_such(actions, |a: ActionView| is_riichi(a));
    law_first_such(actions, |a: ActionView| is_pass(a));
    lemma_contained(actions, |a: ActionView| is_pass(a), pass);
    assert(actions.len() > 0);
}

/// Where passing is legal, a chi is chosen only for a hand that scores and only if it lowers the
/// shanten number; a kan on a discard only for a hand that scores, and any kan only if it does not
/// raise the shanten number.
pub proof fn law_other_calls_need_their_reasons(
    observation: ObservationView,
    choice: Option<ActionView>,
    chosen: ActionView,
    pass: ActionView,
)
    requires
        is_choice(observation, choice),
        seated(observation),
        choice == Some(chosen),
        observation.legal_actions.contains(pass),
        pass.action_type == ActionType::Pass,
    ensures
        chosen.action_type == ActionType::Chi ==> hand_scores(observation) && gains_pace(
            observation,
            chosen,
        ),
        chosen.action_type == ActionType::Daiminkan ==> hand_scores(observation) && keeps_pace(
            observation,
            chosen,
        ),
        chosen.action_type == ActionType::Ankan || chosen.action_type == ActionType::Kakan
            ==> keeps_pace(observation, chosen),
        chosen.action_type != ActionType::KyushuKyuhai && chosen.action_type != ActionType::Kita,
{
    lemma_open_choice(observation, choice, chosen, pass);
    lemma_scoring(observation, 0);
}

/// The evaluations of discards: each action that discards a tile of a kind in the hand adds one, with
/// the measure and the improving tiles of the rest of the hand and the safety of the kind; any other
/// action adds none.
pub proof fn law_discards_are_evaluated_in_turn(
    context: RuleContextView,
    actions: Seq<ActionView>,
    action: ActionView,
)
    ensures
        discard_evaluations_of(context, Seq::empty()).len() == 0,
        ({
            let before = discard_evaluations_of(context, actions);
            let after = discard_evaluations_of(context, actions.push(action));
            if action.action_type == ActionType::Discard && action.tile is Some && has_kind(
                context.self_hand,
                action.tile->0 as int / 4,
            ) {
                let kind = action.tile->0 as int / 4;
                let rest = without_one(context.self_hand, kind);
                &&& after.len() == before.len() + 1
                &&& after.drop_last() == before
                &&& after.last().action == action
                &&& after.last().shanten == shanten_number(rest)
                &&& after.last().ukeire == ukeire(rest, context.visible_tiles)
                &&& after.last().safe_against_riichi_count == context.safe_count(kind)
            } else {
                after == before
            }
        }),
{
    assert(actions.push(action).drop_last() =~= actions);
    let before = discard_evaluations_of(context, actions);
    if is_discard(context, action) {
        assert(before.push(discard_evaluation(context, action)).drop_last() =~= before);
    }
}

/// A call is weighed by the measure and the improving tiles of what it leaves of the hand.
pub proof fn law_calls_are_weighed_by_what_they_leave(context: RuleContextView, action: ActionView)
    ensures
        call_evaluation(context, action).action == action,
        call_evaluation(context, action).shanten == shanten_number(
            hand_after_call(context.self_hand, action),
        ),
        call_evaluation(context, action).ukeire == ukeire(
            hand_after_call(context.self_hand, action),
            context.visible_tiles,
        ),
{
}

/// The rules can choose an action for every player with a seat in a game of at most four winds whose
/// hand holds at most fourteen tiles and no kind more than four times; and whenever a win or riichi is
/// legal, or nothing is.
pub proof fn law_rules_cover_every_game(observation: ObservationView)
    ensures
        observation.player_id < 4 && observation.oya < 4 && observation.round_wind < 4 && (
        forall|kind: int|
            0 <= kind < 34 ==> #[trigger] count_kind(
                observation.hands[observation.player_id as int],
                kind,
            ) <= 4) && observation.hands[observation.player_id as int].len() <= 14 ==> can_choose(
            observation,
        ),
        !quiet(observation) ==> can_choose(observation),
{
    let actions = observation.legal_actions;
    let hand = observation.hands[observation.player_id as int];
    if observation.player_id < 4 && observation.oya < 4 && observation.round_wind < 4 && (forall|
        kind: int,
    |
        0 <= kind < 34 ==> #[trigger] count_kind(hand, kind) <= 4) && hand.len() <= 14 {
        assert(playable(hand));
        law_playable_hand_is_weighable(observation);
    }
    if !quiet(observation) && actions.len() > 0 {
        let i = choose|i: int|
            0 <= i < actions.len() && ((#[trigger] actions[i]).action_type == ActionType::Tsumo
                || actions[i].action_type == ActionType::Ron || actions[i].action_type
                == ActionType::Riichi);
        if actions[i].action_type == ActionType::Riichi {
            lemma_contained(actions, |a: ActionView| is_riichi(a), actions[i]);
        } else {
            lemma_contained(actions, |a: ActionView| is_win(a), actions[i]);
        }
    }
}

} // verus!
