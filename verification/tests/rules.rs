use riichilab_agent::context::{
    collect_visible_tiles, yakuhai_tile_types, RuleContext, EAST, GREEN, RED, WHITE,
};
use riichilab_agent::engine::{Action, ActionType, Meld, MeldType, Observation};
use riichilab_agent::evaluation::{
    choose_best_call_eval, choose_best_discard_eval, compare_discard_eval, CallEvaluation,
    DiscardEvaluation,
};
use riichilab_agent::hand::{
    calculate_ukeire, count_tile_type, hand_after_call_action, is_drawable, is_measurable,
    remove_one_tile,
};
use riichilab_agent::random::{choose_random, nth};
use riichilab_agent::rules::{
    choose_action, choose_action_checked, choose_best_discard, choose_betaori_discard,
    choose_daiminkan_action,
    choose_improving_open_meld_action, choose_kan_action, choose_yakuhai_pon_action,
    discard_evaluations, evaluate_call, evaluate_discard, NotWeighable,
};
use std::cmp::Ordering;

fn action(action_type: ActionType, tile: Option<u8>, consume_tiles: Vec<u8>) -> Action {
    Action { action_type, tile, consume_tiles, actor: Some(0) }
}

fn discard(tile: u8) -> Action {
    action(ActionType::Discard, Some(tile), vec![])
}

/// One tile of each kind, the first copy of a kind first.
fn tiles(kinds: &[u32]) -> Vec<u32> {
    let mut hand: Vec<u32> = Vec::new();
    for kind in kinds {
        let held = hand.iter().filter(|tile| **tile / 4 == *kind).count() as u32;
        hand.push(kind * 4 + held);
    }
    hand
}

fn observation(hand: Vec<u32>, legal_actions: Vec<Action>) -> Observation {
    Observation {
        player_id: 0,
        hands: [hand, vec![], vec![], vec![]],
        melds: [vec![], vec![], vec![], vec![]],
        discards: [vec![], vec![], vec![], vec![]],
        dora_indicators: vec![],
        riichi_declared: [false; 4],
        round_wind: 0,
        oya: 1,
        legal_actions,
    }
}

// 123m 456m 789m 12p 112z: discarding the south wind leaves a ready hand.
const READY_BY_SOUTH: [u32; 14] = [0, 1, 2, 3, 4, 5, 6, 7, 8, 9, 10, 27, 27, 28];

#[test]
fn remove_one_tile_matches_tile_type() {
    let mut hand = vec![0, 1, 8];
    remove_one_tile(&mut hand, 2);
    assert_eq!(hand, vec![1, 8]);
}

#[test]
fn hand_after_kakan_removes_added_tile_only() {
    let hand = vec![0, 1, 2, 3, 16];
    let action = action(ActionType::Kakan, Some(16), vec![0, 1, 2]);
    assert_eq!(hand_after_call_action(&hand, &action), vec![0, 1, 2, 3]);
}

#[test]
fn removing_a_missing_kind_changes_nothing() {
    let mut hand = vec![0, 1, 8];
    assert_eq!(remove_one_tile(&mut hand, 4), None);
    assert_eq!(hand, vec![0, 1, 8]);
    assert_eq!(remove_one_tile(&mut hand, 11), Some(()));
    assert_eq!(hand, vec![0, 1]);
    assert_eq!(count_tile_type(&hand, 0), 2);
    assert_eq!(count_tile_type(&hand, 2), 0);
}

#[test]
fn calls_use_up_their_consumed_tiles() {
    let hand = vec![0, 1, 2, 3, 16, 20];
    for action_type in [
        ActionType::Ankan,
        ActionType::Chi,
        ActionType::Pon,
        ActionType::Daiminkan,
    ] {
        let call = action(action_type, Some(99), vec![17, 2, 40]);
        assert_eq!(hand_after_call_action(&hand, &call), vec![1, 2, 3, 20]);
    }
    for other in [ActionType::Discard, ActionType::Pass, ActionType::Kita, ActionType::Riichi] {
        let call = action(other, Some(0), vec![0, 1]);
        assert_eq!(hand_after_call_action(&hand, &call), hand);
    }
    let kakan = action(ActionType::Kakan, None, vec![0, 1, 2]);
    assert_eq!(hand_after_call_action(&hand, &kakan), hand);
}

#[test]
fn ukeire_counts_unseen_improving_tiles() {
    let ready = tiles(&READY_BY_SOUTH[..13]);
    // Only the four 3p improve the hand.
    assert_eq!(calculate_ukeire(&ready, &[]), 4);
    assert_eq!(calculate_ukeire(&ready, &[44, 47]), 2);
    assert_eq!(calculate_ukeire(&ready, &[44, 45, 46, 47, 44]), 0);
    assert_eq!(calculate_ukeire(&ready, &[0, 1, 136, 4000000000]), 4);
    // 123m 456m 789m 33p 33z: two of each pair are unseen.
    let pairs = tiles(&[0, 1, 2, 3, 4, 5, 6, 7, 8, 11, 11, 29, 29]);
    assert_eq!(calculate_ukeire(&pairs, &[]), 4);
    assert_eq!(calculate_ukeire(&pairs, &[46]), 3);
    // A further tile costs one at most, wherever it stands.
    assert_eq!(calculate_ukeire(&pairs, &[0, 46, 118]), 2);
    assert_eq!(calculate_ukeire(&pairs, &[118, 0, 46]), 2);
    assert_eq!(calculate_ukeire(&pairs, &[118, 136, 0, 46]), 2);
}

#[test]
fn ukeire_depends_on_kinds_alone() {
    let ready = tiles(&READY_BY_SOUTH[..13]);
    let mut other: Vec<u32> = ready.iter().map(|tile| tile / 4 * 4 + 3).collect();
    other.reverse();
    assert_eq!(calculate_ukeire(&other, &[44]), calculate_ukeire(&ready, &[44]));
    assert_eq!(calculate_ukeire(&other, &[44]), 3);
}

#[test]
fn scoring_kinds_are_sorted_and_distinct() {
    let mut o = observation(vec![], vec![]);
    assert_eq!(yakuhai_tile_types(&o), vec![EAST, EAST + 3, WHITE, GREEN, RED]);
    o.oya = 0;
    assert_eq!(yakuhai_tile_types(&o), vec![27, 31, 32, 33]);
    o.player_id = 3;
    o.oya = 1;
    o.round_wind = 1;
    assert_eq!(yakuhai_tile_types(&o), vec![28, 29, 31, 32, 33]);
    o.round_wind = 228;
    assert_eq!(yakuhai_tile_types(&o), vec![29, 31, 32, 33, 255]);
}

#[test]
fn visible_tiles_leave_out_the_own_discards() {
    let mut o = observation(vec![1, 2], vec![]);
    o.dora_indicators = vec![70];
    o.discards = [vec![3], vec![4, 5], vec![], vec![6]];
    o.melds[0] = vec![Meld { meld_type: MeldType::Pon, tiles: vec![108, 109] }];
    o.melds[2] = vec![
        Meld { meld_type: MeldType::Chi, tiles: vec![0, 4, 8] },
        Meld { meld_type: MeldType::Ankan, tiles: vec![] },
    ];
    assert_eq!(collect_visible_tiles(&o, 0), vec![70, 4, 5, 6, 108, 109, 0, 4, 8]);
    assert_eq!(collect_visible_tiles(&o, 1), vec![70, 3, 6, 108, 109, 0, 4, 8]);
}

#[test]
fn the_context_reads_riichi_and_safety() {
    let mut o = observation(tiles(&READY_BY_SOUTH), vec![]);
    o.riichi_declared = [true, false, false, false];
    assert!(!RuleContext::new(&o).any_opponent_riichi());
    o.riichi_declared = [true, true, false, true];
    o.discards = [vec![0], vec![1, 40], vec![2], vec![3]];
    let context = RuleContext::new(&o);
    assert!(context.any_opponent_riichi());
    assert_eq!(context.safe_against_riichi_count(0), 2);
    assert_eq!(context.safe_against_riichi_count(10), 1);
    assert_eq!(context.safe_against_riichi_count(5), 0);
    assert_eq!(context.current_shanten(), 0);
    assert_eq!(context.self_hand(), tiles(&READY_BY_SOUTH).as_slice());
}

#[test]
fn a_scoring_triplet_secures_the_hand() {
    let mut o = observation(tiles(&[0, 4, 8, 31]), vec![]);
    assert!(!RuleContext::new(&o).has_secured_yakuhai());
    o.melds[0] = vec![Meld { meld_type: MeldType::Pon, tiles: vec![125, 126, 127] }];
    assert!(RuleContext::new(&o).has_secured_yakuhai());
    o.melds[0][0].meld_type = MeldType::Chi;
    assert!(!RuleContext::new(&o).has_secured_yakuhai());
    o.melds[0] = vec![
        Meld { meld_type: MeldType::Pon, tiles: vec![0, 1, 2] },
        Meld { meld_type: MeldType::Kakan, tiles: vec![] },
    ];
    assert!(!RuleContext::new(&o).has_secured_yakuhai());
    o.hands[0] = tiles(&[0, 4, 8, 31, 31, 31]);
    assert!(RuleContext::new(&o).has_secured_yakuhai());
    o.hands[0] = tiles(&[0, 4, 8, 28, 28, 28]);
    assert!(!RuleContext::new(&o).has_secured_yakuhai());
}

fn evaluation(tile: u8, shanten: i32, ukeire: u32, safe: u8) -> DiscardEvaluation {
    DiscardEvaluation {
        action: discard(tile),
        shanten,
        ukeire,
        safe_against_riichi_count: safe,
    }
}

#[test]
fn discards_compare_by_speed_or_by_safety() {
    let fast = evaluation(0, 1, 8, 0);
    let wide = evaluation(4, 1, 9, 0);
    let safe = evaluation(8, 2, 20, 2);
    assert_eq!(compare_discard_eval(&wide, &fast, false), Ordering::Less);
    assert_eq!(compare_discard_eval(&fast, &wide, false), Ordering::Greater);
    assert_eq!(compare_discard_eval(&fast, &safe, false), Ordering::Less);
    assert_eq!(compare_discard_eval(&fast, &safe, true), Ordering::Greater);
    assert_eq!(compare_discard_eval(&safe, &fast, true), Ordering::Less);
    assert_eq!(compare_discard_eval(&wide, &fast, true), Ordering::Less);
    assert_eq!(compare_discard_eval(&fast, &evaluation(9, 1, 8, 0), true), Ordering::Equal);
    assert_eq!(compare_discard_eval(&fast, &evaluation(9, 1, 8, 1), false), Ordering::Greater);
}

#[test]
fn the_best_evaluation_wins_and_ties_go_by_chance() {
    assert!(choose_best_discard_eval(vec![], false).is_none());
    let mut seen = [false; 3];
    for _ in 0..200 {
        let list = vec![
            evaluation(0, 1, 8, 0),
            evaluation(1, 2, 30, 3),
            evaluation(2, 1, 8, 0),
        ];
        let best = choose_best_discard_eval(list, false).unwrap();
        seen[best.action.tile.unwrap() as usize] = true;
    }
    assert_eq!(seen, [true, false, true]);
    let list = vec![evaluation(0, 1, 8, 0), evaluation(1, 2, 30, 3)];
    assert_eq!(choose_best_discard_eval(list, true).unwrap().action.tile, Some(1));

    let call = |tile: u8, shanten: i32, ukeire: u32| CallEvaluation {
        action: action(ActionType::Pon, Some(tile), vec![]),
        shanten,
        ukeire,
    };
    assert!(choose_best_call_eval(vec![]).is_none());
    let best = choose_best_call_eval(vec![call(0, 2, 9), call(4, 1, 3), call(8, 1, 5)]).unwrap();
    assert_eq!(best.action.tile, Some(8));
    let best = choose_best_call_eval(vec![call(8, 1, 5), call(4, 1, 3)]).unwrap();
    assert_eq!(best.action.tile, Some(8));
    let mut tied = [false; 2];
    for _ in 0..200 {
        let best = choose_best_call_eval(vec![call(0, 1, 5), call(1, 1, 5)]).unwrap();
        tied[best.action.tile.unwrap() as usize] = true;
    }
    assert_eq!(tied, [true, true]);
}

#[test]
fn chance_reaches_every_item() {
    let empty: Vec<u8> = vec![];
    assert_eq!(choose_random(empty), None);
    let mut seen = [false; 3];
    for _ in 0..300 {
        seen[choose_random(vec![0usize, 1, 2]).unwrap()] = true;
    }
    assert_eq!(seen, [true; 3]);
    assert_eq!(nth(vec!['a', 'b', 'c'], 1), Some('b'));
    assert_eq!(nth(vec!['a', 'b', 'c'], 3), None);
}

#[test]
fn discards_are_evaluated_in_order() {
    let actions = vec![
        action(ActionType::Pass, Some(0), vec![]),
        discard(112),
        action(ActionType::Discard, None, vec![]),
        discard(132),
        discard(0),
    ];
    let mut o = observation(tiles(&READY_BY_SOUTH), vec![]);
    o.dora_indicators = vec![44];
    o.riichi_declared[2] = true;
    o.discards[2] = vec![113];
    let context = RuleContext::new(&o);
    let list = discard_evaluations(&context, &actions);
    assert_eq!(list.len(), 2);
    assert_eq!(list[0].action, discard(112));
    assert_eq!(
        (list[0].shanten, list[0].ukeire, list[0].safe_against_riichi_count),
        (0, 3, 1)
    );
    assert_eq!(list[1].action, discard(0));
    assert_eq!(list[1].shanten, 1);
    assert!(evaluate_discard(&context, &actions[3]).is_none());
}

#[test]
fn the_best_discard_keeps_the_hand_ready() {
    let actions: Vec<Action> = READY_BY_SOUTH.iter().map(|kind| discard(*kind as u8 * 4)).collect();
    let o = observation(tiles(&READY_BY_SOUTH), actions);
    assert_eq!(choose_action(&o).unwrap(), discard(112));
    let context = RuleContext::new(&o);
    assert_eq!(choose_best_discard(&context, &o.legal_actions).unwrap(), discard(112));
    assert_eq!(choose_betaori_discard(&context, &o.legal_actions), None);
}

// 147m 258p 369s and five single honors.
const SCATTERED: [u32; 14] = [0, 3, 6, 10, 13, 16, 20, 23, 26, 27, 28, 29, 30, 32];

#[test]
fn in_defence_the_safest_tile_is_discarded() {
    let actions: Vec<Action> = SCATTERED.iter().map(|kind| discard(*kind as u8 * 4)).collect();
    let mut o = observation(tiles(&SCATTERED), actions);
    o.riichi_declared = [false, true, false, true];
    o.discards[1] = vec![13, 54];
    o.discards[3] = vec![55];
    assert_eq!(choose_action(&o).unwrap(), discard(52));
    let context = RuleContext::new(&o);
    assert!(context.current_shanten() >= 2);
    assert_eq!(choose_betaori_discard(&context, &o.legal_actions).unwrap(), discard(52));
}

#[test]
fn wins_and_riichi_come_first() {
    let mut o = observation(vec![], vec![]);
    o.player_id = 9;
    assert_eq!(choose_action(&o), None);
    o.legal_actions = vec![discard(0), action(ActionType::Riichi, None, vec![])];
    assert_eq!(choose_action(&o).unwrap().action_type, ActionType::Riichi);
    o.legal_actions.push(action(ActionType::Ron, Some(4), vec![]));
    o.legal_actions.push(action(ActionType::Tsumo, Some(8), vec![]));
    assert_eq!(choose_action(&o).unwrap().action_type, ActionType::Ron);
}

#[test]
fn a_kan_that_does_not_set_the_hand_back_is_made() {
    // 123m 456m 789m 1111z 2z
    let hand = tiles(&[0, 1, 2, 3, 4, 5, 6, 7, 8, 27, 27, 27, 27, 28]);
    let kan = action(ActionType::Ankan, Some(108), vec![108, 109, 110, 111]);
    let o = observation(hand, vec![discard(112), kan.clone()]);
    assert_eq!(choose_action(&o).unwrap(), kan);
    // 123456789m 11122z: an added kan would take a tile out of a run.
    let hand = tiles(&[0, 1, 2, 3, 4, 5, 6, 7, 8, 27, 27, 27, 28, 28]);
    let kan = action(ActionType::Kakan, Some(8), vec![9, 10, 11]);
    let o = observation(hand, vec![discard(112), kan]);
    let context = RuleContext::new(&o);
    assert_eq!(choose_kan_action(&context, &o.legal_actions), None);
}

#[test]
fn a_scoring_pon_is_made_if_it_helps() {
    // 123m 456m 78p 11s 9s 55z: a pon of white dragons leaves a ready hand.
    let hand = tiles(&[0, 1, 2, 3, 4, 5, 15, 16, 18, 18, 26, 31, 31]);
    let pass = action(ActionType::Pass, None, vec![]);
    let pon = action(ActionType::Pon, Some(126), vec![124, 125]);
    let o = observation(hand, vec![pass.clone(), pon.clone()]);
    assert_eq!(choose_action(&o).unwrap(), pon);
    let context = RuleContext::new(&o);
    assert_eq!(choose_yakuhai_pon_action(&context, &o.legal_actions).unwrap(), pon);
    let evaluation = evaluate_call(&context, &pon).unwrap();
    assert!(evaluation.shanten < context.current_shanten());
    assert!(evaluate_call(&context, &pass).is_none());
}

#[test]
fn open_calls_wait_for_a_scoring_triplet() {
    // 123m 45m 78p 23s 5p, with white dragons aside or not.
    let hand = tiles(&[0, 1, 2, 3, 4, 15, 16, 19, 20, 13]);
    let pass = action(ActionType::Pass, None, vec![]);
    let chi = action(ActionType::Chi, Some(84), vec![76, 80]);
    let mut o = observation(hand, vec![pass.clone(), chi.clone()]);
    assert_eq!(choose_action(&o).unwrap(), pass);
    o.melds[0] = vec![Meld { meld_type: MeldType::Pon, tiles: vec![124, 125, 126] }];
    assert_eq!(choose_action(&o).unwrap(), chi);
    let context = RuleContext::new(&o);
    assert_eq!(
        choose_improving_open_meld_action(&context, &o.legal_actions).unwrap(),
        chi
    );
    assert_eq!(choose_daiminkan_action(&context, &o.legal_actions), None);
}

#[test]
fn a_kan_on_a_discard_is_made_for_a_scoring_hand() {
    // 123m 456m 222p 5s, white dragons aside.
    let hand = tiles(&[0, 1, 2, 3, 4, 5, 10, 10, 10, 22]);
    let pass = action(ActionType::Pass, None, vec![]);
    let kan = action(ActionType::Daiminkan, Some(43), vec![40, 41, 42]);
    let mut o = observation(hand, vec![pass.clone(), kan.clone()]);
    assert_eq!(choose_action(&o).unwrap(), pass);
    o.melds[0] = vec![Meld { meld_type: MeldType::Pon, tiles: vec![124, 125, 126] }];
    assert_eq!(choose_action(&o).unwrap(), kan);
}

#[test]
fn the_first_action_is_the_last_resort() {
    let o = observation(
        tiles(&[0, 1, 2, 3]),
        vec![
            action(ActionType::KyushuKyuhai, None, vec![]),
            action(ActionType::Kita, None, vec![]),
        ],
    );
    assert_eq!(choose_action(&o).unwrap().action_type, ActionType::KyushuKyuhai);
}

#[test]
fn a_full_suit_is_weighed() {
    // 1112345678999m and one more five: every discard leaves a ready hand.
    let full = tiles(&[0, 0, 0, 1, 2, 3, 4, 4, 5, 6, 7, 8, 8, 8]);
    let o = observation(full.clone(), vec![discard(16), action(ActionType::Pass, None, vec![])]);
    assert_eq!(choose_action(&o).unwrap(), discard(16));
    let evaluations = discard_evaluations(&RuleContext::new(&o), &o.legal_actions);
    assert_eq!(evaluations.len(), 1);
    assert_eq!(evaluations[0].shanten, 0);
    assert_eq!(evaluations[0].ukeire, 23);

    let mut more = full;
    more.push(108);
    let o = observation(more, vec![action(ActionType::Pass, None, vec![]), discard(16)]);
    assert_eq!(choose_action(&o).unwrap(), discard(16));
}

#[test]
fn hands_are_measured_within_the_tables() {
    let fourteen = tiles(&[0, 0, 0, 0, 1, 1, 1, 1, 2, 2, 2, 2, 3, 3]);
    assert!(is_measurable(&fourteen) && !is_drawable(&fourteen));
    assert!(is_drawable(&fourteen[..13]));
    let mut fifteen = fourteen.clone();
    fifteen.push(20);
    assert!(!is_measurable(&fifteen));
    assert!(!is_measurable(&[108, 109, 110, 111, 108]));
    assert!(is_drawable(&[136, 136, 136, 136, 136]));
}

#[test]
fn only_hands_that_cannot_be_weighed_are_refused() {
    let pass = action(ActionType::Pass, None, vec![]);
    let mut hand = tiles(&[0, 0, 0, 1, 2, 3, 4, 4, 5, 6, 7, 8, 8, 8]);
    hand.push(108);

    // Discarding the wind would leave fourteen tiles of one suit.
    let o = observation(hand.clone(), vec![pass.clone(), discard(108)]);
    assert_eq!(choose_action_checked(&o), Err(NotWeighable));
    let o = observation(hand.clone(), vec![pass.clone(), discard(16)]);
    assert_eq!(choose_action_checked(&o), Ok(Some(discard(16))));
    let o = observation(hand.clone(), vec![pass.clone()]);
    assert_eq!(choose_action_checked(&o), Ok(Some(pass.clone())));

    // A win needs no weighing.
    let win = action(ActionType::Tsumo, None, vec![]);
    let mut o = observation(hand.clone(), vec![discard(108), win.clone()]);
    o.player_id = 9;
    assert_eq!(choose_action_checked(&o), Ok(Some(win)));

    hand.push(16);
    let o = observation(hand, vec![pass.clone()]);
    assert_eq!(choose_action_checked(&o), Err(NotWeighable));
    let mut o = observation(tiles(&[0, 1, 2]), vec![pass]);
    o.round_wind = 229;
    assert_eq!(choose_action_checked(&o), Err(NotWeighable));
    o.round_wind = 0;
    o.player_id = 4;
    assert_eq!(choose_action_checked(&o), Err(NotWeighable));
    assert_eq!(choose_action_checked(&observation(vec![], vec![])), Ok(None));
}
