//! Hands of tiles: counting by kind, taking tiles out, and measuring how far a hand is from ready.
//!
//! A tile is a number; four consecutive numbers are the copies of one kind. The kinds from 0 to 33
//! are, in this order, the nine ranks of each of the three suits and the seven honors. Tiles of a
//! higher kind do not exist, and nothing counts them.

use crate::engine::{Action, ActionType, ActionView};
use vstd::prelude::*;
use vstd::slice::slice_to_vec;

verus! {

/// The kind of a tile.
pub open spec fn kind_of(tile: u32) -> int {
    tile as int / 4
}

/// How many tiles have a kind from `low` up to, but not including, `high`.
pub open spec fn count_between(tiles: Seq<u32>, low: int, high: int) -> nat
    decreases tiles.len(),
{
    if tiles.len() == 0 {
        0
    } else {
        count_between(tiles.drop_last(), low, high) + if low <= kind_of(tiles.last()) < high {
            1nat
        } else {
            0nat
        }
    }
}

/// How many tiles have the given kind.
pub open spec fn count_kind(tiles: Seq<u32>, kind: int) -> nat {
    count_between(tiles, kind, kind + 1)
}

/// Whether no kind occurs more than four times.
pub open spec fn four_of_a_kind_at_most(tiles: Seq<u32>) -> bool {
    forall|kind: int| 0 <= kind < 34 ==> #[trigger] count_kind(tiles, kind) <= 4
}

/// Whether each suit, and the honors together, hold at most `limit` tiles.
pub open spec fn suits_within(tiles: Seq<u32>, limit: nat) -> bool {
    &&& count_between(tiles, 0, 9) <= limit
    &&& count_between(tiles, 9, 18) <= limit
    &&& count_between(tiles, 18, 27) <= limit
    &&& count_between(tiles, 27, 34) <= limit
}

/// Whether the engine can measure a hand.
pub open spec fn measurable(hand: Seq<u32>) -> bool {
    four_of_a_kind_at_most(hand) && suits_within(hand, 14)
}

/// Whether the engine can measure a hand with any tile added of which it holds fewer than four.
pub open spec fn drawable(hand: Seq<u32>) -> bool {
    four_of_a_kind_at_most(hand) && suits_within(hand, 13)
}

/// Whether two hands hold the same number of tiles of every kind.
pub open spec fn same_kinds(left: Seq<u32>, right: Seq<u32>) -> bool {
    forall|kind: int|
        0 <= kind < 34 ==> #[trigger] count_kind(left, kind) == count_kind(right, kind)
}

/// The engine's measure of a hand: the number of tiles it has to exchange to be ready.
pub uninterp spec fn shanten_number(hand: Seq<u32>) -> i32;

/// Calls `riichienv_core::shanten::calculate_shanten`, which counts the tiles of each kind and
/// looks the counts up in tables. The tables have room for four tiles of a kind and fourteen of a
/// suit or of the honors; the function panics beyond that.
///
/// Claimed: the measure depends on the hand alone, and it is the same for any other hand with the
/// same number of tiles of every kind.
#[verifier::external_body]
pub(crate) fn calculate_shanten(hand: &[u32]) -> (shanten: i32)
    requires
        measurable(hand@),
    ensures
        shanten == shanten_number(hand@),
        forall|other: Seq<u32>| #[trigger]
            same_kinds(hand@, other) ==> shanten == shanten_number(other),
{
    riichienv_core::shanten::calculate_shanten(hand)
}

proof fn lemma_count_push(tiles: Seq<u32>, tile: u32, low: int, high: int)
    ensures
        count_between(tiles.push(tile), low, high) == count_between(tiles, low, high) + if low
            <= kind_of(tile) < high {
            1nat
        } else {
            0nat
        },
{
    assert(tiles.push(tile).drop_last() =~= tiles);
}

proof fn lemma_count_remove(tiles: Seq<u32>, i: int, low: int, high: int)
    requires
        0 <= i < tiles.len(),
    ensures
        count_between(tiles, low, high) == count_between(tiles.remove(i), low, high) + if low
            <= kind_of(tiles[i]) < high {
            1nat
        } else {
            0nat
        },
    decreases tiles.len(),
{
    if i == tiles.len() - 1 {
        assert(tiles.remove(i) =~= tiles.drop_last());
    } else {
        lemma_count_remove(tiles.drop_last(), i, low, high);
        assert(tiles.remove(i).drop_last() =~= tiles.drop_last().remove(i));
        assert(tiles.remove(i).last() == tiles.last());
    }
}

proof fn lemma_count_at_most_len(tiles: Seq<u32>, low: int, high: int)
    ensures
        count_between(tiles, low, high) <= tiles.len(),
    decreases tiles.len(),
{
    if tiles.len() > 0 {
        lemma_count_at_most_len(tiles.drop_last(), low, high);
    }
}

/// A hand that can take a tile can take every kind of which it holds fewer than four.
proof fn lemma_drawn_hand_measurable(hand: Seq<u32>, kind: int)
    requires
        drawable(hand),
        0 <= kind < 34,
        count_kind(hand, kind) < 4,
    ensures
        measurable(hand.push((kind * 4) as u32)),
{
    let tile = (kind * 4) as u32;
    let drawn = hand.push(tile);
    assert(kind_of(tile) == kind);
    lemma_count_push(hand, tile, 0, 9);
    lemma_count_push(hand, tile, 9, 18);
    lemma_count_push(hand, tile, 18, 27);
    lemma_count_push(hand, tile, 27, 34);
    assert forall|k: int| 0 <= k < 34 implies #[trigger] count_kind(drawn, k) <= 4 by {
        lemma_count_push(hand, tile, k, k + 1);
        assert(count_kind(hand, k) <= 4);
    }
}

/// Counts the tiles of a kind.
pub fn count_tile_type(hand: &[u32], tile_type: u32) -> (count: usize)
    ensures
        count == count_kind(hand@, tile_type as int),
{
    let mut count: usize = 0;
    let mut i: usize = 0;
    while i < hand.len()
        invariant
            i <= hand@.len(),
            count <= i,
            count == count_kind(hand@.take(i as int), tile_type as int),
        decreases hand.len() - i,
    {
        assert(hand@.take(i + 1).drop_last() =~= hand@.take(i as int));
        if hand[i] / 4 == tile_type {
            count = count + 1;
        }
        i = i + 1;
    }
    assert(hand@.take(i as int) =~= hand@);
    count
}

/// Whether the hand holds a tile of the kind.
pub open spec fn has_kind(hand: Seq<u32>, kind: int) -> bool {
    exists|i: int| 0 <= i < hand.len() && kind_of(#[trigger] hand[i]) == kind
}

/// Whether the first tile of the kind stands at the position.
pub open spec fn is_first_of_kind(hand: Seq<u32>, kind: int, position: int) -> bool {
    &&& 0 <= position < hand.len()
    &&& kind_of(hand[position]) == kind
    &&& forall|i: int| 0 <= i < position ==> kind_of(#[trigger] hand[i]) != kind
}

/// The hand without its first tile of the kind; the hand itself if it holds none.
pub open spec fn without_one(hand: Seq<u32>, kind: int) -> Seq<u32> {
    if has_kind(hand, kind) {
        hand.remove(choose|position: int| is_first_of_kind(hand, kind, position))
    } else {
        hand
    }
}

proof fn lemma_without_one_at(hand: Seq<u32>, kind: int, position: int)
    requires
        is_first_of_kind(hand, kind, position),
    ensures
        has_kind(hand, kind),
        without_one(hand, kind) == hand.remove(position),
{
    let chosen = choose|p: int| is_first_of_kind(hand, kind, p);
    assert(is_first_of_kind(hand, kind, chosen));
    if chosen < position {
        assert(kind_of(hand[chosen]) != kind);
    }
    if position < chosen {
        assert(kind_of(hand[position]) != kind);
    }
}

/// Taking a tile of a kind out of a hand that holds one leaves one tile fewer, of that kind one
/// fewer and of every other kind as many as before.
pub proof fn law_removal_takes_one_tile(hand: Seq<u32>, kind: int, other: int)
    requires
        has_kind(hand, kind),
    ensures
        without_one(hand, kind).len() == hand.len() - 1,
        count_kind(without_one(hand, kind), kind) == count_kind(hand, kind) - 1,
        other != kind ==> count_kind(without_one(hand, kind), other) == count_kind(hand, other),
{
    let position = lemma_first_of_kind(hand, kind);
    lemma_without_one_at(hand, kind, position);
    lemma_count_remove(hand, position, kind, kind + 1);
    lemma_count_remove(hand, position, other, other + 1);
}

proof fn lemma_first_of_kind(hand: Seq<u32>, kind: int) -> (position: int)
    requires
        has_kind(hand, kind),
    ensures
        is_first_of_kind(hand, kind, position),
    decreases hand.len(),
{
    let found = choose|i: int| 0 <= i < hand.len() && kind_of(#[trigger] hand[i]) == kind;
    let before = hand.take(found);
    if has_kind(before, kind) {
        let position = lemma_first_of_kind(before, kind);
        assert forall|i: int| 0 <= i < position implies kind_of(#[trigger] hand[i]) != kind by {
            assert(kind_of(before[i]) != kind);
        }
        assert(hand[position] == before[position]);
        position
    } else {
        assert forall|i: int| 0 <= i < found implies kind_of(#[trigger] hand[i]) != kind by {
            assert(before[i] == hand[i]);
        }
        found
    }
}

proof fn lemma_without_one_shrinks(hand: Seq<u32>, kind: int)
    ensures
        without_one(hand, kind).len() <= hand.len(),
        without_one(hand, kind).len() == hand.len() ==> without_one(hand, kind) == hand,
        has_kind(hand, kind) ==> without_one(hand, kind).len() < hand.len(),
        forall|low: int, high: int| #[trigger]
            count_between(without_one(hand, kind), low, high) <= count_between(hand, low, high),
{
    if has_kind(hand, kind) {
        let position = lemma_first_of_kind(hand, kind);
        lemma_without_one_at(hand, kind, position);
        assert forall|low: int, high: int| #[trigger]
            count_between(without_one(hand, kind), low, high) <= count_between(
                hand,
                low,
                high,
            ) by {
            lemma_count_remove(hand, position, low, high);
        }
    }
}

/// Takes the first tile of the same kind as `tile` out of the hand, if there is one.
pub fn remove_one_tile(hand: &mut Vec<u32>, tile: u32) -> (removed: Option<()>)
    ensures
        removed is Some <==> has_kind(old(hand)@, kind_of(tile)),
        final(hand)@ == without_one(old(hand)@, kind_of(tile)),
{
    let target_type: u32 = tile / 4;
    let mut position: usize = 0;
    while position < hand.len()
        invariant
            hand@ == old(hand)@,
            target_type == kind_of(tile),
            position <= hand@.len(),
            forall|i: int| 0 <= i < position ==> kind_of(#[trigger] hand@[i]) != kind_of(tile),
        decreases hand.len() - position,
    {
        if hand[position] / 4 == target_type {
            proof {
                lemma_without_one_at(hand@, kind_of(tile), position as int);
            }
            hand.remove(position);
            return Some(());
        }
        position = position + 1;
    }
    None
}

/// The hand without one tile of the kind of each of the given tiles, as far as it holds them.
pub open spec fn without_all(hand: Seq<u32>, tiles: Seq<u8>) -> Seq<u32>
    decreases tiles.len(),
{
    if tiles.len() == 0 {
        hand
    } else {
        without_one(without_all(hand, tiles.drop_last()), kind_of(tiles.last() as u32))
    }
}

/// What is left of a hand after a call: a concealed or open call uses up the consumed tiles, an
/// added kan the added tile.
pub open spec fn hand_after_call(hand: Seq<u32>, action: ActionView) -> Seq<u32> {
    match action.action_type {
        ActionType::Ankan
        | ActionType::Chi
        | ActionType::Pon
        | ActionType::Daiminkan => without_all(hand, action.consume_tiles),
        ActionType::Kakan => match action.tile {
            Some(tile) => without_one(hand, kind_of(tile as u32)),
            None => hand,
        },
        _ => hand,
    }
}

proof fn lemma_without_all_shrinks(hand: Seq<u32>, tiles: Seq<u8>)
    ensures
        without_all(hand, tiles).len() <= hand.len(),
        without_all(hand, tiles).len() == hand.len() ==> without_all(hand, tiles) == hand,
        forall|low: int, high: int| #[trigger]
            count_between(without_all(hand, tiles), low, high) <= count_between(hand, low, high),
    decreases tiles.len(),
{
    if tiles.len() > 0 {
        let before = without_all(hand, tiles.drop_last());
        lemma_without_all_shrinks(hand, tiles.drop_last());
        lemma_without_one_shrinks(before, kind_of(tiles.last() as u32));
        assert forall|low: int, high: int| #[trigger]
            count_between(without_all(hand, tiles), low, high) <= count_between(
                hand,
                low,
                high,
            ) by {
            assert(count_between(before, low, high) <= count_between(hand, low, high));
        }
    }
}

/// A call never adds a tile: the hand after it holds no more tiles of any range of kinds than the
/// hand before it, and if it holds as many tiles in all it is the same hand.
pub proof fn law_call_adds_no_tile(hand: Seq<u32>, action: ActionView)
    ensures
        hand_after_call(hand, action).len() <= hand.len(),
        hand_after_call(hand, action).len() == hand.len() ==> hand_after_call(hand, action)
            == hand,
        forall|low: int, high: int| #[trigger]
            count_between(hand_after_call(hand, action), low, high) <= count_between(
                hand,
                low,
                high,
            ),
{
    match action.action_type {
        ActionType::Ankan
        | ActionType::Chi
        | ActionType::Pon
        | ActionType::Daiminkan => lemma_without_all_shrinks(hand, action.consume_tiles),
        ActionType::Kakan => {
            if let Some(tile) = action.tile {
                lemma_without_one_shrinks(hand, kind_of(tile as u32));
            }
        },
        _ => {},
    }
}

/// An added kan takes the added tile, and no other, out of a hand that holds it.
pub proof fn law_added_kan_takes_only_the_added_tile(
    hand: Seq<u32>,
    action: ActionView,
    tile: u8,
    other: int,
)
    requires
        action.action_type == ActionType::Kakan,
        action.tile == Some(tile),
        has_kind(hand, kind_of(tile as u32)),
    ensures
        hand_after_call(hand, action).len() == hand.len() - 1,
        count_kind(hand_after_call(hand, action), kind_of(tile as u32)) == count_kind(
            hand,
            kind_of(tile as u32),
        ) - 1,
        other != kind_of(tile as u32) ==> count_kind(hand_after_call(hand, action), other)
            == count_kind(hand, other),
{
    law_removal_takes_one_tile(hand, kind_of(tile as u32), other);
}

/// Takes the tiles that a call uses up out of a copy of the hand.
pub fn hand_after_call_action(hand: &[u32], action: &Action) -> (new_hand: Vec<u32>)
    ensures
        new_hand@ == hand_after_call(hand@, action@),
{
    let mut new_hand = slice_to_vec(hand);
    match action.action_type {
        ActionType::Ankan
        | ActionType::Chi
        | ActionType::Pon
        | ActionType::Daiminkan => {
            let tiles = &action.consume_tiles;
            let mut i: usize = 0;
            while i < tiles.len()
                invariant
                    i <= tiles@.len(),
                    new_hand@ == without_all(hand@, tiles@.take(i as int)),
                decreases tiles.len() - i,
            {
                assert(tiles@.take(i + 1).drop_last() =~= tiles@.take(i as int));
                let _ = remove_one_tile(&mut new_hand, tiles[i] as u32);
                i = i + 1;
            }
            assert(tiles@.take(i as int) =~= tiles@);
        },
        ActionType::Kakan => {
            if let Some(tile) = action.tile {
                let _ = remove_one_tile(&mut new_hand, tile as u32);
            }
        },
        _ => {},
    }
    new_hand
}

/// How many tiles of a kind are neither in the hand nor in sight.
pub open spec fn unseen(hand: Seq<u32>, visible: Seq<u32>, kind: int) -> nat {
    let seen = count_kind(visible, kind) + count_kind(hand, kind);
    if seen < 4 {
        (4 - seen) as nat
    } else {
        0
    }
}

/// Whether drawing a tile of the kind brings the hand closer to ready.
pub open spec fn improves(hand: Seq<u32>, kind: int) -> bool {
    count_kind(hand, kind) < 4 && shanten_number(hand.push((kind * 4) as u32)) < shanten_number(
        hand,
    )
}

/// How many unseen tiles of the kinds below `kinds` bring the hand closer to ready.
pub open spec fn ukeire_below(hand: Seq<u32>, visible: Seq<u32>, kinds: int) -> nat
    decreases kinds,
{
    if kinds <= 0 {
        0
    } else {
        ukeire_below(hand, visible, kinds - 1) + if improves(hand, kinds - 1) {
            unseen(hand, visible, kinds - 1)
        } else {
            0
        }
    }
}

/// How many unseen tiles bring the hand closer to ready.
pub open spec fn ukeire(hand: Seq<u32>, visible: Seq<u32>) -> nat {
    ukeire_below(hand, visible, 34)
}

/// The counts of tiles by kind, each cut off at 255.
fn kind_counts(tiles: &[u32]) -> (counts: [u8; 34])
    ensures
        forall|kind: int|
            0 <= kind < 34 ==> #[trigger] counts@[kind] as nat == if count_kind(tiles@, kind)
                <= 255 {
                count_kind(tiles@, kind)
            } else {
                255
            },
{
    let mut counts: [u8; 34] = [0u8;34];
    let mut i: usize = 0;
    while i < tiles.len()
        invariant
            i <= tiles@.len(),
            forall|kind: int|
                0 <= kind < 34 ==> #[trigger] counts@[kind] as nat == if count_kind(
                    tiles@.take(i as int),
                    kind,
                ) <= 255 {
                    count_kind(tiles@.take(i as int), kind)
                } else {
                    255
                },
        decreases tiles.len() - i,
    {
        assert(tiles@.take(i + 1).drop_last() =~= tiles@.take(i as int));
        let tile_type = (tiles[i] / 4) as usize;
        if tile_type < 34 {
            counts[tile_type] = counts[tile_type].saturating_add(1);
        }
        i = i + 1;
    }
    assert(tiles@.take(i as int) =~= tiles@);
    counts
}

/// Counts the unseen tiles that bring the hand closer to ready. The count is the same for every
/// hand with the same number of tiles of every kind.
pub fn calculate_ukeire(hand: &[u32], visible_tiles: &[u32]) -> (count: u32)
    requires
        drawable(hand@),
    ensures
        count == ukeire(hand@, visible_tiles@),
        forall|other: Seq<u32>| #[trigger]
            same_kinds(hand@, other) ==> count == ukeire(other, visible_tiles@),
{
    let current_shanten = calculate_shanten(hand);
    let visible_counts = kind_counts(visible_tiles);
    let hand_counts = kind_counts(hand);
    let mut count: u32 = 0;
    let mut tile_type: u32 = 0;
    while tile_type < 34
        invariant
            drawable(hand@),
            current_shanten == shanten_number(hand@),
            forall|other: Seq<u32>| #[trigger]
                same_kinds(hand@, other) ==> current_shanten == shanten_number(other),
            forall|kind: int|
                0 <= kind < 34 ==> #[trigger] visible_counts@[kind] as nat == if count_kind(
                    visible_tiles@,
                    kind,
                ) <= 255 {
                    count_kind(visible_tiles@, kind)
                } else {
                    255
                },
            forall|kind: int|
                0 <= kind < 34 ==> #[trigger] hand_counts@[kind] as nat == if count_kind(
                    hand@,
                    kind,
                ) <= 255 {
                    count_kind(hand@, kind)
                } else {
                    255
                },
            tile_type <= 34,
            count <= 4 * tile_type,
            count == ukeire_below(hand@, visible_tiles@, tile_type as int),
            forall|other: Seq<u32>| #[trigger]
                same_kinds(hand@, other) ==> count == ukeire_below(
                    other,
                    visible_tiles@,
                    tile_type as int,
                ),
        decreases 34 - tile_type,
    {
        let ghost kind = tile_type as int;
        let held = hand_counts[tile_type as usize];
        assert(count_kind(hand@, kind) <= 4);
        if held < 4 {
            proof {
                lemma_drawn_hand_measurable(hand@, kind);
            }
            let mut test_hand = slice_to_vec(hand);
            test_hand.push(tile_type * 4);
            let test_shanten = calculate_shanten(test_hand.as_slice());
            proof {
                assert forall|other: Seq<u32>| #[trigger] same_kinds(hand@, other) implies improves(
                    other,
                    kind,
                ) == improves(hand@, kind) && unseen(other, visible_tiles@, kind) == unseen(
                    hand@,
                    visible_tiles@,
                    kind,
                ) by {
                    lemma_same_kinds_push(hand@, other, (kind * 4) as u32);
                    assert(count_kind(hand@, kind) == count_kind(other, kind));
                }
            }
            if test_shanten < current_shanten {
                let seen: u32 = visible_counts[tile_type as usize] as u32 + held as u32;
                count = count + 4u32.saturating_sub(seen);
            }
        } else {
            assert forall|other: Seq<u32>| #[trigger] same_kinds(hand@, other) implies !improves(
                other,
                kind,
            ) by {
                assert(count_kind(hand@, kind) == count_kind(other, kind));
            }
        }
        tile_type = tile_type + 1;
    }
    count
}

proof fn lemma_same_kinds_push(left: Seq<u32>, right: Seq<u32>, tile: u32)
    requires
        same_kinds(left, right),
    ensures
        same_kinds(left.push(tile), right.push(tile)),
{
    assert forall|kind: int| 0 <= kind < 34 implies #[trigger] count_kind(left.push(tile), kind)
        == count_kind(right.push(tile), kind) by {
        lemma_count_push(left, tile, kind, kind + 1);
        lemma_count_push(right, tile, kind, kind + 1);
        assert(count_kind(left, kind) == count_kind(right, kind));
    }
}

/// One more tile in sight, wherever it stands among the others, never raises the count of tiles
/// that improve a hand, and lowers it by one at most. A tile that does not exist changes nothing.
pub proof fn law_seen_tile_costs_one_at_most(
    hand: Seq<u32>,
    visible: Seq<u32>,
    position: int,
    tile: u32,
)
    requires
        0 <= position <= visible.len(),
    ensures
        ukeire(hand, visible.insert(position, tile)) <= ukeire(hand, visible),
        ukeire(hand, visible) <= ukeire(hand, visible.insert(position, tile)) + 1,
        kind_of(tile) >= 34 ==> ukeire(hand, visible.insert(position, tile)) == ukeire(
            hand,
            visible,
        ),
{
    let more = visible.insert(position, tile);
    assert(more.remove(position) =~= visible);
    assert forall|kind: int| #[trigger] count_kind(more, kind) == count_kind(visible, kind) + if kind
        == kind_of(tile) {
        1nat
    } else {
        0nat
    } by {
        lemma_count_remove(more, position, kind, kind + 1);
    }
    lemma_seen_tile_below(hand, visible, more, kind_of(tile), 34);
}

proof fn lemma_seen_tile_below(
    hand: Seq<u32>,
    visible: Seq<u32>,
    more: Seq<u32>,
    seen: int,
    kinds: int,
)
    requires
        forall|kind: int| #[trigger]
            count_kind(more, kind) == count_kind(visible, kind) + if kind == seen {
                1nat
            } else {
                0nat
            },
    ensures
        ukeire_below(hand, more, kinds) <= ukeire_below(hand, visible, kinds),
        ukeire_below(hand, visible, kinds) <= ukeire_below(hand, more, kinds) + 1,
        seen >= kinds ==> ukeire_below(hand, more, kinds) == ukeire_below(hand, visible, kinds),
    decreases kinds,
{
    if kinds > 0 {
        lemma_seen_tile_below(hand, visible, more, seen, kinds - 1);
        assert(count_kind(more, kinds - 1) == count_kind(visible, kinds - 1) + if kinds - 1 == seen {
            1nat
        } else {
            0nat
        });
    }
}

/// The count of tiles that improve a hand depends only on how many tiles of each kind are in sight.
pub proof fn law_ukeire_counts_visible_kinds(hand: Seq<u32>, visible: Seq<u32>, other: Seq<u32>)
    requires
        same_kinds(visible, other),
    ensures
        ukeire(hand, visible) == ukeire(hand, other),
{
    lemma_visible_kinds_below(hand, visible, other, 34);
}

proof fn lemma_visible_kinds_below(
    hand: Seq<u32>,
    visible: Seq<u32>,
    other: Seq<u32>,
    kinds: int,
)
    requires
        same_kinds(visible, other),
        kinds <= 34,
    ensures
        ukeire_below(hand, visible, kinds) == ukeire_below(hand, other, kinds),
    decreases kinds,
{
    if kinds > 0 {
        lemma_visible_kinds_below(hand, visible, other, kinds - 1);
        assert(count_kind(visible, kinds - 1) == count_kind(other, kinds - 1));
    }
}

/// The same tiles in another order have the same number of tiles of every kind.
pub proof fn law_order_keeps_kinds(tiles: Seq<u32>, other: Seq<u32>)
    requires
        tiles.to_multiset() == other.to_multiset(),
    ensures
        same_kinds(tiles, other),
{
    assert forall|kind: int| 0 <= kind < 34 implies #[trigger] count_kind(tiles, kind)
        == count_kind(other, kind) by {
        lemma_count_of_multiset(tiles, other, kind, kind + 1);
    }
}

/// The order of the tiles in sight does not matter for the count of tiles that improve a hand.
pub proof fn law_ukeire_ignores_order(hand: Seq<u32>, visible: Seq<u32>, other: Seq<u32>)
    requires
        visible.to_multiset() == other.to_multiset(),
    ensures
        ukeire(hand, visible) == ukeire(hand, other),
{
    law_order_keeps_kinds(visible, other);
    law_ukeire_counts_visible_kinds(hand, visible, other);
}

proof fn lemma_count_of_multiset(tiles: Seq<u32>, other: Seq<u32>, low: int, high: int)
    requires
        tiles.to_multiset() == other.to_multiset(),
    ensures
        count_between(tiles, low, high) == count_between(other, low, high),
    decreases tiles.len(),
{
    broadcast use vstd::seq_lib::group_to_multiset_ensures;

    assert(tiles.to_multiset().len() == tiles.len() && other.to_multiset().len() == other.len());
    if tiles.len() > 0 {
        let last = tiles.last();
        assert(tiles.contains(last));
        assert(other.to_multiset().count(last) > 0);
        let i = other.index_of(last);
        assert(tiles.drop_last() =~= tiles.remove(tiles.len() - 1));
        lemma_count_of_multiset(tiles.drop_last(), other.remove(i), low, high);
        lemma_count_remove(other, i, low, high);
    }
}

/// Counts the tiles with a kind from `low` up to, but not including, `high`.
fn count_kinds_between(hand: &[u32], low: u32, high: u32) -> (count: usize)
    ensures
        count == count_between(hand@, low as int, high as int),
{
    let mut count: usize = 0;
    let mut i: usize = 0;
    while i < hand.len()
        invariant
            i <= hand@.len(),
            count <= i,
            count == count_between(hand@.take(i as int), low as int, high as int),
        decreases hand.len() - i,
    {
        assert(hand@.take(i + 1).drop_last() =~= hand@.take(i as int));
        let kind: u32 = hand[i] / 4;
        if low <= kind && kind < high {
            count = count + 1;
        }
        i = i + 1;
    }
    assert(hand@.take(i as int) =~= hand@);
    count
}

/// Whether no kind occurs more than four times, and each suit, and the honors together, hold at
/// most `limit` tiles.
fn within_tables(hand: &[u32], limit: usize) -> (within: bool)
    ensures
        within == (four_of_a_kind_at_most(hand@) && suits_within(hand@, limit as nat)),
{
    let counts = kind_counts(hand);
    let mut kind: usize = 0;
    while kind < 34
        invariant
            kind <= 34,
            forall|k: int|
                0 <= k < 34 ==> #[trigger] counts@[k] as nat == if count_kind(hand@, k) <= 255 {
                    count_kind(hand@, k)
                } else {
                    255
                },
            forall|k: int| 0 <= k < kind ==> #[trigger] count_kind(hand@, k) <= 4,
        decreases 34 - kind,
    {
        assert(counts@[kind as int] as nat <= 4 <==> count_kind(hand@, kind as int) <= 4);
        if counts[kind] > 4 {
            return false;
        }
        kind = kind + 1;
    }
    count_kinds_between(hand, 0, 9) <= limit && count_kinds_between(hand, 9, 18) <= limit
        && count_kinds_between(hand, 18, 27) <= limit && count_kinds_between(hand, 27, 34) <= limit
}

/// Whether the engine can measure a hand.
pub fn is_measurable(hand: &[u32]) -> (yes: bool)
    ensures
        yes == measurable(hand@),
{
    within_tables(hand, 14)
}

/// Whether the engine can measure a hand with any tile added of which it holds fewer than four.
pub fn is_drawable(hand: &[u32]) -> (yes: bool)
    ensures
        yes == drawable(hand@),
{
    within_tables(hand, 13)
}

/// Whether a hand holds no kind more than four times, and either at most fourteen tiles, or at most
/// thirteen of each suit and of the honors.
pub open spec fn playable(hand: Seq<u32>) -> bool {
    four_of_a_kind_at_most(hand) && (suits_within(hand, 13) || hand.len() <= 14)
}

/// A playable hand can be measured; what a discard, or a call that takes tiles out of it, leaves of
/// it can take a tile.
pub proof fn law_playable_hand_is_drawable(hand: Seq<u32>)
    requires
        playable(hand),
    ensures
        measurable(hand),
        forall|kind: int| #[trigger] has_kind(hand, kind) ==> drawable(without_one(hand, kind)),
        forall|action: ActionView| #[trigger]
            hand_after_call(hand, action) != hand ==> drawable(hand_after_call(hand, action)),
{
    lemma_suits_within_len(hand);
    assert forall|kind: int| #[trigger] has_kind(hand, kind) implies drawable(
        without_one(hand, kind),
    ) by {
        lemma_without_one_shrinks(hand, kind);
        lemma_fewer_tiles_drawable(hand, without_one(hand, kind));
    }
    assert forall|action: ActionView| #[trigger] hand_after_call(hand, action) != hand implies drawable(
        hand_after_call(hand, action),
    ) by {
        law_call_adds_no_tile(hand, action);
        lemma_fewer_tiles_drawable(hand, hand_after_call(hand, action));
    }
}

/// What is left of a playable hand once tiles are taken out of it can take a tile.
proof fn lemma_fewer_tiles_drawable(hand: Seq<u32>, rest: Seq<u32>)
    requires
        playable(hand),
        rest.len() < hand.len(),
        forall|low: int, high: int| #[trigger]
            count_between(rest, low, high) <= count_between(hand, low, high),
    ensures
        drawable(rest),
{
    lemma_suits_within_len(rest);
    assert forall|kind: int| 0 <= kind < 34 implies #[trigger] count_kind(rest, kind) <= 4 by {
        assert(count_kind(hand, kind) <= 4);
    }
}

/// What a call leaves of a measurable hand is measurable.
pub(crate) proof fn lemma_call_measurable(hand: Seq<u32>, action: ActionView)
    requires
        measurable(hand),
    ensures
        measurable(hand_after_call(hand, action)),
{
    let after = hand_after_call(hand, action);
    law_call_adds_no_tile(hand, action);
    assert forall|kind: int| 0 <= kind < 34 implies #[trigger] count_kind(after, kind) <= 4 by {
        assert(count_kind(hand, kind) <= 4);
    }
}

proof fn lemma_suits_within_len(hand: Seq<u32>)
    ensures
        suits_within(hand, hand.len()),
{
    lemma_count_at_most_len(hand, 0, 9);
    lemma_count_at_most_len(hand, 9, 18);
    lemma_count_at_most_len(hand, 18, 27);
    lemma_count_at_most_len(hand, 27, 34);
}

/// Four consecutive tiles, the first of them a multiple of four, are of one kind.
pub proof fn law_four_tiles_to_a_kind(tile: u32, kind: int)
    ensures
        kind_of(tile) == kind <==> 4 * kind <= tile < 4 * kind + 4,
{
}

/// The count of a kind goes up by one with each tile of the kind, and with no other.
pub proof fn law_count_goes_tile_by_tile(tiles: Seq<u32>, tile: u32, kind: int)
    ensures
        count_kind(Seq::empty(), kind) == 0,
        4 * kind <= tile < 4 * kind + 4 ==> count_kind(tiles.push(tile), kind) == count_kind(
            tiles,
            kind,
        ) + 1,
        !(4 * kind <= tile < 4 * kind + 4) ==> count_kind(tiles.push(tile), kind) == count_kind(
            tiles,
            kind,
        ),
{
    lemma_count_push(tiles, tile, kind, kind + 1);
}

/// The count of a range of kinds is the sum of the counts of its kinds.
pub proof fn law_range_counts_its_kinds(tiles: Seq<u32>, low: int, high: int)
    ensures
        low >= high ==> count_between(tiles, low, high) == 0,
        low < high ==> count_between(tiles, low, high) == count_kind(tiles, low) + count_between(
            tiles,
            low + 1,
            high,
        ),
    decreases tiles.len(),
{
    if tiles.len() > 0 {
        law_range_counts_its_kinds(tiles.drop_last(), low, high);
    }
}

/// A hand can be measured exactly if it holds at most four tiles of every kind, and at most fourteen
/// of each suit and of the honors; it can take a tile exactly if it holds at most thirteen of each.
pub proof fn law_limits_of_the_tables(hand: Seq<u32>)
    ensures
        measurable(hand) <==> (forall|kind: int|
            0 <= kind < 34 ==> #[trigger] count_kind(hand, kind) <= 4) && count_between(hand, 0, 9)
            <= 14 && count_between(hand, 9, 18) <= 14 && count_between(hand, 18, 27) <= 14
            && count_between(hand, 27, 34) <= 14,
        drawable(hand) <==> (forall|kind: int|
            0 <= kind < 34 ==> #[trigger] count_kind(hand, kind) <= 4) && count_between(hand, 0, 9)
            <= 13 && count_between(hand, 9, 18) <= 13 && count_between(hand, 18, 27) <= 13
            && count_between(hand, 27, 34) <= 13,
{
}

/// A hand of at most fourteen tiles, no kind more than four times, can be measured; one of at most
/// thirteen can also take a tile.
pub proof fn law_dealt_hands_are_measurable(hand: Seq<u32>)
    requires
        forall|kind: int| 0 <= kind < 34 ==> #[trigger] count_kind(hand, kind) <= 4,
    ensures
        hand.len() <= 14 ==> measurable(hand),
        hand.len() <= 13 ==> drawable(hand),
{
    lemma_suits_within_len(hand);
}

/// Taking out a tile of a kind takes out the one that no other of the kind precedes, and keeps all
/// others in their order.
pub proof fn law_first_of_the_kind_is_removed(hand: Seq<u32>, kind: int, position: int)
    requires
        0 <= position < hand.len(),
        hand[position] as int / 4 == kind,
        forall|i: int| 0 <= i < position ==> (#[trigger] hand[i]) as int / 4 != kind,
    ensures
        has_kind(hand, kind),
        without_one(hand, kind) == hand.take(position) + hand.skip(position + 1),
{
    lemma_without_one_at(hand, kind, position);
    assert(hand.remove(position) =~= hand.take(position) + hand.skip(position + 1));
}

/// Taking a tile of a kind out of a hand without one changes nothing.
pub proof fn law_missing_kind_is_not_removed(hand: Seq<u32>, kind: int)
    requires
        forall|i: int| 0 <= i < hand.len() ==> (#[trigger] hand[i]) as int / 4 != kind,
    ensures
        !has_kind(hand, kind),
        without_one(hand, kind) == hand,
{
}

/// A hand holds a kind exactly if it holds at least one tile of it.
pub proof fn law_held_kinds_count(hand: Seq<u32>, kind: int)
    ensures
        has_kind(hand, kind) <==> count_kind(hand, kind) >= 1,
    decreases hand.len(),
{
    if hand.len() > 0 {
        let front = hand.drop_last();
        law_held_kinds_count(front, kind);
        if has_kind(front, kind) {
            let i = choose|i: int| 0 <= i < front.len() && kind_of(#[trigger] front[i]) == kind;
            assert(kind_of(hand[i]) == kind);
        }
        if has_kind(hand, kind) && !has_kind(front, kind) {
            let i = choose|i: int| 0 <= i < hand.len() && kind_of(#[trigger] hand[i]) == kind;
            if i < front.len() {
                assert(kind_of(front[i]) == kind);
            }
        }
        if kind_of(hand.last()) == kind {
            assert(kind_of(hand[hand.len() - 1]) == kind);
        }
    }
}

/// How a call uses up the hand: a concealed kan, a chi, a pon and a kan on a discard take out one
/// tile for each consumed tile, one after the other; an added kan takes out one tile of the kind of
/// its tile, whatever it consumes; nothing else takes out a tile.
pub proof fn law_calls_take_tiles_one_by_one(hand: Seq<u32>, action: ActionView, tile: u8)
    ensures
        ({
            let more = ActionView { consume_tiles: action.consume_tiles.push(tile), ..action };
            match action.action_type {
                ActionType::Ankan
                | ActionType::Chi
                | ActionType::Pon
                | ActionType::Daiminkan => {
                    &&& action.consume_tiles.len() == 0 ==> hand_after_call(hand, action) == hand
                    &&& hand_after_call(hand, more) == without_one(
                        hand_after_call(hand, action),
                        tile as int / 4,
                    )
                },
                ActionType::Kakan => {
                    &&& action.tile == Some(tile) ==> hand_after_call(hand, action) == without_one(
                        hand,
                        tile as int / 4,
                    )
                    &&& action.tile is None ==> hand_after_call(hand, action) == hand
                },
                ActionType::Discard
                | ActionType::Ron
                | ActionType::Riichi
                | ActionType::Tsumo
                | ActionType::Pass
                | ActionType::KyushuKyuhai
                | ActionType::Kita => hand_after_call(hand, action) == hand,
            }
        }),
{
    assert(action.consume_tiles.push(tile).drop_last() =~= action.consume_tiles);
}

/// After a concealed kan, a chi, a pon or a kan on a discard, the hand holds of each kind as many
/// tiles fewer as the call consumes, as far as it held them.
pub proof fn law_calls_use_up_what_they_consume(hand: Seq<u32>, action: ActionView, kind: int)
    requires
        action.action_type == ActionType::Ankan || action.action_type == ActionType::Chi
            || action.action_type == ActionType::Pon || action.action_type
            == ActionType::Daiminkan,
    ensures
        ({
            let consumed = action.consume_tiles.filter(|tile: u8| tile as int / 4 == kind).len();
            count_kind(hand_after_call(hand, action), kind) == if count_kind(hand, kind) > consumed {
                count_kind(hand, kind) - consumed
            } else {
                0
            }
        }),
    decreases action.consume_tiles.len(),
{
    let tiles = action.consume_tiles;
    reveal(Seq::filter);
    if tiles.len() > 0 {
        let tile = tiles.last();
        let fewer = ActionView { consume_tiles: tiles.drop_last(), ..action };
        law_calls_use_up_what_they_consume(hand, fewer, kind);
        let before = hand_after_call(hand, fewer);
        law_held_kinds_count(before, tile as int / 4);
        if has_kind(before, tile as int / 4) {
            law_removal_takes_one_tile(before, tile as int / 4, kind);
        }
    }
}

/// What a kind adds to the count of tiles that improve a hand: compared with a table on which every
/// copy of the kind is in sight, and nothing else has changed, all its copies that are neither in
/// the hand nor in sight, if the hand holds fewer than four and drawing one gives a lower shanten
/// number than the hand has, however far from ready it is; and otherwise none.
pub proof fn law_improving_kinds_count_in_full(
    hand: Seq<u32>,
    visible: Seq<u32>,
    covered: Seq<u32>,
    kind: int,
)
    requires
        0 <= kind < 34,
        forall|other: int|
            0 <= other < 34 && other != kind ==> #[trigger] count_kind(covered, other)
                == count_kind(visible, other),
        count_kind(covered, kind) + count_kind(hand, kind) >= 4,
    ensures
        ukeire(hand, visible) - ukeire(hand, covered) == if count_kind(hand, kind) < 4
            && shanten_number(hand.push((4 * kind) as u32)) < shanten_number(hand) && count_kind(
            visible,
            kind,
        ) + count_kind(hand, kind) < 4 {
            4 - count_kind(visible, kind) - count_kind(hand, kind)
        } else {
            0
        },
{
    lemma_kind_counts_below(hand, visible, covered, kind, 34);
}

proof fn lemma_kind_counts_below(
    hand: Seq<u32>,
    visible: Seq<u32>,
    covered: Seq<u32>,
    kind: int,
    kinds: int,
)
    requires
        kinds <= 34,
        forall|other: int|
            0 <= other < 34 && other != kind ==> #[trigger] count_kind(covered, other)
                == count_kind(visible, other),
        count_kind(covered, kind) + count_kind(hand, kind) >= 4,
    ensures
        ukeire_below(hand, visible, kinds) - ukeire_below(hand, covered, kinds) == if 0 <= kind
            < kinds && improves(hand, kind) {
            unseen(hand, visible, kind) as int
        } else {
            0
        },
    decreases kinds,
{
    if kinds > 0 {
        lemma_kind_counts_below(hand, visible, covered, kind, kinds - 1);
        if kinds - 1 != kind {
            assert(count_kind(covered, kinds - 1) == count_kind(visible, kinds - 1));
        }
    }
}

/// With every tile in the hand or in sight, no tile improves the hand.
pub proof fn law_no_unseen_tile_no_ukeire(hand: Seq<u32>, visible: Seq<u32>)
    requires
        forall|kind: int|
            0 <= kind < 34 ==> #[trigger] count_kind(visible, kind) + count_kind(hand, kind) >= 4,
    ensures
        ukeire(hand, visible) == 0,
{
    lemma_nothing_unseen_below(hand, visible, 34);
}

proof fn lemma_nothing_unseen_below(hand: Seq<u32>, visible: Seq<u32>, kinds: int)
    requires
        kinds <= 34,
        forall|kind: int|
            0 <= kind < 34 ==> #[trigger] count_kind(visible, kind) + count_kind(hand, kind) >= 4,
    ensures
        ukeire_below(hand, visible, kinds) == 0,
    decreases kinds,
{
    if kinds > 0 {
        lemma_nothing_unseen_below(hand, visible, kinds - 1);
        assert(count_kind(visible, kinds - 1) + count_kind(hand, kinds - 1) >= 4);
    }
}

/// The count of tiles that improve a hand is at least the number of unseen copies of any kind whose
/// drawing gives a lower shanten number than the hand has; so it is positive where there is one.
pub proof fn law_improving_tile_is_counted(hand: Seq<u32>, visible: Seq<u32>, kind: int)
    requires
        0 <= kind < 34,
        count_kind(visible, kind) + count_kind(hand, kind) < 4,
        shanten_number(hand.push((4 * kind) as u32)) < shanten_number(hand),
    ensures
        ukeire(hand, visible) >= 4 - count_kind(visible, kind) - count_kind(hand, kind),
        ukeire(hand, visible) > 0,
{
    lemma_improving_kind_below(hand, visible, kind, 34);
}

proof fn lemma_improving_kind_below(hand: Seq<u32>, visible: Seq<u32>, kind: int, kinds: int)
    ensures
        0 <= kind < kinds && improves(hand, kind) ==> ukeire_below(hand, visible, kinds) >= unseen(
            hand,
            visible,
            kind,
        ),
    decreases kinds,
{
    if kinds > 0 {
        lemma_improving_kind_below(hand, visible, kind, kinds - 1);
    }
}

/// A hand that no tile brings to a lower shanten number has no improving tiles.
pub proof fn law_stuck_hand_has_no_ukeire(hand: Seq<u32>, visible: Seq<u32>)
    requires
        forall|kind: int|
            0 <= kind < 34 && #[trigger] count_kind(hand, kind) < 4 ==> shanten_number(
                hand.push((4 * kind) as u32),
            ) >= shanten_number(hand),
    ensures
        ukeire(hand, visible) == 0,
{
    lemma_stuck_below(hand, visible, 34);
}

proof fn lemma_stuck_below(hand: Seq<u32>, visible: Seq<u32>, kinds: int)
    requires
        kinds <= 34,
        forall|kind: int|
            0 <= kind < 34 && #[trigger] count_kind(hand, kind) < 4 ==> shanten_number(
                hand.push((4 * kind) as u32),
            ) >= shanten_number(hand),
    ensures
        ukeire_below(hand, visible, kinds) == 0,
    decreases kinds,
{
    if kinds > 0 {
        lemma_stuck_below(hand, visible, kinds - 1);
    }
}

/// Tiles joined to others add their counts.
pub(crate) proof fn lemma_count_joined(left: Seq<u32>, right: Seq<u32>, low: int, high: int)
    ensures
        count_between(left + right, low, high) == count_between(left, low, high) + count_between(
            right,
            low,
            high,
        ),
    decreases right.len(),
{
    if right.len() > 0 {
        assert((left + right).drop_last() =~= left + right.drop_last());
        lemma_count_joined(left, right.drop_last(), low, high);
    } else {
        assert(left + right =~= left);
    }
}

} // verus!
