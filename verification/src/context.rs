//! What the rules read of an observation.

use crate::engine::{meld_views, Meld, MeldType, MeldView, Observation, ObservationView};
use crate::hand::{
    calculate_shanten, count_kind, count_tile_type, has_kind, kind_of, lemma_count_joined,
    measurable, shanten_number,
};
use vstd::prelude::*;

verus! {

/// The kind of the east wind; the other winds follow.
pub const EAST: u8 = 27;

/// The kind of the white dragon.
pub const WHITE: u8 = 31;

/// The kind of the green dragon.
pub const GREEN: u8 = 32;

/// The kind of the red dragon.
pub const RED: u8 = 33;

/// Whether the winds of an observation can be numbered as kinds.
pub open spec fn winds_in_range(observation: ObservationView) -> bool {
    &&& observation.player_id < 252
    &&& observation.oya <= observation.player_id + 4
    &&& observation.round_wind <= 255 - EAST
}

/// The kinds of which a triplet scores: the dragons, the wind of the round and the player's wind,
/// which is east for the dealer and goes on around the table.
pub open spec fn yakuhai_kinds(observation: ObservationView) -> Set<u8> {
    set![
        WHITE,
        GREEN,
        RED,
        (EAST + observation.round_wind) as u8,
        (EAST + (observation.player_id + 4 - observation.oya) % 4) as u8,
    ]
}

/// Whether each number is greater than the one before it.
pub open spec fn strictly_increasing(numbers: Seq<u8>) -> bool {
    forall|i: int, j: int| 0 <= i < j < numbers.len() ==> numbers[i] < numbers[j]
}

/// Puts a number into its place in an increasing list, unless the list holds it already.
fn insert_increasing(numbers: &mut Vec<u8>, number: u8)
    requires
        strictly_increasing(old(numbers)@),
    ensures
        strictly_increasing(final(numbers)@),
        final(numbers)@.to_set() == old(numbers)@.to_set().insert(number),
{
    let mut place: usize = 0;
    while place < numbers.len() && numbers[place] < number
        invariant
            numbers@ == old(numbers)@,
            place <= numbers@.len(),
            forall|i: int| 0 <= i < place ==> numbers@[i] < number,
        decreases numbers.len() - place,
    {
        place = place + 1;
    }
    let ghost before = numbers@;
    if place < numbers.len() && numbers[place] == number {
        assert(before.to_set().insert(number) =~= before.to_set()) by {
            assert(before[place as int] == number);
        }
    } else {
        numbers.insert(place, number);
        let ghost after = numbers@;
        assert(after.to_set() =~= before.to_set().insert(number)) by {
            assert(after[place as int] == number);
            assert forall|n: u8| before.contains(n) implies after.contains(n) by {
                let i = before.index_of(n);
                if i < place {
                    assert(after[i] == n);
                } else {
                    assert(after[i + 1] == n);
                }
            }
            assert forall|n: u8| after.contains(n) implies n == number || before.contains(n) by {
                let i = after.index_of(n);
                if i < place {
                    assert(before[i] == n);
                } else if i > place {
                    assert(before[i - 1] == n);
                }
            }
        }
    }
}

/// Lists the kinds of which a triplet scores, in increasing order.
pub fn yakuhai_tile_types(observation: &Observation) -> (tile_types: Vec<u8>)
    requires
        winds_in_range(observation@),
    ensures
        strictly_increasing(tile_types@),
        tile_types@.to_set() == yakuhai_kinds(observation@),
{
    let seat_wind: u8 = EAST + ((observation.player_id + 4 - observation.oya) % 4);
    let round_wind: u8 = EAST + observation.round_wind;
    let mut tile_types: Vec<u8> = Vec::new();
    insert_increasing(&mut tile_types, WHITE);
    insert_increasing(&mut tile_types, GREEN);
    insert_increasing(&mut tile_types, RED);
    insert_increasing(&mut tile_types, round_wind);
    insert_increasing(&mut tile_types, seat_wind);
    assert(tile_types@.to_set() =~= yakuhai_kinds(observation@)) by {
        assert(Seq::<u8>::empty().to_set() =~= Set::<u8>::empty());
    }
    tile_types
}

/// The discards of the first `players` players, without those of `player_id`.
pub open spec fn discards_of_others(
    discards: Seq<Seq<u32>>,
    player_id: int,
    players: int,
) -> Seq<u32>
    decreases players,
{
    if players <= 0 {
        Seq::empty()
    } else if players - 1 == player_id {
        discards_of_others(discards, player_id, players - 1)
    } else {
        discards_of_others(discards, player_id, players - 1) + discards[players - 1]
    }
}

/// The tiles of a list of melds.
pub open spec fn meld_tiles(melds: Seq<MeldView>) -> Seq<u32>
    decreases melds.len(),
{
    if melds.len() == 0 {
        Seq::empty()
    } else {
        meld_tiles(melds.drop_last()) + melds.last().tiles.map_values(|tile: u8| tile as u32)
    }
}

/// The tiles of the melds of the first `players` players.
pub open spec fn all_meld_tiles(melds: Seq<Seq<MeldView>>, players: int) -> Seq<u32>
    decreases players,
{
    if players <= 0 {
        Seq::empty()
    } else {
        all_meld_tiles(melds, players - 1) + meld_tiles(melds[players - 1])
    }
}

/// The tiles in sight outside the player's hand and discards: the dora indicators, the discards of
/// the other players and everybody's melds.
pub open spec fn visible_tiles(observation: ObservationView, player_id: int) -> Seq<u32> {
    observation.dora_indicators + discards_of_others(observation.discards, player_id, 4)
        + all_meld_tiles(observation.melds, 4)
}

/// Appends copies of tiles.
fn append_tiles(tiles: &mut Vec<u32>, more: &[u32])
    ensures
        final(tiles)@ == old(tiles)@ + more@,
{
    let mut i: usize = 0;
    assert(old(tiles)@ + more@.take(0) =~= old(tiles)@);
    while i < more.len()
        invariant
            i <= more@.len(),
            tiles@ == old(tiles)@ + more@.take(i as int),
        decreases more.len() - i,
    {
        tiles.push(more[i]);
        i = i + 1;
        assert(tiles@ =~= old(tiles)@ + more@.take(i as int));
    }
    assert(more@.take(i as int) =~= more@);
}

/// Appends the tiles of a list of melds.
fn append_meld_tiles(tiles: &mut Vec<u32>, melds: &[Meld])
    ensures
        final(tiles)@ == old(tiles)@ + meld_tiles(meld_views(melds@)),
{
    let ghost views = meld_views(melds@);
    let mut i: usize = 0;
    assert(tiles@ =~= old(tiles)@ + meld_tiles(views.take(0)));
    while i < melds.len()
        invariant
            views == meld_views(melds@),
            i <= melds@.len(),
            tiles@ == old(tiles)@ + meld_tiles(views.take(i as int)),
        decreases melds.len() - i,
    {
        let meld = &melds[i];
        let ghost before = tiles@;
        let ghost added = meld.tiles@.map_values(|tile: u8| tile as u32);
        let mut j: usize = 0;
        assert(tiles@ =~= before + added.take(0));
        while j < meld.tiles.len()
            invariant
                j <= meld.tiles@.len(),
                added == meld.tiles@.map_values(|tile: u8| tile as u32),
                tiles@ == before + added.take(j as int),
            decreases meld.tiles.len() - j,
        {
            tiles.push(meld.tiles[j] as u32);
            j = j + 1;
            assert(tiles@ =~= before + added.take(j as int));
        }
        assert(added.take(j as int) =~= added);
        assert(views.take(i + 1).drop_last() =~= views.take(i as int));
        assert(views.take(i + 1).last() == meld@);
        i = i + 1;
        assert(tiles@ =~= old(tiles)@ + meld_tiles(views.take(i as int)));
    }
    assert(views.take(i as int) =~= views);
}

/// Collects the tiles in sight outside the player's hand and discards.
pub fn collect_visible_tiles(observation: &Observation, player_id: usize) -> (tiles: Vec<u32>)
    ensures
        tiles@ == visible_tiles(observation@, player_id as int),
{
    let ghost view = observation@;
    let mut tiles: Vec<u32> = Vec::new();
    append_tiles(&mut tiles, observation.dora_indicators.as_slice());
    let mut player: usize = 0;
    assert(tiles@ =~= view.dora_indicators + discards_of_others(
        view.discards,
        player_id as int,
        0,
    ));
    while player < 4
        invariant
            view == observation@,
            player <= 4,
            tiles@ == view.dora_indicators + discards_of_others(
                view.discards,
                player_id as int,
                player as int,
            ),
        decreases 4 - player,
    {
        if player != player_id {
            append_tiles(&mut tiles, observation.discards[player].as_slice());
            assert(view.discards[player as int] == observation.discards[player as int]@);
        }
        player = player + 1;
        assert(tiles@ =~= view.dora_indicators + discards_of_others(
            view.discards,
            player_id as int,
            player as int,
        ));
    }
    let ghost before = tiles@;
    player = 0;
    assert(tiles@ =~= before + all_meld_tiles(view.melds, 0));
    while player < 4
        invariant
            view == observation@,
            player <= 4,
            tiles@ == before + all_meld_tiles(view.melds, player as int),
        decreases 4 - player,
    {
        append_meld_tiles(&mut tiles, observation.melds[player].as_slice());
        assert(view.melds[player as int] == meld_views(observation.melds[player as int]@));
        player = player + 1;
        assert(tiles@ =~= before + all_meld_tiles(view.melds, player as int));
    }
    tiles
}

/// What the rules read of an observation, prepared once.
pub struct RuleContext<'a> {
    player_id: usize,
    self_hand: &'a [u32],
    self_melds: &'a [Meld],
    opponent_discards: &'a [Vec<u32>; 4],
    opponent_riichi: [bool; 4],
    visible_tiles: Vec<u32>,
    current_shanten: i32,
    yakuhai_tile_types: Vec<u8>,
}

/// The contents of a [`RuleContext`].
pub struct RuleContextView {
    pub player_id: int,
    pub self_hand: Seq<u32>,
    pub self_melds: Seq<MeldView>,
    pub opponent_discards: Seq<Seq<u32>>,
    pub opponent_riichi: Seq<bool>,
    pub visible_tiles: Seq<u32>,
    pub current_shanten: i32,
    pub yakuhai_kinds: Set<u8>,
}

impl<'a> View for RuleContext<'a> {
    type V = RuleContextView;

    closed spec fn view(&self) -> RuleContextView {
        RuleContextView {
            player_id: self.player_id as int,
            self_hand: self.self_hand@,
            self_melds: meld_views(self.self_melds@),
            opponent_discards: self.opponent_discards@.map_values(|discards: Vec<u32>| discards@),
            opponent_riichi: self.opponent_riichi@,
            visible_tiles: self.visible_tiles@,
            current_shanten: self.current_shanten,
            yakuhai_kinds: self.yakuhai_tile_types@.to_set(),
        }
    }
}

/// What the rules read of an observation.
pub open spec fn context_of(observation: ObservationView) -> RuleContextView {
    let player_id = observation.player_id as int;
    RuleContextView {
        player_id,
        self_hand: observation.hands[player_id],
        self_melds: observation.melds[player_id],
        opponent_discards: observation.discards,
        opponent_riichi: observation.riichi_declared,
        visible_tiles: visible_tiles(observation, player_id),
        current_shanten: shanten_number(observation.hands[player_id]),
        yakuhai_kinds: yakuhai_kinds(observation),
    }
}

impl RuleContextView {
    /// Whether the player at the place is an opponent who has declared riichi.
    pub open spec fn riichi_opponent(self, player: int) -> bool {
        player != self.player_id && self.opponent_riichi[player]
    }

    /// Whether an opponent has declared riichi.
    pub open spec fn any_opponent_riichi(self) -> bool {
        exists|player: int| 0 <= player < 4 && #[trigger] self.riichi_opponent(player)
    }

    /// How many of the first `players` players are riichi opponents who have discarded the kind.
    pub open spec fn safe_count_among(self, kind: int, players: int) -> nat
        decreases players,
    {
        if players <= 0 {
            0
        } else {
            self.safe_count_among(kind, players - 1) + if self.riichi_opponent(players - 1)
                && has_kind(self.opponent_discards[players - 1], kind) {
                1nat
            } else {
                0nat
            }
        }
    }

    /// How many riichi opponents have discarded the kind, so that it is safe against them.
    pub open spec fn safe_count(self, kind: int) -> nat {
        self.safe_count_among(kind, 4)
    }

    /// Whether the player has set a meld aside that scores by its kind.
    pub open spec fn scoring_meld(self, meld: MeldView) -> bool {
        &&& meld.tiles.len() > 0
        &&& self.yakuhai_kinds.contains(meld.tiles[0] / 4)
        &&& meld.meld_type != MeldType::Chi
    }

    /// Whether the player has a scoring triplet, set aside or in the hand.
    pub open spec fn secured_yakuhai(self) -> bool {
        ||| exists|i: int|
            0 <= i < self.self_melds.len() && self.scoring_meld(#[trigger] self.self_melds[i])
        ||| exists|kind: u8| #[trigger]
            self.yakuhai_kinds.contains(kind) && count_kind(self.self_hand, kind as int) >= 3
    }
}

impl<'a> RuleContext<'a> {
    #[verifier::type_invariant]
    closed spec fn hand_is_measured(self) -> bool {
        self.current_shanten == shanten_number(self.self_hand@) && measurable(self.self_hand@)
    }

    /// Prepares an observation for the rules.
    pub fn new(observation: &'a Observation) -> (context: RuleContext<'a>)
        requires
            observation@.player_id < 4,
            winds_in_range(observation@),
            measurable(observation@.hands[observation@.player_id as int]),
        ensures
            context@ == context_of(observation@),
    {
        let player_id = observation.player_id as usize;
        let self_hand = observation.hands[player_id].as_slice();
        let self_melds = observation.melds[player_id].as_slice();
        let context = RuleContext {
            player_id,
            self_hand,
            self_melds,
            opponent_discards: &observation.discards,
            opponent_riichi: observation.riichi_declared,
            visible_tiles: collect_visible_tiles(observation, player_id),
            current_shanten: calculate_shanten(self_hand),
            yakuhai_tile_types: yakuhai_tile_types(observation),
        };
        context
    }

    /// The player's hand, which the engine can measure.
    pub fn self_hand(&self) -> (hand: &'a [u32])
        ensures
            hand@ == self@.self_hand,
            measurable(hand@),
    {
        proof {
            use_type_invariant(self);
        }
        self.self_hand
    }

    /// The tiles in sight outside the player's hand and discards.
    pub fn visible_tiles(&self) -> (tiles: &[u32])
        ensures
            tiles@ == self@.visible_tiles,
    {
        self.visible_tiles.as_slice()
    }

    /// The measure of the player's hand.
    pub fn current_shanten(&self) -> (shanten: i32)
        ensures
            shanten == self@.current_shanten,
            shanten == shanten_number(self@.self_hand),
    {
        proof {
            use_type_invariant(self);
        }
        self.current_shanten
    }

    /// Whether an opponent has declared riichi.
    pub fn any_opponent_riichi(&self) -> (any: bool)
        ensures
            any == self@.any_opponent_riichi(),
    {
        let mut player: usize = 0;
        while player < 4
            invariant
                player <= 4,
                forall|p: int| 0 <= p < player ==> !#[trigger] self@.riichi_opponent(p),
            decreases 4 - player,
        {
            if player != self.player_id && self.opponent_riichi[player] {
                assert(self@.riichi_opponent(player as int));
                return true;
            }
            player = player + 1;
        }
        false
    }

    /// Counts the riichi opponents who have discarded the kind.
    pub fn safe_against_riichi_count(&self, tile_type: u32) -> (count: u8)
        ensures
            count == self@.safe_count(tile_type as int),
    {
        let mut count: u8 = 0;
        let mut player: usize = 0;
        while player < 4
            invariant
                player <= 4,
                count <= player,
                count == self@.safe_count_among(tile_type as int, player as int),
            decreases 4 - player,
        {
            assert(self@.opponent_discards[player as int] == self.opponent_discards[player as int]@);
            if player != self.player_id && self.opponent_riichi[player] && contains_kind(
                self.opponent_discards[player].as_slice(),
                tile_type,
            ) {
                count = count + 1;
            }
            player = player + 1;
        }
        count
    }

    /// Whether a triplet of the kind scores.
    pub fn is_yakuhai_tile(&self, tile_type: u8) -> (yakuhai: bool)
        ensures
            yakuhai == self@.yakuhai_kinds.contains(tile_type),
    {
        let mut i: usize = 0;
        while i < self.yakuhai_tile_types.len()
            invariant
                i <= self.yakuhai_tile_types@.len(),
                forall|j: int| 0 <= j < i ==> self.yakuhai_tile_types@[j] != tile_type,
            decreases self.yakuhai_tile_types.len() - i,
        {
            if self.yakuhai_tile_types[i] == tile_type {
                return true;
            }
            i = i + 1;
        }
        false
    }

    /// Whether the player has a scoring triplet, set aside or in the hand.
    pub fn has_secured_yakuhai(&self) -> (secured: bool)
        ensures
            secured == self@.secured_yakuhai(),
    {
        let mut i: usize = 0;
        while i < self.self_melds.len()
            invariant
                i <= self.self_melds@.len(),
                forall|j: int|
                    0 <= j < i ==> !self@.scoring_meld(#[trigger] self@.self_melds[j]),
            decreases self.self_melds.len() - i,
        {
            let meld = &self.self_melds[i];
            assert(self@.self_melds[i as int] == meld@);
            if meld.tiles.len() > 0 && self.is_yakuhai_tile(meld.tiles[0] / 4) {
                match meld.meld_type {
                    MeldType::Pon | MeldType::Daiminkan | MeldType::Ankan | MeldType::Kakan => {
                        return true;
                    },
                    MeldType::Chi => {},
                }
            }
            i = i + 1;
        }
        let types = &self.yakuhai_tile_types;
        let mut k: usize = 0;
        while k < types.len()
            invariant
                types@ == self.yakuhai_tile_types@,
                k <= types@.len(),
                forall|j: int|
                    0 <= j < k ==> count_kind(self@.self_hand, #[trigger] types@[j] as int) < 3,
            decreases types.len() - k,
        {
            if count_tile_type(self.self_hand, types[k] as u32) >= 3 {
                assert(self@.yakuhai_kinds.contains(types@[k as int]));
                return true;
            }
            k = k + 1;
        }
        assert forall|kind: u8| #[trigger] self@.yakuhai_kinds.contains(kind) implies count_kind(
            self@.self_hand,
            kind as int,
        ) < 3 by {
            let j = types@.index_of(kind);
            assert(types@[j] == kind);
        }
        false
    }
}

/// Whether a tile of the kind is among the tiles.
fn contains_kind(tiles: &[u32], kind: u32) -> (found: bool)
    ensures
        found == has_kind(tiles@, kind as int),
{
    let mut i: usize = 0;
    while i < tiles.len()
        invariant
            i <= tiles@.len(),
            forall|j: int| 0 <= j < i ==> kind_of(#[trigger] tiles@[j]) != kind,
        decreases tiles.len() - i,
    {
        if tiles[i] / 4 == kind {
            return true;
        }
        i = i + 1;
    }
    false
}

/// The dealer's own wind is east.
pub proof fn law_dealer_scores_with_east(observation: ObservationView)
    requires
        observation.oya == observation.player_id,
    ensures
        yakuhai_kinds(observation).contains(EAST),
{
}

/// The tiles in sight do not depend on the player's own discards.
pub proof fn law_own_discards_are_not_counted(
    observation: ObservationView,
    changed: ObservationView,
    player_id: int,
)
    requires
        changed.dora_indicators == observation.dora_indicators,
        changed.melds == observation.melds,
        forall|player: int|
            0 <= player < 4 && player != player_id ==> #[trigger] changed.discards[player]
                == observation.discards[player],
    ensures
        visible_tiles(changed, player_id) == visible_tiles(observation, player_id),
{
    reveal_with_fuel(discards_of_others, 5);
}

/// A tile is safe against somebody only while an opponent has declared riichi, and against at most
/// three players.
pub proof fn law_safety_needs_riichi(context: RuleContextView, kind: int)
    requires
        0 <= context.player_id < 4,
    ensures
        context.safe_count(kind) > 0 ==> context.any_opponent_riichi(),
        context.safe_count(kind) <= 3,
{
    reveal_with_fuel(RuleContextView::safe_count_among, 5);
    assert(!context.riichi_opponent(context.player_id));
    assert(context.riichi_opponent(0) || context.riichi_opponent(1) || context.riichi_opponent(2)
        || context.riichi_opponent(3) || context.safe_count(kind) == 0);
}

/// The kinds that score: the dragons 31, 32 and 33, the wind of the round, which is 27 and as many
/// more as the round is on, and the wind of the seat, which is 27 and as many more as the player
/// sits behind the dealer.
pub proof fn law_scoring_kinds(observation: ObservationView, kind: u8)
    requires
        observation.oya <= observation.player_id + 4,
        observation.round_wind <= 228,
    ensures
        yakuhai_kinds(observation).contains(kind) <==> kind == 31 || kind == 32 || kind == 33
            || kind == 27 + observation.round_wind || kind == 27 + (observation.player_id + 4
            - observation.oya) % 4,
{
}

/// A tile is in sight as often as it is a dora indicator, a discard of another player, or part of
/// anybody's meld.
pub proof fn law_what_is_in_sight(observation: ObservationView, player_id: int, kind: int)
    requires
        0 <= player_id < 4,
    ensures
        count_kind(visible_tiles(observation, player_id), kind) == count_kind(
            observation.dora_indicators,
            kind,
        ) + count_kind(observation.discards[0], kind) + count_kind(observation.discards[1], kind)
            + count_kind(observation.discards[2], kind) + count_kind(observation.discards[3], kind)
            - count_kind(observation.discards[player_id], kind) + count_kind(
            meld_tiles(observation.melds[0]),
            kind,
        ) + count_kind(meld_tiles(observation.melds[1]), kind) + count_kind(
            meld_tiles(observation.melds[2]),
            kind,
        ) + count_kind(meld_tiles(observation.melds[3]), kind),
{
    let discards = observation.discards;
    let melds = observation.melds;
    reveal_with_fuel(discards_of_others, 5);
    reveal_with_fuel(all_meld_tiles, 5);
    let others = discards_of_others(discards, player_id, 4);
    lemma_count_joined(
        observation.dora_indicators + others,
        all_meld_tiles(melds, 4),
        kind,
        kind + 1,
    );
    lemma_count_joined(observation.dora_indicators, others, kind, kind + 1);
    assert(count_kind(Seq::empty(), kind) == 0);
    lemma_count_joined(all_meld_tiles(melds, 0), meld_tiles(melds[0]), kind, kind + 1);
    lemma_count_joined(all_meld_tiles(melds, 1), meld_tiles(melds[1]), kind, kind + 1);
    lemma_count_joined(all_meld_tiles(melds, 2), meld_tiles(melds[2]), kind, kind + 1);
    lemma_count_joined(all_meld_tiles(melds, 3), meld_tiles(melds[3]), kind, kind + 1);
    lemma_count_joined(discards_of_others(discards, player_id, 0), discards[0], kind, kind + 1);
    lemma_count_joined(discards_of_others(discards, player_id, 1), discards[1], kind, kind + 1);
    lemma_count_joined(discards_of_others(discards, player_id, 2), discards[2], kind, kind + 1);
    lemma_count_joined(discards_of_others(discards, player_id, 3), discards[3], kind, kind + 1);
}

/// The tiles of melds are those of each meld, one meld after the other.
pub proof fn law_meld_tiles(melds: Seq<MeldView>, meld: MeldView)
    ensures
        meld_tiles(Seq::empty()) == Seq::<u32>::empty(),
        meld_tiles(melds.push(meld)).len() == meld_tiles(melds).len() + meld.tiles.len(),
        meld_tiles(melds.push(meld)).take(meld_tiles(melds).len() as int) == meld_tiles(melds),
        forall|i: int|
            0 <= i < meld.tiles.len() ==> #[trigger] meld_tiles(melds.push(meld))[meld_tiles(
                melds,
            ).len() + i] == meld.tiles[i],
{
    assert(melds.push(meld).drop_last() =~= melds);
    assert(meld_tiles(melds.push(meld)).take(meld_tiles(melds).len() as int) =~= meld_tiles(melds));
}

/// An opponent has declared riichi exactly if one of the players other than the own has.
pub proof fn law_riichi_of_an_opponent(context: RuleContextView)
    ensures
        context.any_opponent_riichi() <==> (context.player_id != 0 && context.opponent_riichi[0])
            || (context.player_id != 1 && context.opponent_riichi[1]) || (context.player_id != 2
            && context.opponent_riichi[2]) || (context.player_id != 3 && context.opponent_riichi[3]),
{
    assert(context.riichi_opponent(0) || context.riichi_opponent(1) || context.riichi_opponent(2)
        || context.riichi_opponent(3) || !context.any_opponent_riichi());
}

/// A tile is safe against as many players as there are opponents who have declared riichi and have
/// discarded a tile of its kind.
pub proof fn law_safety_counts_riichi_discards(context: RuleContextView, kind: int)
    ensures
        context.safe_count(kind) == Set::new(
            |player: int|
                0 <= player < 4 && player != context.player_id && context.opponent_riichi[player]
                    && exists|i: int|
                    0 <= i < context.opponent_discards[player].len() && (
                    #[trigger] context.opponent_discards[player][i]) as int / 4 == kind,
        ).len(),
{
    lemma_safe_players(context, kind, 4);
    let safe = Set::new(
        |player: int|
            0 <= player < 4 && player != context.player_id && context.opponent_riichi[player]
                && exists|i: int|
                0 <= i < context.opponent_discards[player].len() && (
                #[trigger] context.opponent_discards[player][i]) as int / 4 == kind,
    );
    assert forall|player: int| safe.contains(player) <==> safe_players(context, kind, 4).contains(
        player,
    ) by {
        if 0 <= player < 4 {
            lemma_has_kind_in_words(context.opponent_discards[player], kind);
        }
    }
    assert(safe =~= safe_players(context, kind, 4));
}

proof fn lemma_has_kind_in_words(tiles: Seq<u32>, kind: int)
    ensures
        has_kind(tiles, kind) <==> exists|i: int|
            0 <= i < tiles.len() && (#[trigger] tiles[i]) as int / 4 == kind,
{
    if has_kind(tiles, kind) {
        let i = choose|i: int| 0 <= i < tiles.len() && kind_of(#[trigger] tiles[i]) == kind;
        assert(tiles[i] as int / 4 == kind);
    }
    if exists|i: int| 0 <= i < tiles.len() && (#[trigger] tiles[i]) as int / 4 == kind {
        let i = choose|i: int| 0 <= i < tiles.len() && (#[trigger] tiles[i]) as int / 4 == kind;
        assert(kind_of(tiles[i]) == kind);
    }
}

/// The riichi opponents among the first `players` players who have discarded the kind.
spec fn safe_players(context: RuleContextView, kind: int, players: int) -> Set<int> {
    Set::new(
        |player: int|
            0 <= player < players && context.riichi_opponent(player) && has_kind(
                context.opponent_discards[player],
                kind,
            ),
    )
}

proof fn lemma_safe_players(context: RuleContextView, kind: int, players: int)
    requires
        0 <= players,
    ensures
        safe_players(context, kind, players).finite(),
        safe_players(context, kind, players).len() == context.safe_count_among(kind, players),
    decreases players,
{
    let all = safe_players(context, kind, players);
    if players == 0 {
        assert(all =~= Set::empty());
    } else {
        lemma_safe_players(context, kind, players - 1);
        let before = safe_players(context, kind, players - 1);
        if context.riichi_opponent(players - 1) && has_kind(
            context.opponent_discards[players - 1],
            kind,
        ) {
            assert(all =~= before.insert(players - 1));
        } else {
            assert(all =~= before);
        }
    }
}

/// A scoring triplet is secured exactly by a pon or a kan, set aside, whose first tile is of a scoring
/// kind, or by three tiles of a scoring kind in the hand.
pub proof fn law_what_secures_a_scoring_triplet(context: RuleContextView)
    ensures
        context.secured_yakuhai() <==> (exists|i: int|
            {
                &&& 0 <= i < context.self_melds.len()
                &&& (#[trigger] context.self_melds[i]).tiles.len() > 0
                &&& context.yakuhai_kinds.contains(context.self_melds[i].tiles[0] / 4)
                &&& {
                    ||| context.self_melds[i].meld_type == MeldType::Pon
                    ||| context.self_melds[i].meld_type == MeldType::Daiminkan
                    ||| context.self_melds[i].meld_type == MeldType::Ankan
                    ||| context.self_melds[i].meld_type == MeldType::Kakan
                }
            }) || (exists|kind: u8| #[trigger]
            context.yakuhai_kinds.contains(kind) && count_kind(context.self_hand, kind as int)
                >= 3),
{
    if exists|i: int|
        0 <= i < context.self_melds.len() && context.scoring_meld(#[trigger] context.self_melds[i]) {
        let i = choose|i: int|
            0 <= i < context.self_melds.len() && context.scoring_meld(
                #[trigger] context.self_melds[i],
            );
        assert(context.self_melds[i].tiles.len() > 0);
    }
}

/// What the rules read of an observation is the player's own hand and melds, everybody's discards
/// and riichi, and the measure of the own hand.
pub proof fn law_context_is_of_the_player(observation: ObservationView)
    ensures
        context_of(observation).player_id == observation.player_id,
        context_of(observation).self_hand == observation.hands[observation.player_id as int],
        context_of(observation).self_melds == observation.melds[observation.player_id as int],
        context_of(observation).opponent_discards == observation.discards,
        context_of(observation).opponent_riichi == observation.riichi_declared,
        context_of(observation).visible_tiles == visible_tiles(
            observation,
            observation.player_id as int,
        ),
        context_of(observation).current_shanten == shanten_number(
            observation.hands[observation.player_id as int],
        ),
        context_of(observation).yakuhai_kinds == yakuhai_kinds(observation),
{
}

} // verus!
