//! Observations and actions of the game engine, and what the engine computes of them.

use crate::json::parsed_json;
use riichienv_core::action::{Action as EngineAction, ActionType as EngineType};
use vstd::prelude::*;

verus! {

/// What an action of the engine does.
#[derive(Debug, Clone, Copy, PartialEq, Eq, Structural)]
pub enum ActionType {
    Discard,
    Chi,
    Pon,
    Daiminkan,
    Ron,
    Riichi,
    Tsumo,
    Pass,
    Ankan,
    Kakan,
    KyushuKyuhai,
    Kita,
}

/// The types of actions in the engine's order.
pub open spec fn action_types() -> Seq<ActionType> {
    seq![
        ActionType::Discard,
        ActionType::Chi,
        ActionType::Pon,
        ActionType::Daiminkan,
        ActionType::Ron,
        ActionType::Riichi,
        ActionType::Tsumo,
        ActionType::Pass,
        ActionType::Ankan,
        ActionType::Kakan,
        ActionType::KyushuKyuhai,
        ActionType::Kita,
    ]
}

impl ActionType {
    /// The type that the engine numbers `code`; the last type for a number that the engine does not
    /// use.
    pub fn from_code(code: u8) -> (action_type: ActionType)
        ensures
            action_type == if code < 12 {
                action_types()[code as int]
            } else {
                ActionType::Kita
            },
    {
        match code {
            0 => ActionType::Discard,
            1 => ActionType::Chi,
            2 => ActionType::Pon,
            3 => ActionType::Daiminkan,
            4 => ActionType::Ron,
            5 => ActionType::Riichi,
            6 => ActionType::Tsumo,
            7 => ActionType::Pass,
            8 => ActionType::Ankan,
            9 => ActionType::Kakan,
            10 => ActionType::KyushuKyuhai,
            _ => ActionType::Kita,
        }
    }
}

/// An action that the engine offers. Tiles are numbered from 0 to 135, four to a kind.
#[derive(Debug, PartialEq, Eq)]
pub struct Action {
    pub action_type: ActionType,
    pub tile: Option<u8>,
    pub consume_tiles: Vec<u8>,
    pub actor: Option<u8>,
}

/// The contents of an [`Action`].
pub struct ActionView {
    pub action_type: ActionType,
    pub tile: Option<u8>,
    pub consume_tiles: Seq<u8>,
    pub actor: Option<u8>,
}

impl View for Action {
    type V = ActionView;

    open spec fn view(&self) -> ActionView {
        ActionView {
            action_type: self.action_type,
            tile: self.tile,
            consume_tiles: self.consume_tiles@,
            actor: self.actor,
        }
    }
}

impl Clone for Action {
    fn clone(&self) -> (copy: Self)
        ensures
            copy@ == self@,
    {
        Action {
            action_type: self.action_type,
            tile: self.tile,
            consume_tiles: self.consume_tiles.clone(),
            actor: self.actor,
        }
    }
}

/// The contents of a list of actions.
pub open spec fn action_views(actions: Seq<Action>) -> Seq<ActionView> {
    actions.map_values(|action: Action| action@)
}

/// The contents of an optional action.
pub open spec fn action_view(action: Option<Action>) -> Option<ActionView> {
    match action {
        Some(a) => Some(a@),
        None => None,
    }
}

/// How a meld was made.
#[derive(Debug, Clone, Copy, PartialEq, Eq, Structural)]
pub enum MeldType {
    Chi,
    Pon,
    Daiminkan,
    Ankan,
    Kakan,
}

/// The types of melds in the engine's order.
pub open spec fn meld_types() -> Seq<MeldType> {
    seq![MeldType::Chi, MeldType::Pon, MeldType::Daiminkan, MeldType::Ankan, MeldType::Kakan]
}

impl MeldType {
    /// The type that the engine numbers `code`; the last type for a number that the engine does not
    /// use.
    pub fn from_code(code: u8) -> (meld_type: MeldType)
        ensures
            meld_type == if code < 5 {
                meld_types()[code as int]
            } else {
                MeldType::Kakan
            },
    {
        match code {
            0 => MeldType::Chi,
            1 => MeldType::Pon,
            2 => MeldType::Daiminkan,
            3 => MeldType::Ankan,
            _ => MeldType::Kakan,
        }
    }
}

/// Tiles that a player has set aside.
#[derive(Debug, PartialEq, Eq)]
pub struct Meld {
    pub meld_type: MeldType,
    pub tiles: Vec<u8>,
}

/// The contents of a [`Meld`].
pub struct MeldView {
    pub meld_type: MeldType,
    pub tiles: Seq<u8>,
}

impl View for Meld {
    type V = MeldView;

    open spec fn view(&self) -> MeldView {
        MeldView { meld_type: self.meld_type, tiles: self.tiles@ }
    }
}

/// The contents of a list of melds.
pub open spec fn meld_views(melds: Seq<Meld>) -> Seq<MeldView> {
    melds.map_values(|meld: Meld| meld@)
}

/// What a player sees of the table, and the actions that the player may take.
#[derive(Debug, PartialEq, Eq)]
pub struct Observation {
    pub player_id: u8,
    pub hands: [Vec<u32>; 4],
    pub melds: [Vec<Meld>; 4],
    pub discards: [Vec<u32>; 4],
    pub dora_indicators: Vec<u32>,
    pub riichi_declared: [bool; 4],
    pub round_wind: u8,
    pub oya: u8,
    pub legal_actions: Vec<Action>,
}

/// The contents of an [`Observation`].
pub struct ObservationView {
    pub player_id: u8,
    pub hands: Seq<Seq<u32>>,
    pub melds: Seq<Seq<MeldView>>,
    pub discards: Seq<Seq<u32>>,
    pub dora_indicators: Seq<u32>,
    pub riichi_declared: Seq<bool>,
    pub round_wind: u8,
    pub oya: u8,
    pub legal_actions: Seq<ActionView>,
}

impl View for Observation {
    type V = ObservationView;

    open spec fn view(&self) -> ObservationView {
        ObservationView {
            player_id: self.player_id,
            hands: self.hands@.map_values(|hand: Vec<u32>| hand@),
            melds: self.melds@.map_values(|melds: Vec<Meld>| meld_views(melds@)),
            discards: self.discards@.map_values(|discards: Vec<u32>| discards@),
            dora_indicators: self.dora_indicators@,
            riichi_declared: self.riichi_declared@,
            round_wind: self.round_wind,
            oya: self.oya,
            legal_actions: action_views(self.legal_actions@),
        }
    }
}

/// The engine's error.
#[verifier::external_type_specification]
#[verifier::external_body]
pub struct ExRiichiError(riichienv_core::errors::RiichiError);

/// The contents of an observation, or the engine's error in its place.
pub open spec fn observation_view(
    observation: Result<Observation, riichienv_core::errors::RiichiError>,
) -> Result<ObservationView, riichienv_core::errors::RiichiError> {
    match observation {
        Ok(o) => Ok(o@),
        Err(e) => Err(e),
    }
}

/// The observation that a base64 text encodes, or the engine's error for a text that encodes none.
pub uninterp spec fn decoded_observation(encoded: Seq<char>) -> Result<
    ObservationView,
    riichienv_core::errors::RiichiError,
>;

/// Calls `riichienv_core::observation::Observation::deserialize_from_base64`, which decodes a
/// base64 text and reads the JSON in it, and takes over the fields that the agent reads, the
/// result of `legal_actions_method` among them.
///
/// Claimed: the contents of the observation, or the error in its place, depend on the text alone.
#[verifier::external_body]
pub(crate) fn decode_base64(encoded: &str) -> (observation: Result<
    Observation,
    riichienv_core::errors::RiichiError,
>)
    ensures
        observation_view(observation) == decoded_observation(encoded@),
{
    riichienv_core::observation::Observation::deserialize_from_base64(encoded).map(|o| Observation {
        player_id: o.player_id,
        legal_actions: o.legal_actions_method().into_iter().map(|a| Action {
            action_type: ActionType::from_code(a.action_type as u8),
            tile: a.tile, consume_tiles: a.consume_tiles, actor: a.actor,
        }).collect(),
        hands: o.hands,
        melds: o.melds.map(|melds| melds.into_iter().map(|m| Meld {
            meld_type: MeldType::from_code(m.meld_type as u8), tiles: m.tiles,
        }).collect()),
        discards: o.discards, dora_indicators: o.dora_indicators,
        riichi_declared: o.riichi_declared, round_wind: o.round_wind, oya: o.oya,
    })
}

/// The mjai text of an action.
pub uninterp spec fn mjai_text(action: ActionView) -> Seq<char>;

/// Calls `riichienv_core::action::Action::to_mjai`, which writes an action as a JSON object.
///
/// Claimed: the text depends on the action's contents alone, and it is JSON.
#[verifier::external_body]
pub(crate) fn write_mjai(action: &Action) -> (text: String)
    ensures
        text@ == mjai_text(action@),
        parsed_json(text@) is Some,
{
    let action_type = match action.action_type {
        ActionType::Discard => EngineType::Discard,
        ActionType::Chi => EngineType::Chi,
        ActionType::Pon => EngineType::Pon,
        ActionType::Daiminkan => EngineType::Daiminkan,
        ActionType::Ron => EngineType::Ron,
        ActionType::Riichi => EngineType::Riichi,
        ActionType::Tsumo => EngineType::Tsumo,
        ActionType::Pass => EngineType::Pass,
        ActionType::Ankan => EngineType::Ankan,
        ActionType::Kakan => EngineType::Kakan,
        ActionType::KyushuKyuhai => EngineType::KyushuKyuhai,
        ActionType::Kita => EngineType::Kita,
    };
    EngineAction { action_type, tile: action.tile, consume_tiles: action.consume_tiles.clone(), actor: action.actor }.to_mjai()
}

/// The numbers by which the engine knows the types of actions and of melds.
pub proof fn law_numbers_of_types()
    ensures
        action_types().len() == 12,
        action_types()[0] == ActionType::Discard,
        action_types()[1] == ActionType::Chi,
        action_types()[2] == ActionType::Pon,
        action_types()[3] == ActionType::Daiminkan,
        action_types()[4] == ActionType::Ron,
        action_types()[5] == ActionType::Riichi,
        action_types()[6] == ActionType::Tsumo,
        action_types()[7] == ActionType::Pass,
        action_types()[8] == ActionType::Ankan,
        action_types()[9] == ActionType::Kakan,
        action_types()[10] == ActionType::KyushuKyuhai,
        action_types()[11] == ActionType::Kita,
        meld_types().len() == 5,
        meld_types()[0] == MeldType::Chi,
        meld_types()[1] == MeldType::Pon,
        meld_types()[2] == MeldType::Daiminkan,
        meld_types()[3] == MeldType::Ankan,
        meld_types()[4] == MeldType::Kakan,
{
}

} // verus!
