//! Decision logic of a RiichiLab mahjong agent, verified with Verus.

pub mod agent;
pub mod context;
pub mod engine;
pub mod evaluation;
pub mod guarantees;
pub mod hand;
pub mod json;
pub mod logger;
pub mod mjai;
pub mod protocol;
pub mod random;
pub mod rules;
pub mod selection;
pub mod text;
