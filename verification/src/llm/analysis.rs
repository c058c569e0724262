//! Types of the game review that the language model produces.

use vstd::prelude::*;
use crate::board::Side;

verus! {

/// Opening review.
pub struct OpeningReview {
    /// Name of the opening, if known.
    pub name: Option<String>,
    /// Grade (good / average / poor).
    pub evaluation: String,
    pub comment: String,
}

/// A key moment of the game.
pub struct KeyMoment {
    pub move_number: u32,
    pub side: MomentSide,
    /// Move in notation.
    pub move_notation: String,
    pub moment_type: MomentType,
    pub analysis: String,
}

/// Side of a key moment.
#[derive(Clone, Copy, Debug, PartialEq, Eq, Structural)]
pub enum MomentSide {
    Red,
    Black,
}

impl From<Side> for MomentSide {
    /// The moment side of a board side.
    fn from(side: Side) -> (r: MomentSide) {
        match side {
            Side::Red => MomentSide::Red,
            Side::Black => MomentSide::Black,
        }
    }
}

impl vstd::std_specs::convert::FromSpecImpl<Side> for MomentSide {
    open spec fn obeys_from_spec() -> bool {
        true
    }

    open spec fn from_spec(side: Side) -> MomentSide {
        match side {
            Side::Red => MomentSide::Red,
            Side::Black => MomentSide::Black,
        }
    }
}

impl From<MomentSide> for Side {
    /// The board side of a moment side.
    fn from(side: MomentSide) -> (r: Side) {
        match side {
            MomentSide::Red => Side::Red,
            MomentSide::Black => Side::Black,
        }
    }
}

impl vstd::std_specs::convert::FromSpecImpl<MomentSide> for Side {
    open spec fn obeys_from_spec() -> bool {
        true
    }

    open spec fn from_spec(side: MomentSide) -> Side {
        match side {
            MomentSide::Red => Side::Red,
            MomentSide::Black => Side::Black,
        }
    }
}

/// Kind of key moment.
#[derive(Clone, Copy, Debug, PartialEq, Eq, Structural)]
pub enum MomentType {
    /// A brilliant move.
    Brilliant,
    /// A mistake.
    Mistake,
    /// A turning point.
    TurningPoint,
}

impl MomentType {
    /// The icon shown for the kind.
    pub open spec fn spec_icon(self) -> Seq<char> {
        match self {
            MomentType::Brilliant => "🌟"@,
            MomentType::Mistake => "❌"@,
            MomentType::TurningPoint => "⚡"@,
        }
    }

    /// The Chinese name of the kind.
    pub open spec fn spec_display_name(self) -> Seq<char> {
        match self {
            MomentType::Brilliant => "精彩"@,
            MomentType::Mistake => "失误"@,
            MomentType::TurningPoint => "转折"@,
        }
    }

    /// The icon shown for the kind.
    pub fn icon(&self) -> (r: &'static str)
        ensures
            r@ == self.spec_icon(),
    {
        match self {
            MomentType::Brilliant => "🌟",
            MomentType::Mistake => "❌",
            MomentType::TurningPoint => "⚡",
        }
    }

    /// The Chinese name of the kind.
    pub fn display_name(&self) -> (r: &'static str)
        ensures
            r@ == self.spec_display_name(),
    {
        match self {
            MomentType::Brilliant => "精彩",
            MomentType::Mistake => "失误",
            MomentType::TurningPoint => "转折",
        }
    }
}

/// Endgame review.
pub struct EndgameReview {
    pub evaluation: String,
    pub comment: String,
}

/// Improvement suggestions for each side.
pub struct Suggestions {
    pub red: Vec<String>,
    pub black: Vec<String>,
}

/// Weaknesses shown by each side.
pub struct Weaknesses {
    pub red: Vec<String>,
    pub black: Vec<String>,
}

impl Default for Weaknesses {
    /// No weaknesses listed.
    fn default() -> (w: Weaknesses)
        ensures
            w.red@.len() == 0,
            w.black@.len() == 0,
    {
        Weaknesses { red: Vec::new(), black: Vec::new() }
    }
}

} // verus!
