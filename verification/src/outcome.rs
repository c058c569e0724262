//! Game results and room descriptions shared by the client and the server.

use vstd::prelude::*;
use crate::search::Difficulty;

verus! {

/// Why a side won.
#[derive(Clone, Copy, Debug, PartialEq, Eq, Structural)]
pub enum WinReason {
    Checkmate,
    Timeout,
    Resign,
    Disconnect,
}

/// Why a game was drawn.
#[derive(Clone, Copy, Debug, PartialEq, Eq, Structural)]
pub enum DrawReason {
    Stalemate,
    FiftyMoves,
    Repetition,
    Agreement,
}

/// The result of a finished game.
#[derive(Clone, Copy, Debug, PartialEq, Eq, Structural)]
pub enum GameResult {
    RedWin(WinReason),
    BlackWin(WinReason),
    Draw(DrawReason),
}

/// Kind of room: two players, or a player against the computer.
#[derive(Clone, Copy, Debug, PartialEq, Eq, Structural)]
pub enum RoomType {
    PvP,
    PvE(Difficulty),
}

/// Life cycle of a room.
#[derive(Clone, Copy, Debug, PartialEq, Eq, Structural)]
pub enum RoomState {
    Waiting,
    Playing,
    Paused,
    Finished,
}

/// Initial clock of each side: ten minutes.
pub const INITIAL_TIME_MS: u64 = 600_000;

} // verus!
