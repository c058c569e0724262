//! Backend choice and the retry policy of requests to the language model.

use vstd::prelude::*;
use crate::board::Move;

verus! {

/// Which engine chooses the computer's moves.
#[derive(Clone, Copy, Debug, PartialEq, Eq, Structural)]
pub enum AiBackend {
    /// Alpha-beta search.
    Traditional,
    /// A language model (through Ollama).
    Llm,
    /// The language model, falling back to the search when it fails.
    Hybrid,
}

impl Default for AiBackend {
    /// The search backend.
    fn default() -> (b: AiBackend)
        ensures
            b == AiBackend::Traditional,
    {
        AiBackend::Traditional
    }
}

/// Result of one request to the model.
#[derive(Clone, Copy, Debug, PartialEq, Eq, Structural)]
pub enum AttemptOutcome {
    /// The reply was received and parsed.
    Parsed,
    /// The request failed or its reply could not be parsed.
    Failed,
}

/// What the engine does after an attempt.
#[derive(Clone, Copy, Debug, PartialEq, Eq, Structural)]
pub enum RetryAction {
    /// Hand the parsed reply back.
    Return,
    /// Make attempt number `n` (counting from 1).
    Attempt(u32),
    /// Stop: every allowed attempt failed.
    GiveUp,
}

/// The first step: attempt 1, unless no attempt is allowed.
pub fn first_attempt(max_retries: u32) -> (a: RetryAction)
    ensures
        a == (if max_retries >= 1 {
            RetryAction::Attempt(1)
        } else {
            RetryAction::GiveUp
        }),
{
    if max_retries >= 1 {
        RetryAction::Attempt(1)
    } else {
        RetryAction::GiveUp
    }
}

/// The step after attempt `attempt` (1-based) of at most `max_retries`: a parsed reply ends
/// the loop, a failure is retried while attempts remain.
pub fn next_step(attempt: u32, max_retries: u32, outcome: AttemptOutcome) -> (a: RetryAction)
    requires
        1 <= attempt <= max_retries,
    ensures
        a == (match outcome {
            AttemptOutcome::Parsed => RetryAction::Return,
            AttemptOutcome::Failed => if attempt < max_retries {
                RetryAction::Attempt((attempt + 1) as u32)
            } else {
                RetryAction::GiveUp
            },
        }),
{
    match outcome {
        AttemptOutcome::Parsed => RetryAction::Return,
        AttemptOutcome::Failed => if attempt < max_retries {
            RetryAction::Attempt(attempt + 1)
        } else {
            RetryAction::GiveUp
        },
    }
}

/// Attempts made for one request to the model unless set otherwise.
pub const DEFAULT_MAX_RETRIES: u32 = 3;

/// The state of the language-model engine: how many attempts a request gets, and the moves
/// of the game so far (they go into the prompts).
pub struct LlmEngine {
    max_retries: u32,
    move_history: Vec<Move>,
}

impl LlmEngine {
    /// The number of attempts per request.
    pub closed spec fn retries(&self) -> u32 {
        self.max_retries
    }

    /// The moves recorded.
    pub closed spec fn moves(&self) -> Seq<Move> {
        self.move_history@
    }

    /// Three attempts per request, no moves.
    pub fn new() -> (e: LlmEngine)
        ensures
            e.retries() == DEFAULT_MAX_RETRIES,
            e.moves() == Seq::<Move>::empty(),
    {
        LlmEngine { max_retries: DEFAULT_MAX_RETRIES, move_history: Vec::new() }
    }

    /// Sets the number of attempts per request.
    pub fn set_max_retries(&mut self, retries: u32)
        ensures
            final(self).retries() == retries,
            final(self).moves() == old(self).moves(),
    {
        self.max_retries = retries;
    }

    /// Records a move of the game.
    pub fn add_move(&mut self, mv: Move)
        ensures
            final(self).moves() == old(self).moves().push(mv),
            final(self).retries() == old(self).retries(),
    {
        self.move_history.push(mv);
    }

    /// Forgets the moves.
    pub fn clear_history(&mut self)
        ensures
            final(self).moves() == Seq::<Move>::empty(),
            final(self).retries() == old(self).retries(),
    {
        self.move_history.clear();
    }

    /// The number of attempts per request.
    pub fn max_retries(&self) -> (r: u32)
        ensures
            r == self.retries(),
    {
        self.max_retries
    }

    /// The moves recorded.
    pub fn move_history(&self) -> (r: &Vec<Move>)
        ensures
            r@ == self.moves(),
    {
        &self.move_history
    }
}

} // verus!
