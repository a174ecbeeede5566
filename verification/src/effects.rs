//! What the engine asks its surroundings to do. The engine is a pure state
//! machine: every remote call, presentation event, timer and stream
//! subscription it wants comes out as one of these, in order.

use vstd::prelude::*;

use crate::events::DeclineReason;

verus! {

/// A call against the chess service.
#[derive(Debug)]
pub enum RemoteCall {
    AcceptChallenge { challenge_id: String },
    CancelChallenge { challenge_id: String },
    DeclineChallenge { challenge_id: String, reason: DeclineReason },
    GetOnlineBots,
    CreateChallenge { username: String, limit: u32, increment: u32, bot_id: String, rating: u32 },
    Abort { game_id: String },
    MakeMove { game_id: String, uci: String },
    OfferDraw { game_id: String },
    Resign { game_id: String },
}

/// One instruction to the engine's surroundings.
#[derive(Debug)]
pub enum Effect {
    /// Perform the call; its outcome is not waited on.
    Remote(RemoteCall),
    /// Perform the call and report back whether it succeeded, so the vote
    /// tracker can be reset on a committed action.
    Commit(RemoteCall),
    /// Forward to the presentation layer.
    Stream(crate::stream::Event),
    /// Start the vote-window ticker: one tick per second for the given
    /// count, then the window closes. Replaces any running ticker.
    ScheduleVoteTimer { game_id: String, seconds: u64 },
    /// After the given wait, deliver a game-abortable notification.
    ScheduleGameAbortable { game_id: String, seconds: u64 },
    /// After the given wait, enqueue a cancel of the challenge.
    ScheduleChallengeCancel { challenge_id: String, seconds: u64 },
    /// Abort the pending challenge-cancel timer, if one runs.
    CancelChallengeTimer,
    /// Start forwarding the game's event stream.
    OpenGameStream { game_id: String },
    /// Await the end of the game's event stream task.
    CloseGameStream { game_id: String },
}

} // verus!
