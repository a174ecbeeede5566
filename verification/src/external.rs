//! External events, as plain values: what the chess service's streams and
//! the chat client deliver, after decoding.

use vstd::prelude::*;

use crate::challenge::ChallengeInfo;
use crate::command::ChatCommand;
use crate::command::ChatMessage;
use crate::game::GameFullInfo;
use crate::game::GameStartInfo;
use crate::game::GameStateInfo;

verus! {

/// An account-level event from the chess service.
#[derive(Clone, Debug)]
pub enum AccountEvent {
    Challenge { challenge: ChallengeInfo },
    ChallengeCanceled { challenge: ChallengeInfo },
    ChallengeDeclined { challenge: ChallengeInfo },
    GameStart { game: GameStartInfo },
    GameFinish { game: GameStartInfo },
}

/// A per-game event from the chess service.
#[derive(Clone, Debug)]
pub enum GameEvent {
    GameFull { game_full: GameFullInfo },
    GameState { game_state: GameStateInfo },
    ChatLine,
    OpponentGone,
}

/// An event from the chess service.
#[derive(Clone, Debug)]
pub enum LichessEvent {
    AccountEvent { event: AccountEvent },
    GameEvent { game_id: String, event: GameEvent },
}

/// An event from the chat client.
#[derive(Clone, Debug)]
pub enum TwitchEvent {
    ChatCommand(ChatCommand),
    ChatMessage(ChatMessage),
}

/// Any external event.
#[derive(Clone, Debug)]
pub enum ExternalEvent {
    Lichess(LichessEvent),
    Twitch(TwitchEvent),
}

} // verus!
