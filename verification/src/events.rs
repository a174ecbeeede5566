//! The internal event queue: the actions the engine owes and the
//! notifications it reacts to, processed in strict arrival order.

use vstd::prelude::*;

use crate::command::ChatCommand;
use crate::model::Clip;

verus! {

/// What to do to a game on the chess service.
#[derive(Clone, Copy, Debug, PartialEq, Eq, Structural)]
pub enum GameAction {
    Abort,
    Move,
    OfferDraw,
    Resign,
}

/// Why an inbound challenge is declined.
#[derive(Clone, Copy, Debug, PartialEq, Eq, Structural)]
pub enum DeclineReason {
    OnlyBot,
    Variant,
    Generic,
}

/// An account-level remote action.
#[derive(Clone, Debug)]
pub enum AccountAction {
    AcceptChallenge { challenge_id: String },
    CancelChallenge { challenge_id: String },
    DeclineChallenge { challenge_id: String, reason: DeclineReason },
    ChallengeRandomBot,
}

/// A remote action against the chess service.
#[derive(Clone, Debug)]
pub enum LichessAction {
    Account(AccountAction),
    Game { game_id: String, action: GameAction },
}

impl LichessAction {
    pub fn accept_challenge(challenge_id: String) -> (r: LichessAction)
        ensures
            r == LichessAction::Account(AccountAction::AcceptChallenge { challenge_id }),
    {
        LichessAction::Account(AccountAction::AcceptChallenge { challenge_id })
    }

    pub fn cancel_challenge(challenge_id: String) -> (r: LichessAction)
        ensures
            r == LichessAction::Account(AccountAction::CancelChallenge { challenge_id }),
    {
        LichessAction::Account(AccountAction::CancelChallenge { challenge_id })
    }

    pub fn decline_challenge(challenge_id: String, reason: DeclineReason) -> (r: LichessAction)
        ensures
            r == LichessAction::Account(AccountAction::DeclineChallenge { challenge_id, reason }),
    {
        LichessAction::Account(AccountAction::DeclineChallenge { challenge_id, reason })
    }

    pub fn challenge_random_bot() -> (r: LichessAction)
        ensures
            r == LichessAction::Account(AccountAction::ChallengeRandomBot),
    {
        LichessAction::Account(AccountAction::ChallengeRandomBot)
    }

    pub fn abort(game_id: String) -> (r: LichessAction)
        ensures
            r == (LichessAction::Game { game_id, action: GameAction::Abort }),
    {
        LichessAction::Game { game_id, action: GameAction::Abort }
    }

    pub fn make_move(game_id: String) -> (r: LichessAction)
        ensures
            r == (LichessAction::Game { game_id, action: GameAction::Move }),
    {
        LichessAction::Game { game_id, action: GameAction::Move }
    }

    pub fn offer_draw(game_id: String) -> (r: LichessAction)
        ensures
            r == (LichessAction::Game { game_id, action: GameAction::OfferDraw }),
    {
        LichessAction::Game { game_id, action: GameAction::OfferDraw }
    }

    pub fn resign(game_id: String) -> (r: LichessAction)
        ensures
            r == (LichessAction::Game { game_id, action: GameAction::Resign }),
    {
        LichessAction::Game { game_id, action: GameAction::Resign }
    }
}

/// An internal action: something the engine owes.
#[derive(Clone, Debug)]
pub enum Action {
    Lichess(LichessAction),
    PlayClip(Clip),
    FindNewGame,
    SwitchGame(String),
    Shutdown,
}

/// A game-scoped notification.
#[derive(Clone, Debug)]
pub enum GameNotification {
    NewCurrentGame,
    GameStarted { game_id: String },
    GameAbortable { game_id: String },
    GameFinished,
    OurTurn { game_id: String },
    TheirTurn { game_id: String },
    PlayerMoved { game_id: String, was_us: bool },
}

/// An internal notification: something that happened.
#[derive(Clone, Debug)]
pub enum Notification {
    ChatCommand(ChatCommand),
    VotingFinished,
    OutboundChallengeNullified,
    GameVotesChanged,
    SettingsChanged,
    ChallengeSent { id: String, rating: u32 },
    Game(GameNotification),
}

/// An internal event.
#[derive(Clone, Debug)]
pub enum Event {
    Action(Action),
    Notification(Notification),
}

/// The internal queue, drained front to back between external events.
#[derive(Debug)]
pub struct EventQueue {
    pub events: Vec<Event>,
}

impl EventQueue {
    pub fn new() -> (r: EventQueue)
        ensures
            r.events@.len() == 0,
    {
        EventQueue { events: Vec::new() }
    }

    pub fn push_action(&mut self, action: Action)
        ensures
            final(self).events@ == old(self).events@.push(Event::Action(action)),
    {
        self.events.push(Event::Action(action));
    }

    pub fn push_notification(&mut self, notification: Notification)
        ensures
            final(self).events@ == old(self).events@.push(Event::Notification(notification)),
    {
        self.events.push(Event::Notification(notification));
    }

    /// The oldest event, if any.
    pub fn next(&mut self) -> (r: Option<Event>)
        ensures
            old(self).events@.len() == 0 ==> r is None && *final(self) == *old(self),
            old(self).events@.len() > 0 ==> r == Some(old(self).events@[0]) && final(self).events@
                == old(self).events@.drop_first(),
    {
        if self.events.len() == 0 {
            None
        } else {
            let e = self.events.remove(0);
            proof {
                assert(self.events@ =~= old(self).events@.drop_first());
            }
            Some(e)
        }
    }

    pub fn is_empty(&self) -> (r: bool)
        ensures
            r == (self.events@.len() == 0),
    {
        self.events.len() == 0
    }
}

} // verus!
