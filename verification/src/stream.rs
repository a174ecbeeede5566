//! One-way events to the presentation layer.

use vstd::prelude::*;

use crate::game::Game;
use crate::model::Clip;
use crate::model::Command;
use crate::model::GameVotes;
use crate::model::Notice;
use crate::model::Side;
use crate::model::State;
use crate::model::Timer;
use crate::settings::Settings;

verus! {

/// Something the presentation layer should do.
#[derive(Debug)]
pub enum Action {
    PlayClip { clip: Clip },
    Shutdown,
}

/// A change of one displayed element of the current game.
#[derive(Debug)]
pub enum GameUpdate {
    Board { board: String },
    MoveHistory { moves: Vec<String> },
    Timer { side: Side, timer: Timer },
}

/// Something the presentation layer should show.
#[derive(Debug)]
pub enum Notification {
    ActiveGame { game: Game },
    ChatCommand { command: Command },
    Notice { notice: Notice },
    State { state: State },
    Settings { settings: Settings },
    GameVotes { votes: GameVotes },
    GameUpdate(GameUpdate),
}

/// One presentation event.
#[derive(Debug)]
pub enum Event {
    Action(Action),
    Notification(Notification),
}

} // verus!
