//! The engine: the single owner of the model, fed external events and its
//! own internal queue, emitting effects for its surroundings to perform.

use vstd::prelude::*;

use crate::board::random_legal_uci;
use crate::challenge::ChallengeManager;
use crate::command::ChatCommand;
use crate::command::Command as TwitchCommand;
use crate::command::Setting;
use crate::effects::Effect;
use crate::effects::RemoteCall;
use crate::events::Action;
use crate::events::AccountAction;
use crate::events::Event;
use crate::events::EventQueue;
use crate::events::GameAction;
use crate::events::GameNotification;
use crate::events::LichessAction;
use crate::events::Notification;
use crate::external::AccountEvent;
use crate::external::ExternalEvent;
use crate::external::GameEvent;
use crate::external::LichessEvent;
use crate::external::TwitchEvent;
use crate::game::GameManager;
use crate::model::Clip;
use crate::model::Command;
use crate::model::GameVotes;
use crate::model::Side;
use crate::model::Speed;
use crate::model::State;
use crate::settings::SettingsVotes;
use crate::stream;
use crate::text::ascii_lowercase;
use crate::text::str_eq;
use crate::votes::Vote;
use crate::votes::vote_eq;
use crate::votes::VoteTracker;

verus! {

/// Relies on rand::random: an arbitrary machine word. Nothing is promised
/// of its value.
#[verifier::external_body]
fn random_u64() -> u64 {
    rand::random::<u64>()
}

/// One bot's record in a rating category.
#[derive(Clone, Copy, Debug)]
pub struct BotPerf {
    pub rating: u32,
    pub games: u32,
    pub prov: Option<bool>,
}

/// An online bot, as the bot list reports it.
#[derive(Clone, Debug)]
pub struct Bot {
    pub id: String,
    pub username: String,
    pub tos_violation: Option<bool>,
    pub disabled: Option<bool>,
    pub bullet: Option<BotPerf>,
    pub blitz: Option<BotPerf>,
    pub rapid: Option<BotPerf>,
    pub classical: Option<BotPerf>,
}

/// A bot we may challenge: in good standing, with a settled blitz record.
pub open spec fn spec_bot_ok(b: Bot) -> bool {
    &&& !(b.tos_violation matches Some(true))
    &&& !(b.disabled matches Some(true))
    &&& (b.blitz matches Some(p) && p.rating != 0 && !(p.prov matches Some(false)) && p.games > 0)
}

fn bot_ok(b: &Bot) -> (r: bool)
    ensures
        r == spec_bot_ok(*b),
{
    let tos = match &b.tos_violation {
        Some(v) => *v,
        None => false,
    };
    let disabled = match &b.disabled {
        Some(v) => *v,
        None => false,
    };
    let valid_blitz = match &b.blitz {
        Some(p) => {
            let prov = match &p.prov {
                Some(v) => *v,
                None => true,
            };
            p.rating != 0 && prov && p.games > 0
        },
        None => false,
    };
    !tos && !disabled && valid_blitz
}

/// The engine's whole state.
#[derive(Debug)]
pub struct Engine {
    pub game_votes: VoteTracker,
    pub settings_votes: SettingsVotes,
    pub challenge_manager: ChallengeManager,
    pub game_manager: GameManager,
    pub internal_queue: EventQueue,
    pub effects: Vec<Effect>,
    pub is_running: bool,
}

impl Engine {
    pub open spec fn wf(&self) -> bool {
        &&& self.game_votes.wf()
        &&& self.settings_votes.wf()
        &&& self.game_manager.wf()
    }

    /// A fresh engine: nothing known, a game search already queued.
    pub fn new(our_id: String) -> (r: Engine)
        ensures
            r.wf(),
            r.is_running,
            r.game_manager.games.entries().len() == 0,
            r.game_manager.current_game_id is None,
            r.challenge_manager.outbound is None,
            r.internal_queue.events@ =~= seq![Event::Action(Action::FindNewGame)],
            r.effects@.len() == 0,
            !r.game_votes.enabled,
    {
        let mut internal_queue = EventQueue::new();
        internal_queue.push_action(Action::FindNewGame);
        Engine {
            game_votes: VoteTracker::new(&Speed::Blitz),
            settings_votes: SettingsVotes::new(),
            challenge_manager: ChallengeManager::new(our_id.clone()),
            game_manager: GameManager::new(our_id),
            internal_queue,
            effects: Vec::new(),
            is_running: true,
        }
    }

    /// Take the effects accumulated so far; the surroundings perform them
    /// in order.
    pub fn take_effects(&mut self) -> (r: Vec<Effect>)
        ensures
            r@ == old(self).effects@,
            final(self).effects@.len() == 0,
            *final(self) == (Engine { effects: final(self).effects, ..*old(self) }),
    {
        let mut out: Vec<Effect> = Vec::new();
        core::mem::swap(&mut out, &mut self.effects);
        out
    }

    /// Wall time passed: run every clock down and publish the current
    /// game's active timer.
    pub fn tick_clocks(&mut self, elapsed_ms: u64)
        requires
            old(self).wf(),
        ensures
            final(self).wf(),
            tick_applied(*old(self), *final(self), elapsed_ms),
    {
        self.game_manager.advance_clocks(elapsed_ms);
        proof {
            assert(crate::game::clocks_applied(
                old(self).game_manager,
                self.game_manager,
                elapsed_ms,
            ));
        }
        let ghost mid_gm = self.game_manager;
        let (side, timer) = match self.game_manager.current_game() {
            Some(game) => {
                if game.is_our_turn {
                    (Side::Ours, game.us.timer)
                } else {
                    (Side::Theirs, game.opponent.timer)
                }
            },
            None => {
                proof {
                    assert(crate::game::current_pruned(mid_gm, self.game_manager));
                }
                return ;
            },
        };
        proof {
            assert(crate::game::current_pruned(mid_gm, self.game_manager));
        }
        self.effects.push(
            Effect::Stream(
                stream::Event::Notification(
                    stream::Notification::GameUpdate(stream::GameUpdate::Timer { side, timer }),
                ),
            ),
        );
    }

    /// One second of the vote window passed.
    pub fn process_vote_tick(&mut self)
        requires
            old(self).wf(),
        ensures
            final(self).wf(),
            final(self).game_votes.seconds_remaining == (
            if old(self).game_votes.seconds_remaining > 0 {
                old(self).game_votes.seconds_remaining - 1
            } else {
                0int
            }),
            final(self).game_votes.votes == old(self).game_votes.votes,
            final(self).internal_queue.events@ == old(self).internal_queue.events@.push(
                Event::Notification(Notification::GameVotesChanged),
            ),
    {
        self.game_votes.tick();
        self.internal_queue.push_notification(Notification::GameVotesChanged);
    }

    /// The vote window closed: the end of voting strictly precedes the
    /// move commit in the queue, so no later admission can touch this
    /// turn's tally.
    pub fn process_vote_window_closed(&mut self, game_id: String)
        ensures
            *final(self) == (Engine { internal_queue: final(self).internal_queue, ..*old(self) }),
            final(self).internal_queue.events@ == old(self).internal_queue.events@.push(
                Event::Notification(Notification::VotingFinished),
            ).push(
                Event::Action(
                    Action::Lichess(
                        LichessAction::Game { game_id, action: GameAction::Move },
                    ),
                ),
            ),
    {
        self.internal_queue.push_notification(Notification::VotingFinished);
        self.internal_queue.push_action(LichessAction::make_move(game_id).into_action());
    }

    /// A game vote from chat: the action text decides the vote; a move
    /// must read as a legal move on the current board. An admitted vote
    /// is announced.
    pub fn process_game_vote(&mut self, user: String, action: String)
        requires
            old(self).wf(),
        ensures
            final(self).wf(),
            game_vote_applied(*old(self), *final(self), user@, action@),
    {
        let action = ascii_lowercase(action.as_str());
        let vote: Option<Vote> = if str_eq(action.as_str(), "delay") {
            Some(Vote::Delay)
        } else if str_eq(action.as_str(), "draw") {
            Some(Vote::Draw)
        } else if str_eq(action.as_str(), "resign") {
            Some(Vote::Resign)
        } else if let Some(chess_move) = self.game_manager.convert_move(action.as_str()) {
            Some(Vote::Move(chess_move))
        } else {
            None
        };
        if let Some(vote) = vote {
            let ghost cast = vote;
            let admitted = self.game_votes.add_vote(user, vote);
            if admitted {
                self.internal_queue.push_notification(Notification::GameVotesChanged);
            }
            proof {
                assert(admission_applied(*old(self), *self, user@, cast));
            }
        }
    }

    /// A settings vote from chat.
    pub fn process_settings_vote(&mut self, user: String, setting: Setting, on: bool)
        requires
            old(self).wf(),
        ensures
            final(self).wf(),
            settings_vote_applied(*old(self), *final(self), user@, setting, on),
    {
        self.settings_votes.add_vote(user, setting, on);
        self.internal_queue.push_notification(Notification::SettingsChanged);
    }

    /// A chat command: echo it to the stream, then apply it.
    pub fn process_chat_command(&mut self, chat_command: ChatCommand)
        requires
            old(self).wf(),
        ensures
            final(self).wf(),
            chat_command_applied(*old(self), *final(self), chat_command),
    {
        self.internal_queue.push_notification(
            Notification::ChatCommand(chat_command.clone()),
        );
        let ghost mid = *self;
        let ChatCommand { user, command } = chat_command;
        match command {
            TwitchCommand::VoteGame { action } => {
                self.process_game_vote(user, action);
            },
            TwitchCommand::VoteSetting { setting, on } => {
                self.process_settings_vote(user, setting, on);
            },
        }
        proof {
            assert(chat_command_applied(*old(self), *self, chat_command)) by {
                assert(mid.internal_queue.events@ == old(self).internal_queue.events@.push(
                    Event::Notification(Notification::ChatCommand(chat_command)),
                ));
            }
        }
    }

    /// Arrange a game where none is current; with a current game this is a
    /// no-op: the games, the current id and the outbound challenge all
    /// stay as they are.
    pub fn find_new_game(&mut self)
        requires
            old(self).wf(),
        ensures
            final(self).wf(),
            (old(self).game_manager.current_ok() && old(self).game_manager.current_game_id is Some
                ==> *final(self) == *old(self)),
            find_new_game_applied(*old(self), *final(self)),
    {
        match self.game_manager.current_game() {
            Some(_) => {},
            None => {
                let ghost mid = *self;
                self.find_new_opponent();
                proof {
                    assert(crate::game::current_pruned(old(self).game_manager, mid.game_manager));
                    assert(find_new_opponent_applied(mid, *self));
                }
            },
        }
    }

    /// Pick an opponent: adopt the oldest waiting game, else clear any
    /// outbound challenge and ask for a random bot.
    pub fn find_new_opponent(&mut self)
        requires
            old(self).wf(),
        ensures
            final(self).wf(),
            find_new_opponent_applied(*old(self), *final(self)),
    {
        match self.game_manager.oldest_game_id() {
            Some(game_id) => {
                self.game_manager.switch_game(game_id.as_str(), &mut self.internal_queue);
                proof {
                    assert(crate::game::switch_applied(
                        old(self).game_manager,
                        self.game_manager,
                        game_id@,
                        old(self).internal_queue.events@,
                        self.internal_queue.events@,
                    ));
                    assert(oldest_of(old(self).game_manager, game_id@));
                }
            },
            None => {
                if self.challenge_manager.outbound().is_some() {
                    self.challenge_manager.cancel_outbound(&mut self.effects);
                }
                self.internal_queue.push_action(
                    LichessAction::challenge_random_bot().into_action(),
                );
            },
        }
    }

    /// Commit this turn's action. The top vote decides: a delay spends one
    /// of the budget and reopens the window; a draw, resignation or move
    /// goes out as a commit call; with no votes at all a random legal move
    /// is played so the game does not time out.
    pub fn make_move(&mut self, game_id: String)
        requires
            old(self).wf(),
        ensures
            final(self).wf(),
            move_commit_applied(*old(self), *final(self), game_id@),
    {
        let ghost e0 = self.effects@;
        let top = self.game_votes.get_top_vote();
        let vote = match top {
            None => {
                let board = match self.game_manager.game(game_id.as_str()) {
                    Some(game) => game.board.clone(),
                    None => {
                        proof {
                            assert(self.effects@.subrange(0, e0.len() as int) =~= e0);
                            assert(added(e0, self.effects@).len() == 0);
                        }
                        return ;
                    },
                };
                match random_legal_uci(board.as_str()) {
                    Some(uci) => {
                        self.effects.push(
                            Effect::Commit(RemoteCall::MakeMove { game_id, uci }),
                        );
                        proof {
                            assert(self.effects@.subrange(0, e0.len() as int) =~= e0);
                            assert(added(e0, self.effects@) =~= seq![
                                self.effects@[self.effects@.len() - 1],
                            ]);
                        }
                    },
                    None => {
                        proof {
                            assert(self.effects@.subrange(0, e0.len() as int) =~= e0);
                            assert(added(e0, self.effects@).len() == 0);
                        }
                    },
                }
                return ;
            },
            Some(vote) => vote,
        };
        proof {
            assert(self.game_votes.votes.entries().len() > 0);
        }
        match vote {
            Vote::Delay => {
                self.game_votes.add_delay();
                self.internal_queue.push_notification(Notification::GameVotesChanged);
                self.game_votes.reset_voting();
                self.internal_queue.push_notification(Notification::GameVotesChanged);
                self.game_votes.schedule_action_vote();
                let seconds = self.game_votes.vote_seconds;
                self.effects.push(Effect::ScheduleVoteTimer { game_id, seconds });
            },
            Vote::Draw => {
                self.effects.push(Effect::Commit(RemoteCall::OfferDraw { game_id }));
            },
            Vote::Resign => {
                self.effects.push(Effect::Commit(RemoteCall::Resign { game_id }));
            },
            Vote::Move(uci) => {
                self.effects.push(Effect::Commit(RemoteCall::MakeMove { game_id, uci }));
            },
        }
        proof {
            assert(self.effects@.subrange(0, e0.len() as int) =~= e0);
            assert(added(e0, self.effects@) =~= seq![self.effects@[self.effects@.len() - 1]]);
        }
    }

    /// The outcome of a commit call: success clears the votes and the
    /// delay budget for the new turn; failure leaves them, so the window
    /// tries again.
    pub fn process_commit_outcome(&mut self, ok: bool)
        requires
            old(self).wf(),
        ensures
            final(self).wf(),
            (if ok {
                &&& final(self).game_votes.votes.entries().len() == 0
                &&& final(self).game_votes.delays.current == 0
                &&& final(self).internal_queue.events@ == old(self).internal_queue.events@.push(
                    Event::Notification(Notification::GameVotesChanged),
                )
            } else {
                *final(self) == *old(self)
            }),
    {
        if ok {
            self.game_votes.reset();
            self.internal_queue.push_notification(Notification::GameVotesChanged);
        }
    }
}

impl LichessAction {
    /// Wrap into an internal action.
    pub fn into_action(self) -> (r: Action)
        ensures
            r == Action::Lichess(self),
    {
        Action::Lichess(self)
    }
}


/// `shorter` begins `longer`.
pub open spec fn is_prefix<T>(shorter: Seq<T>, longer: Seq<T>) -> bool {
    shorter.len() <= longer.len() && longer.subrange(0, shorter.len() as int) == shorter
}

/// What `longer` adds after `shorter`.
pub open spec fn added<T>(shorter: Seq<T>, longer: Seq<T>) -> Seq<T> {
    longer.subrange(shorter.len() as int, longer.len() as int)
}


/// What each remote action does: account calls and plain game calls go
/// straight out; a move runs the commit decision.
pub open spec fn lichess_action_applied(o: Engine, n: Engine, action: LichessAction) -> bool {
    match action {
        LichessAction::Account(a) => {
            &&& n.game_votes == o.game_votes
            &&& n.settings_votes == o.settings_votes
            &&& n.challenge_manager == o.challenge_manager
            &&& n.game_manager == o.game_manager
            &&& n.is_running == o.is_running
            &&& n.internal_queue.events@ == o.internal_queue.events@
            &&& (match a {
                AccountAction::AcceptChallenge { challenge_id } => n.effects@ == o.effects@.push(
                    Effect::Remote(RemoteCall::AcceptChallenge { challenge_id }),
                ),
                AccountAction::CancelChallenge { challenge_id } => n.effects@ == o.effects@.push(
                    Effect::Remote(RemoteCall::CancelChallenge { challenge_id }),
                ),
                AccountAction::DeclineChallenge { challenge_id, reason } => n.effects@
                    == o.effects@.push(
                    Effect::Remote(RemoteCall::DeclineChallenge { challenge_id, reason }),
                ),
                AccountAction::ChallengeRandomBot => n.effects@ == o.effects@.push(
                    Effect::Remote(RemoteCall::GetOnlineBots),
                ),
            })
        },
        LichessAction::Game { game_id, action: ga } => match ga {
            GameAction::Move => move_commit_applied(o, n, game_id@),
            _ => {
                &&& n.game_votes == o.game_votes
                &&& n.settings_votes == o.settings_votes
                &&& n.challenge_manager == o.challenge_manager
                &&& n.game_manager == o.game_manager
                &&& n.is_running == o.is_running
                &&& n.internal_queue.events@ == o.internal_queue.events@
                &&& (match ga {
                    GameAction::Abort => n.effects@ == o.effects@.push(
                        Effect::Remote(RemoteCall::Abort { game_id }),
                    ),
                    GameAction::OfferDraw => n.effects@ == o.effects@.push(
                        Effect::Remote(RemoteCall::OfferDraw { game_id }),
                    ),
                    GameAction::Resign => n.effects@ == o.effects@.push(
                        Effect::Remote(RemoteCall::Resign { game_id }),
                    ),
                    GameAction::Move => true,
                })
            },
        },
    }
}

/// What each internal action does.
pub open spec fn action_applied(o: Engine, n: Engine, action: Action) -> bool {
    match action {
        Action::Lichess(la) => lichess_action_applied(o, n, la),
        Action::PlayClip(clip) => {
            &&& n.game_votes == o.game_votes
            &&& n.settings_votes == o.settings_votes
            &&& n.challenge_manager == o.challenge_manager
            &&& n.game_manager == o.game_manager
            &&& n.is_running == o.is_running
            &&& n.internal_queue.events@ == o.internal_queue.events@
            &&& n.effects@ == o.effects@.push(
                Effect::Stream(stream::Event::Action(stream::Action::PlayClip { clip })),
            )
        },
        Action::FindNewGame => find_new_game_applied(o, n),
        Action::SwitchGame(game_id) => {
            &&& n.game_votes == o.game_votes
            &&& n.settings_votes == o.settings_votes
            &&& n.challenge_manager == o.challenge_manager
            &&& n.is_running == o.is_running
            &&& n.effects@ == o.effects@
            &&& crate::game::switch_applied(
                o.game_manager,
                n.game_manager,
                game_id@,
                o.internal_queue.events@,
                n.internal_queue.events@,
            )
        },
        Action::Shutdown => {
            &&& !n.is_running
            &&& n.game_votes == o.game_votes
            &&& n.settings_votes == o.settings_votes
            &&& n.challenge_manager == o.challenge_manager
            &&& n.game_manager == o.game_manager
            &&& n.internal_queue == o.internal_queue
            &&& n.effects == o.effects
        },
    }
}

/// What each internal event does.
pub open spec fn internal_event_applied(o: Engine, n: Engine, event: Event) -> bool {
    match event {
        Event::Action(action) => action_applied(o, n, action),
        Event::Notification(notification) => notification_applied(o, n, notification),
    }
}

/// What each chess-service event does, through the component it belongs
/// to.
pub open spec fn lichess_event_applied(o: Engine, n: Engine, event: LichessEvent, now: u64) -> bool {
    &&& n.game_votes == o.game_votes
    &&& n.settings_votes == o.settings_votes
    &&& n.is_running == o.is_running
    &&& (match event {
        LichessEvent::AccountEvent { event } => match event {
            AccountEvent::Challenge { challenge } => {
                &&& n.game_manager == o.game_manager
                &&& (match challenge.status {
                    crate::challenge::ChallengeStatus::Created => crate::challenge::created_applied(
                        o.challenge_manager,
                        n.challenge_manager,
                        challenge,
                        now,
                        o.internal_queue.events@,
                        n.internal_queue.events@,
                        o.effects@,
                        n.effects@,
                    ),
                    _ => crate::challenge::nullify_applied(
                        o.challenge_manager,
                        n.challenge_manager,
                        challenge,
                        o.internal_queue.events@,
                        n.internal_queue.events@,
                        o.effects@,
                        n.effects@,
                    ),
                })
            },
            AccountEvent::ChallengeCanceled { challenge } => n.game_manager == o.game_manager
                && crate::challenge::nullify_applied(
                o.challenge_manager,
                n.challenge_manager,
                challenge,
                o.internal_queue.events@,
                n.internal_queue.events@,
                o.effects@,
                n.effects@,
            ),
            AccountEvent::ChallengeDeclined { challenge } => n.game_manager == o.game_manager
                && crate::challenge::nullify_applied(
                o.challenge_manager,
                n.challenge_manager,
                challenge,
                o.internal_queue.events@,
                n.internal_queue.events@,
                o.effects@,
                n.effects@,
            ),
            AccountEvent::GameStart { game } => {
                &&& n.challenge_manager == o.challenge_manager
                &&& crate::game::game_start_applied(
                    o.game_manager,
                    n.game_manager,
                    game,
                    now,
                    o.internal_queue.events@,
                    n.internal_queue.events@,
                )
                &&& is_prefix(o.effects@, n.effects@)
                &&& added(o.effects@, n.effects@).len() == 1
                &&& (added(o.effects@, n.effects@)[0] matches Effect::OpenGameStream { game_id }
                    && game_id@ == game.game_id@)
            },
            AccountEvent::GameFinish { game } => {
                &&& n.challenge_manager == o.challenge_manager
                &&& crate::game::game_finish_applied(o.game_manager, n.game_manager, game)
                &&& n.internal_queue.events@ == o.internal_queue.events@.push(
                    Event::Action(Action::FindNewGame),
                )
                &&& is_prefix(o.effects@, n.effects@)
                &&& added(o.effects@, n.effects@).len() == 1
                &&& (added(o.effects@, n.effects@)[0] matches Effect::CloseGameStream { game_id }
                    && game_id@ == game.game_id@)
            },
        },
        LichessEvent::GameEvent { game_id, event } => {
            &&& n.challenge_manager == o.challenge_manager
            &&& (match event {
                GameEvent::GameFull { game_full } => n.effects@ == o.effects@
                    && crate::game::game_full_applied(
                    o.game_manager,
                    n.game_manager,
                    game_full,
                    now,
                    o.internal_queue.events@,
                    n.internal_queue.events@,
                ),
                GameEvent::GameState { game_state } => n.effects@ == o.effects@
                    && crate::game::game_update_applied(
                    o.game_manager,
                    n.game_manager,
                    game_id@,
                    game_state,
                    o.internal_queue.events@,
                    n.internal_queue.events@,
                ),
                GameEvent::ChatLine => n == o,
                GameEvent::OpponentGone => n.game_manager == o.game_manager && n.effects@
                    == o.effects@ && n.internal_queue.events@ == o.internal_queue.events@.push(
                    Event::Notification(
                        Notification::Game(GameNotification::GameAbortable { game_id }),
                    ),
                ),
            })
        },
    })
}

/// What each chat event does: a command is applied, a plain message is
/// dropped.
pub open spec fn twitch_event_applied(o: Engine, n: Engine, event: TwitchEvent) -> bool {
    match event {
        TwitchEvent::ChatCommand(c) => chat_command_applied(o, n, c),
        TwitchEvent::ChatMessage(_) => n == o,
    }
}

/// What each external event does.
pub open spec fn external_event_applied(o: Engine, n: Engine, event: ExternalEvent, now: u64) -> bool {
    match event {
        ExternalEvent::Lichess(e) => lichess_event_applied(o, n, e, now),
        ExternalEvent::Twitch(e) => twitch_event_applied(o, n, e),
    }
}

/// The id of an oldest stored game.
pub open spec fn oldest_of(m: crate::game::GameManager, id: Seq<char>) -> bool {
    &&& m.games.spec_contains(id)
    &&& (forall|j: int|
        0 <= j < m.games.entries().len() ==> (#[trigger] m.games.entries()[j]).1.timestamp
            >= m.games.spec_get(id)->Some_0.timestamp)
}

/// What the opponent search does: with games waiting, switch to an oldest
/// one; with none, clear any outbound challenge and queue the bot
/// challenge.
pub open spec fn find_new_opponent_applied(o: Engine, n: Engine) -> bool {
    &&& n.game_votes == o.game_votes
    &&& n.settings_votes == o.settings_votes
    &&& n.is_running == o.is_running
    &&& (if o.game_manager.games.entries().len() == 0 {
        &&& n.game_manager == o.game_manager
        &&& n.challenge_manager.outbound is None
        &&& n.challenge_manager.our_id == o.challenge_manager.our_id
        &&& (if o.challenge_manager.outbound is Some {
            n.effects@ == o.effects@.push(Effect::CancelChallengeTimer)
        } else {
            n.effects@ == o.effects@
        })
        &&& n.internal_queue.events@ == o.internal_queue.events@.push(
            Event::Action(
                Action::Lichess(LichessAction::Account(AccountAction::ChallengeRandomBot)),
            ),
        )
    } else {
        &&& n.challenge_manager == o.challenge_manager
        &&& n.effects@ == o.effects@
        &&& (exists|id: Seq<char>|
            #[trigger] crate::game::switch_applied(
                o.game_manager,
                n.game_manager,
                id,
                o.internal_queue.events@,
                n.internal_queue.events@,
            ) && oldest_of(o.game_manager, id))
    })
}

/// What arranging a game does: nothing while a live current game stands;
/// else the finished current game (if any) is archived and the opponent
/// search runs.
pub open spec fn find_new_game_applied(o: Engine, n: Engine) -> bool {
    if o.game_manager.current_ok() && o.game_manager.current_game_id is Some {
        n == o
    } else {
        exists|mid: Engine|
            {
                &&& #[trigger] crate::game::current_pruned(o.game_manager, mid.game_manager)
                &&& mid.game_votes == o.game_votes
                &&& mid.settings_votes == o.settings_votes
                &&& mid.challenge_manager == o.challenge_manager
                &&& mid.internal_queue == o.internal_queue
                &&& mid.effects == o.effects
                &&& mid.is_running == o.is_running
                &&& find_new_opponent_applied(mid, n)
            }
    }
}

/// What a clock tick does: every running clock runs down, and the current
/// game's active timer is published.
pub open spec fn tick_applied(o: Engine, n: Engine, elapsed_ms: u64) -> bool {
    &&& n.game_votes == o.game_votes
    &&& n.settings_votes == o.settings_votes
    &&& n.challenge_manager == o.challenge_manager
    &&& n.is_running == o.is_running
    &&& n.internal_queue.events@ == o.internal_queue.events@
    &&& (exists|mid: crate::game::GameManager|
        #[trigger] crate::game::clocks_applied(o.game_manager, mid, elapsed_ms)
            && crate::game::current_pruned(mid, n.game_manager))
    &&& (match n.game_manager.spec_current() {
        Some(g) => n.effects@ == o.effects@.push(
            Effect::Stream(
                stream::Event::Notification(
                    stream::Notification::GameUpdate(
                        stream::GameUpdate::Timer {
                            side: if g.is_our_turn {
                                Side::Ours
                            } else {
                                Side::Theirs
                            },
                            timer: if g.is_our_turn {
                                g.us.timer
                            } else {
                                g.opponent.timer
                            },
                        },
                    ),
                ),
            ),
        ),
        None => n.effects@ == o.effects@,
    })
}

/// What admitting one user's vote does to the tracker and the queue: an
/// admitted vote replaces the user's ballot and is announced; a refused
/// one changes nothing.
pub open spec fn admission_applied(o: Engine, n: Engine, user: Seq<char>, vote: Vote) -> bool {
    if o.game_votes.spec_admits(vote) {
        &&& (forall|k: Seq<char>|
            n.game_votes.votes.spec_get(k) == (if k == user {
                Some(vote)
            } else {
                o.game_votes.votes.spec_get(k)
            }))
        &&& n.game_votes.delays == o.game_votes.delays
        &&& n.game_votes.enabled == o.game_votes.enabled
        &&& n.game_votes.vote_seconds == o.game_votes.vote_seconds
        &&& n.game_votes.seconds_remaining == o.game_votes.seconds_remaining
        &&& n.game_votes.window_open == o.game_votes.window_open
        &&& n.internal_queue.events@ == o.internal_queue.events@.push(
            Event::Notification(Notification::GameVotesChanged),
        )
    } else {
        n.game_votes == o.game_votes && n.internal_queue.events@ == o.internal_queue.events@
    }
}

/// What a game vote from chat does: after ASCII case folding, the action
/// text decides the vote; a move must read as a legal move on the current
/// board; anything else admits nothing and announces nothing.
pub open spec fn game_vote_applied(o: Engine, n: Engine, user: Seq<char>, action: Seq<char>) -> bool {
    let lower = crate::text::spec_lower(action);
    &&& n.settings_votes == o.settings_votes
    &&& n.challenge_manager == o.challenge_manager
    &&& n.is_running == o.is_running
    &&& n.effects@ == o.effects@
    &&& (if lower == "delay"@ {
        n.game_manager == o.game_manager && admission_applied(o, n, user, Vote::Delay)
    } else if lower == "draw"@ {
        n.game_manager == o.game_manager && admission_applied(o, n, user, Vote::Draw)
    } else if lower == "resign"@ {
        n.game_manager == o.game_manager && admission_applied(o, n, user, Vote::Resign)
    } else {
        &&& crate::game::current_pruned(o.game_manager, n.game_manager)
        &&& (match n.game_manager.spec_current() {
            None => n.game_votes == o.game_votes && n.internal_queue.events@
                == o.internal_queue.events@,
            Some(cur) => match crate::board::uci_of(cur.board@, lower) {
                None => n.game_votes == o.game_votes && n.internal_queue.events@
                    == o.internal_queue.events@,
                Some(m) => exists|mv: Vote|
                    #[trigger] admission_applied(o, n, user, mv) && (mv matches Vote::Move(t)
                        && t@ == m),
            },
        })
    })
}

/// What a settings vote from chat does: the named mode's membership
/// follows the switch and the change is announced.
pub open spec fn settings_vote_applied(
    o: Engine,
    n: Engine,
    user: Seq<char>,
    setting: Setting,
    on: bool,
) -> bool {
    &&& n.game_manager == o.game_manager
    &&& n.game_votes == o.game_votes
    &&& n.challenge_manager == o.challenge_manager
    &&& n.is_running == o.is_running
    &&& n.effects@ == o.effects@
    &&& n.internal_queue.events@ == o.internal_queue.events@.push(
        Event::Notification(Notification::SettingsChanged),
    )
    &&& ({
        let Setting::GameMode(game_mode) = setting;
        let target = match game_mode {
            crate::command::GameMode::Bullet => o.settings_votes.bullet.view(),
            crate::command::GameMode::Rapid => o.settings_votes.rapid.view(),
            crate::command::GameMode::Classical => o.settings_votes.classical.view(),
        };
        let updated = if on {
            target.insert(user)
        } else {
            target.remove(user)
        };
        match game_mode {
            crate::command::GameMode::Bullet => n.settings_votes.bullet.view() =~= updated
                && n.settings_votes.rapid == o.settings_votes.rapid && n.settings_votes.classical
                == o.settings_votes.classical,
            crate::command::GameMode::Rapid => n.settings_votes.rapid.view() =~= updated
                && n.settings_votes.bullet == o.settings_votes.bullet && n.settings_votes.classical
                == o.settings_votes.classical,
            crate::command::GameMode::Classical => n.settings_votes.classical.view() =~= updated
                && n.settings_votes.bullet == o.settings_votes.bullet && n.settings_votes.rapid
                == o.settings_votes.rapid,
        }
    })
}

/// What a chat command does: the command is echoed to the stream queue
/// first, then applied as a game or settings vote.
pub open spec fn chat_command_applied(o: Engine, n: Engine, c: ChatCommand) -> bool {
    exists|mid: Engine|
        {
            &&& #[trigger] mid.internal_queue.events@ == o.internal_queue.events@.push(
                Event::Notification(Notification::ChatCommand(c)),
            )
            &&& mid.game_votes == o.game_votes
            &&& mid.settings_votes == o.settings_votes
            &&& mid.challenge_manager == o.challenge_manager
            &&& mid.game_manager == o.game_manager
            &&& mid.effects == o.effects
            &&& mid.is_running == o.is_running
            &&& (match c.command {
                TwitchCommand::VoteGame { action } => game_vote_applied(mid, n, c.user@, action@),
                TwitchCommand::VoteSetting { setting, on } => settings_vote_applied(
                    mid,
                    n,
                    c.user@,
                    setting,
                    on,
                ),
            })
        }
}

/// What each notification does.
pub open spec fn notification_applied(o: Engine, n: Engine, notification: Notification) -> bool {
    &&& is_prefix(o.internal_queue.events@, n.internal_queue.events@)
    &&& is_prefix(o.effects@, n.effects@)
    &&& (match notification {
        Notification::VotingFinished => {
            &&& n.game_votes.votes == o.game_votes.votes
            &&& n.game_votes.delays == o.game_votes.delays
            &&& n.game_votes.vote_seconds == o.game_votes.vote_seconds
            &&& n.game_votes.seconds_remaining == o.game_votes.seconds_remaining
            &&& n.game_votes.window_open == o.game_votes.window_open
            &&& n.game_manager == o.game_manager
            &&& n.settings_votes == o.settings_votes
            &&& n.challenge_manager == o.challenge_manager
            &&& n.is_running == o.is_running
            &&& n.internal_queue.events@ == o.internal_queue.events@
            &&& n.effects@ == o.effects@
            &&& n.game_votes.enabled == (crate::votes::spec_top_vote(
                o.game_votes.votes.entries(),
            ) matches Some(tv) && vote_eq(tv, Vote::Delay))
        },
        Notification::OutboundChallengeNullified => {
            &&& crate::game::current_pruned(o.game_manager, n.game_manager)
            &&& n.game_votes == o.game_votes
            &&& n.settings_votes == o.settings_votes
            &&& n.challenge_manager == o.challenge_manager
            &&& n.is_running == o.is_running
            &&& n.effects@ == o.effects@
            &&& (n.game_manager.current_game_id is None ==> n.internal_queue.events@
                == o.internal_queue.events@.push(Event::Action(Action::FindNewGame)))
            &&& (n.game_manager.current_game_id is Some ==> n.internal_queue.events@
                == o.internal_queue.events@)
        },
        Notification::GameVotesChanged => {
            &&& Engine::frame_votes_settings_challenge(o, n)
            &&& n.game_manager == o.game_manager
            &&& n.internal_queue.events@ == o.internal_queue.events@
            &&& ({
                let a = added(o.effects@, n.effects@);
                &&& a.len() == 1
                &&& (a[0] matches Effect::Stream(
                    stream::Event::Notification(stream::Notification::GameVotes { votes }),
                ) && votes.seconds_remaining == o.game_votes.seconds_remaining && votes.delays
                    == o.game_votes.delays && (o.game_votes.votes.entries().len() <= u32::MAX
                    ==> (forall|k: Seq<char>|
                    #![trigger votes.votes.spec_get(k)]
                    match votes.votes.spec_get(k) {
                        Some(stats) => stats.total_votes == crate::votes::spec_string_count(
                            o.game_votes.votes.entries(),
                            k,
                        ) && stats.total_votes >= 1 && stats.vote_changes == 0,
                        None => crate::votes::spec_string_count(
                            o.game_votes.votes.entries(),
                            k,
                        ) == 0,
                    })))
            })
        },
        Notification::SettingsChanged => {
            &&& Engine::frame_votes_settings_challenge(o, n)
            &&& n.game_manager == o.game_manager
            &&& n.internal_queue.events@ == o.internal_queue.events@
            &&& ({
                let a = added(o.effects@, n.effects@);
                a.len() == 1 && (a[0] matches Effect::Stream(
                    stream::Event::Notification(stream::Notification::Settings { settings }),
                ) && settings.total == o.settings_votes.spec_voters().len() && settings.bullet
                    == o.settings_votes.bullet.view().len() && settings.rapid
                    == o.settings_votes.rapid.view().len() && settings.classical
                    == o.settings_votes.classical.view().len() && settings.game_modes.bullet
                    == crate::settings::spec_enabled(
                    settings.bullet as int,
                    settings.total as int,
                ) && settings.game_modes.rapid == crate::settings::spec_enabled(
                    settings.rapid as int,
                    settings.total as int,
                ) && settings.game_modes.classical == crate::settings::spec_enabled(
                    settings.classical as int,
                    settings.total as int,
                ))
            })
        },
        Notification::ChallengeSent { id, rating } => {
            &&& Engine::frame_votes_settings_challenge(o, n)
            &&& n.game_manager == o.game_manager
            &&& n.internal_queue.events@ == o.internal_queue.events@
            &&& ({
                let a = added(o.effects@, n.effects@);
                a.len() == 1 && (a[0] matches Effect::Stream(
                    stream::Event::Notification(
                        stream::Notification::State {
                            state: State::ChallengingUser { id: cid, rating: cr },
                        },
                    ),
                ) && cid@ == id@ && cr == rating)
            })
        },
        Notification::ChatCommand(c) => {
            &&& Engine::frame_votes_settings_challenge(o, n)
            &&& n.game_manager == o.game_manager
            &&& n.internal_queue.events@ == o.internal_queue.events@
            &&& ({
                let a = added(o.effects@, n.effects@);
                a.len() == 1 && (a[0] matches Effect::Stream(
                    stream::Event::Notification(stream::Notification::ChatCommand { command }),
                ) && command.username == c.user && (match c.command {
                    TwitchCommand::VoteGame { action } => command.command@ == action@,
                    TwitchCommand::VoteSetting { setting, on } => command.command@
                        == setting.spec_string() + (if on {
                        " on"@
                    } else {
                        " off"@
                    }),
                }))
            })
        },
        Notification::Game(gn) => game_notification_applied(o, n, gn),
    })
}

/// What each game-scoped notification does.
pub open spec fn game_notification_applied(o: Engine, n: Engine, notification: GameNotification) -> bool {
    &&& n.settings_votes == o.settings_votes
    &&& n.is_running == o.is_running
    &&& is_prefix(o.internal_queue.events@, n.internal_queue.events@)
    &&& is_prefix(o.effects@, n.effects@)
    &&& (match notification {
        GameNotification::NewCurrentGame => {
            &&& n.challenge_manager == o.challenge_manager
            &&& crate::game::current_pruned(o.game_manager, n.game_manager)
            &&& n.game_votes.enabled
            &&& n.game_votes.votes.entries().len() == 0
            &&& n.game_votes.delays.current == 0
            &&& n.game_votes.delays.max == o.game_votes.delays.max
            &&& added(o.internal_queue.events@, n.internal_queue.events@) == seq![
                Event::Notification(Notification::GameVotesChanged),
            ]
            &&& (match n.game_manager.spec_current() {
                Some(g) => {
                    let a = added(o.effects@, n.effects@);
                    &&& a.len() == 2
                    &&& (a[0] matches Effect::Stream(
                        stream::Event::Notification(stream::Notification::ActiveGame { game }),
                    ) && crate::game::game_like(g, game))
                    &&& a[1] == Effect::Stream(
                        stream::Event::Action(stream::Action::PlayClip { clip: Clip::Start }),
                    )
                },
                None => n.effects@ == o.effects@,
            })
        },
        GameNotification::GameStarted { game_id } => {
            &&& crate::game::current_pruned(o.game_manager, n.game_manager)
            &&& n.game_votes == o.game_votes
            &&& n.challenge_manager.outbound is None
            &&& n.challenge_manager.our_id == o.challenge_manager.our_id
            &&& ({
                let n0: int = if o.challenge_manager.outbound is Some {
                    1
                } else {
                    0
                };
                let a = added(o.effects@, n.effects@);
                &&& (o.challenge_manager.outbound is Some ==> a.len() >= 1 && a[0]
                    == Effect::CancelChallengeTimer)
                &&& (if n.game_manager.spec_current() matches Some(g) && g.game_id@ == game_id@ {
                    a.len() == n0 && n.internal_queue.events@ == o.internal_queue.events@
                } else {
                    &&& a.len() == n0 + 1
                    &&& (a[n0] matches Effect::ScheduleGameAbortable { game_id: gid, seconds }
                        && gid@ == game_id@ && seconds == 30)
                    &&& added(o.internal_queue.events@, n.internal_queue.events@).len() == 1
                    &&& (added(o.internal_queue.events@, n.internal_queue.events@)[0] matches
                        Event::Action(Action::SwitchGame(gid2)) && gid2@ == game_id@)
                })
            })
        },
        GameNotification::GameAbortable { game_id } => {
            &&& n.game_manager == o.game_manager
            &&& n.game_votes == o.game_votes
            &&& n.challenge_manager == o.challenge_manager
            &&& n.effects@ == o.effects@
            &&& n.internal_queue.events@ == o.internal_queue.events@.push(
                Event::Action(
                    Action::Lichess(LichessAction::Game { game_id, action: GameAction::Abort }),
                ),
            )
        },
        GameNotification::GameFinished => {
            &&& crate::game::current_pruned(o.game_manager, n.game_manager)
            &&& n.game_votes == o.game_votes
            &&& n.challenge_manager == o.challenge_manager
            &&& (if n.game_manager.spec_current() is Some {
                n.internal_queue.events@ == o.internal_queue.events@ && n.effects@ == o.effects@
            } else {
                &&& added(o.internal_queue.events@, n.internal_queue.events@) == seq![
                    Event::Action(Action::FindNewGame),
                ]
                &&& ({
                    let a = added(o.effects@, n.effects@);
                    match n.game_manager.last_finished_game {
                        Some(last) => {
                            &&& a.len() == 2
                            &&& (a[0] matches Effect::Stream(
                                stream::Event::Notification(
                                    stream::Notification::ActiveGame { game },
                                ),
                            ) && crate::game::game_like(last, game))
                            &&& a[1] == Effect::Stream(
                                stream::Event::Notification(
                                    stream::Notification::State { state: State::GameFinished },
                                ),
                            )
                        },
                        None => a.len() == 1 && a[0] == Effect::Stream(
                            stream::Event::Notification(
                                stream::Notification::State { state: State::GameFinished },
                            ),
                        ),
                    }
                })
            })
        },
        GameNotification::OurTurn { game_id } => {
            &&& crate::game::current_pruned(o.game_manager, n.game_manager)
            &&& n.challenge_manager == o.challenge_manager
            &&& (match n.game_manager.spec_current() {
                None => n.game_votes == o.game_votes && n.internal_queue.events@
                    == o.internal_queue.events@ && n.effects@ == o.effects@,
                Some(g) => {
                    &&& n.internal_queue.events@ == o.internal_queue.events@
                    &&& n.game_votes.enabled
                    &&& n.game_votes.votes == o.game_votes.votes
                    &&& n.game_votes.delays == o.game_votes.delays
                    &&& n.game_votes.vote_seconds == o.game_votes.vote_seconds
                    &&& ({
                        let a = added(o.effects@, n.effects@);
                        if g.game_id@ == game_id@ {
                            &&& n.game_votes.window_open
                            &&& n.game_votes.seconds_remaining == o.game_votes.vote_seconds
                            &&& a.len() == 2
                            &&& (a[0] matches Effect::ScheduleVoteTimer { game_id: gid, seconds }
                                && gid@ == game_id@ && seconds == o.game_votes.vote_seconds)
                            &&& a[1] == Effect::Stream(
                                stream::Event::Notification(
                                    stream::Notification::State { state: State::OurTurn },
                                ),
                            )
                        } else {
                            &&& n.game_votes.window_open == o.game_votes.window_open
                            &&& n.game_votes.seconds_remaining == o.game_votes.seconds_remaining
                            &&& a.len() == 1
                            &&& a[0] == Effect::Stream(
                                stream::Event::Notification(
                                    stream::Notification::State { state: State::OurTurn },
                                ),
                            )
                        }
                    })
                },
            })
        },
        GameNotification::TheirTurn { game_id } => {
            &&& n.game_manager == o.game_manager
            &&& n.game_votes == o.game_votes
            &&& n.challenge_manager == o.challenge_manager
            &&& n.internal_queue.events@ == o.internal_queue.events@
            &&& n.effects@ == o.effects@.push(
                Effect::Stream(
                    stream::Event::Notification(
                        stream::Notification::State { state: State::TheirTurn },
                    ),
                ),
            )
        },
        GameNotification::PlayerMoved { game_id, was_us } => {
            &&& crate::game::current_pruned(o.game_manager, n.game_manager)
            &&& n.game_votes == o.game_votes
            &&& n.challenge_manager == o.challenge_manager
            &&& n.internal_queue.events@ == o.internal_queue.events@
            &&& (match n.game_manager.spec_current() {
                None => n.effects@ == o.effects@,
                Some(g) => if g.game_id@ != game_id@ {
                    n.effects@ == o.effects@
                } else {
                let a = added(o.effects@, n.effects@);
                &&& a.len() == 3
                &&& (a[0] matches Effect::Stream(
                    stream::Event::Notification(
                        stream::Notification::GameUpdate(stream::GameUpdate::Board { board }),
                    ),
                ) && board == g.board)
                &&& (a[1] matches Effect::Stream(
                    stream::Event::Notification(
                        stream::Notification::GameUpdate(
                            stream::GameUpdate::MoveHistory { moves },
                        ),
                    ),
                ) && moves@ == g.move_history@)
                &&& (a[2] matches Effect::Stream(
                    stream::Event::Notification(
                        stream::Notification::GameUpdate(
                            stream::GameUpdate::Timer { side, timer },
                        ),
                    ),
                ) && side == (if was_us {
                    Side::Ours
                } else {
                    Side::Theirs
                }) && timer == (if was_us {
                    g.us.timer
                } else {
                    g.opponent.timer
                }))
                },
            })
        },
    })
}

/// What the commit decision does, by the tally's winner: a delay spends
/// budget and reopens the window; a draw, resignation or move goes out as
/// exactly one commit call; with no votes the random fallback goes out
/// whenever the stored board has a legal move.
pub open spec fn move_commit_applied(o: Engine, n: Engine, game_id: Seq<char>) -> bool {
    &&& n.game_manager == o.game_manager
    &&& n.settings_votes == o.settings_votes
    &&& n.challenge_manager == o.challenge_manager
    &&& n.is_running == o.is_running
    &&& is_prefix(o.effects@, n.effects@)
    &&& (match crate::votes::spec_top_vote(o.game_votes.votes.entries()) {
        None => {
            &&& n.game_votes == o.game_votes
            &&& n.internal_queue.events@ == o.internal_queue.events@
            &&& (match o.game_manager.games.spec_get(game_id) {
                None => n.effects@ == o.effects@,
                Some(game) => if crate::board::has_legal(game.board@) {
                    added(o.effects@, n.effects@).len() == 1 && (added(
                        o.effects@,
                        n.effects@,
                    )[0] matches Effect::Commit(RemoteCall::MakeMove { game_id: g, uci }) && g@
                        == game_id && crate::board::uci_of(game.board@, uci@) == Some(uci@))
                } else {
                    n.effects@ == o.effects@
                },
            })
        },
        Some(v) => if vote_eq(v, Vote::Delay) {
            &&& n.game_votes.delays.max == o.game_votes.delays.max
            &&& n.game_votes.delays.current == (
            if o.game_votes.delays.current < o.game_votes.delays.max {
                o.game_votes.delays.current + 1
            } else {
                o.game_votes.delays.current as int
            })
            &&& n.game_votes.votes.entries().len() == 0
            &&& n.game_votes.window_open
            &&& n.game_votes.seconds_remaining == o.game_votes.vote_seconds
            &&& n.game_votes.vote_seconds == o.game_votes.vote_seconds
            &&& n.game_votes.enabled == o.game_votes.enabled
            &&& n.internal_queue.events@ == o.internal_queue.events@.push(
                Event::Notification(Notification::GameVotesChanged),
            ).push(Event::Notification(Notification::GameVotesChanged))
            &&& added(o.effects@, n.effects@).len() == 1
            &&& (added(o.effects@, n.effects@)[0] matches Effect::ScheduleVoteTimer {
                game_id: g,
                seconds,
            } && g@ == game_id && seconds == o.game_votes.vote_seconds)
        } else {
            &&& n.game_votes == o.game_votes
            &&& n.internal_queue.events@ == o.internal_queue.events@
            &&& added(o.effects@, n.effects@).len() == 1
            &&& (match v {
                Vote::Draw => added(o.effects@, n.effects@)[0] matches Effect::Commit(
                    RemoteCall::OfferDraw { game_id: g },
                ) && g@ == game_id,
                Vote::Resign => added(o.effects@, n.effects@)[0] matches Effect::Commit(
                    RemoteCall::Resign { game_id: g },
                ) && g@ == game_id,
                Vote::Move(m) => added(o.effects@, n.effects@)[0] matches Effect::Commit(
                    RemoteCall::MakeMove { game_id: g, uci },
                ) && g@ == game_id && uci@ == m@,
                Vote::Delay => false,
            })
        },
    })
}

impl Engine {
    /// Everything but the game manager, the queue and the effects is as it
    /// was.
    pub open spec fn frame_votes_settings_challenge(old_e: Engine, new_e: Engine) -> bool {
        &&& new_e.game_votes == old_e.game_votes
        &&& new_e.settings_votes == old_e.settings_votes
        &&& new_e.challenge_manager == old_e.challenge_manager
        &&& new_e.is_running == old_e.is_running
    }

    /// Handle one notification from the internal queue.
    pub fn process_notification(&mut self, notification: Notification)
        requires
            old(self).wf(),
        ensures
            final(self).wf(),
            notification_applied(*old(self), *final(self), notification),
    {
        match notification {
            Notification::ChatCommand(chat_command) => {
                let command = Command::new(chat_command.user, chat_command.command.to_string());
                self.effects.push(
                    Effect::Stream(
                        stream::Event::Notification(
                            stream::Notification::ChatCommand { command },
                        ),
                    ),
                );
                proof {
                    assert(self.effects@.subrange(0, old(self).effects@.len() as int) =~= old(self).effects@);
                    assert(self.internal_queue.events@.subrange(
                        0,
                        old(self).internal_queue.events@.len() as int,
                    ) =~= old(self).internal_queue.events@);
                }
            },
            Notification::OutboundChallengeNullified => {
                if self.game_manager.current_game().is_none() {
                    self.internal_queue.push_action(Action::FindNewGame);
                }
                proof {
                    assert(self.internal_queue.events@.subrange(
                        0,
                        old(self).internal_queue.events@.len() as int,
                    ) =~= old(self).internal_queue.events@);
                    assert(self.effects@.subrange(0, old(self).effects@.len() as int) =~= old(self).effects@);
                }
            },
            Notification::GameVotesChanged => {
                let votes = self.game_votes_model();
                self.effects.push(
                    Effect::Stream(
                        stream::Event::Notification(stream::Notification::GameVotes { votes }),
                    ),
                );
                proof {
                    assert(self.effects@.subrange(0, old(self).effects@.len() as int) =~= old(self).effects@);
                    assert(self.internal_queue.events@.subrange(
                        0,
                        old(self).internal_queue.events@.len() as int,
                    ) =~= old(self).internal_queue.events@);
                }
            },
            Notification::SettingsChanged => {
                let settings = self.settings_votes.get_settings();
                self.effects.push(
                    Effect::Stream(
                        stream::Event::Notification(stream::Notification::Settings { settings }),
                    ),
                );
                proof {
                    assert(self.effects@.subrange(0, old(self).effects@.len() as int) =~= old(self).effects@);
                    assert(self.internal_queue.events@.subrange(
                        0,
                        old(self).internal_queue.events@.len() as int,
                    ) =~= old(self).internal_queue.events@);
                }
            },
            Notification::ChallengeSent { id, rating } => {
                self.effects.push(
                    Effect::Stream(
                        stream::Event::Notification(
                            stream::Notification::State {
                                state: State::ChallengingUser { id, rating },
                            },
                        ),
                    ),
                );
                proof {
                    assert(self.effects@.subrange(0, old(self).effects@.len() as int) =~= old(self).effects@);
                    assert(self.internal_queue.events@.subrange(
                        0,
                        old(self).internal_queue.events@.len() as int,
                    ) =~= old(self).internal_queue.events@);
                }
            },
            Notification::VotingFinished => {
                let top = self.game_votes.get_top_vote();
                let is_delay = match &top {
                    Some(Vote::Delay) => true,
                    _ => false,
                };
                if is_delay {
                    self.game_votes.enable();
                } else {
                    self.game_votes.disable();
                }
                proof {
                    assert(self.internal_queue.events@.subrange(
                        0,
                        old(self).internal_queue.events@.len() as int,
                    ) =~= old(self).internal_queue.events@);
                    assert(self.effects@.subrange(0, old(self).effects@.len() as int) =~= old(self).effects@);
                }
            },
            Notification::Game(notification) => {
                self.process_game_notification(notification);
            },
        }
    }

    /// The tally snapshot for the presentation layer.
    pub fn game_votes_model(&self) -> (r: GameVotes)
        requires
            self.wf(),
        ensures
            r.seconds_remaining == self.game_votes.seconds_remaining,
            r.delays == self.game_votes.delays,
            r.wf(),
            self.game_votes.votes.entries().len() <= u32::MAX ==> (forall|k: Seq<char>|
                #![trigger r.votes.spec_get(k)]
                match r.votes.spec_get(k) {
                    Some(stats) => stats.total_votes == crate::votes::spec_string_count(
                        self.game_votes.votes.entries(),
                        k,
                    ) && stats.total_votes >= 1 && stats.vote_changes == 0,
                    None => crate::votes::spec_string_count(
                        self.game_votes.votes.entries(),
                        k,
                    ) == 0,
                }),
    {
        if self.game_votes.votes.len() > (u32::MAX as usize) {
            return GameVotes {
                seconds_remaining: self.game_votes.seconds_remaining,
                votes: crate::collections::StrMap::new(),
                delays: self.game_votes.delays,
            };
        }
        let votes = self.game_votes.tally_by_string();
        GameVotes {
            seconds_remaining: self.game_votes.seconds_remaining,
            votes,
            delays: self.game_votes.delays,
        }
    }

    /// Handle a game-scoped notification.
    pub fn process_game_notification(&mut self, notification: GameNotification)
        requires
            old(self).wf(),
        ensures
            final(self).wf(),
            game_notification_applied(*old(self), *final(self), notification),
    {
        let ghost q0 = self.internal_queue.events@;
        let ghost e0 = self.effects@;
        let ghost gm0 = self.game_manager;
        match notification {
            GameNotification::NewCurrentGame => {
                self.game_votes.enable();
                self.game_votes.reset();
                self.internal_queue.push_notification(Notification::GameVotesChanged);
                let game = match self.game_manager.current_game() {
                    Some(game) => game.clone(),
                    None => {
                        proof {
                            lemma_prefix_trivial(q0, self.internal_queue.events@, e0, self.effects@);
                            assert(crate::game::current_pruned(gm0, self.game_manager));
                            assert(added(q0, self.internal_queue.events@) =~= seq![
                                Event::Notification(Notification::GameVotesChanged),
                            ]);
                            assert(added(e0, self.effects@) =~= Seq::<Effect>::empty());
                        }
                        return ;
                    },
                };
                self.effects.push(
                    Effect::Stream(
                        stream::Event::Notification(stream::Notification::ActiveGame { game }),
                    ),
                );
                self.effects.push(
                    Effect::Stream(
                        stream::Event::Action(stream::Action::PlayClip { clip: Clip::Start }),
                    ),
                );
                proof {
                    lemma_prefix_trivial(q0, self.internal_queue.events@, e0, self.effects@);
                    assert(crate::game::current_pruned(gm0, self.game_manager));
                    assert(added(q0, self.internal_queue.events@) =~= seq![
                        Event::Notification(Notification::GameVotesChanged),
                    ]);
                    assert(added(e0, self.effects@).len() == 2);
                    assert(added(e0, self.effects@)[0] == self.effects@[e0.len() as int]);
                    assert(added(e0, self.effects@)[1] == self.effects@[e0.len() as int + 1]);
                }
            },
            GameNotification::GameStarted { game_id } => {
                self.challenge_manager.cancel_outbound(&mut self.effects);
                let already_current = match self.game_manager.current_game() {
                    Some(game) => str_eq(game.game_id.as_str(), game_id.as_str()),
                    None => false,
                };
                if already_current {
                    proof {
                        lemma_prefix_trivial(q0, self.internal_queue.events@, e0, self.effects@);
                        assert(crate::game::current_pruned(gm0, self.game_manager));
                        assert(added(e0, self.effects@).len() == self.effects@.len() - e0.len());
                        assert(forall|i: int|
                            0 <= i < added(e0, self.effects@).len() ==> added(e0, self.effects@)[i]
                                == self.effects@[e0.len() as int + i]);
                    }
                    return ;
                }
                self.internal_queue.push_action(Action::SwitchGame(game_id.clone()));
                self.effects.push(Effect::ScheduleGameAbortable { game_id, seconds: 30 });
                proof {
                    lemma_prefix_trivial(q0, self.internal_queue.events@, e0, self.effects@);
                    assert(crate::game::current_pruned(gm0, self.game_manager));
                    assert(added(q0, self.internal_queue.events@).len() == 1);
                    assert(added(q0, self.internal_queue.events@)[0] == self.internal_queue.events@[
                        q0.len() as int]);
                    assert(added(e0, self.effects@).len() == self.effects@.len() - e0.len());
                    assert(forall|i: int|
                        0 <= i < added(e0, self.effects@).len() ==> added(e0, self.effects@)[i]
                            == self.effects@[e0.len() as int + i]);
                }
            },
            GameNotification::GameAbortable { game_id } => {
                self.internal_queue.push_action(LichessAction::abort(game_id).into_action());
                proof {
                    lemma_prefix_trivial(q0, self.internal_queue.events@, e0, self.effects@);
                }
            },
            GameNotification::GameFinished => {
                if self.game_manager.current_game().is_some() {
                    proof {
                        lemma_prefix_trivial(q0, self.internal_queue.events@, e0, self.effects@);
                        assert(crate::game::current_pruned(gm0, self.game_manager));
                    }
                    return ;
                }
                self.internal_queue.push_action(Action::FindNewGame);
                match self.game_manager.last_game() {
                    Some(last_game) => {
                        let game = last_game.clone();
                        self.effects.push(
                            Effect::Stream(
                                stream::Event::Notification(
                                    stream::Notification::ActiveGame { game },
                                ),
                            ),
                        );
                    },
                    None => {},
                }
                self.effects.push(
                    Effect::Stream(
                        stream::Event::Notification(
                            stream::Notification::State { state: State::GameFinished },
                        ),
                    ),
                );
                proof {
                    lemma_prefix_trivial(q0, self.internal_queue.events@, e0, self.effects@);
                    assert(crate::game::current_pruned(gm0, self.game_manager));
                    assert(added(q0, self.internal_queue.events@) =~= seq![
                        Event::Action(Action::FindNewGame),
                    ]);
                    assert(added(e0, self.effects@).len() == self.effects@.len() - e0.len());
                    assert(forall|i: int|
                        0 <= i < added(e0, self.effects@).len() ==> added(e0, self.effects@)[i]
                            == self.effects@[e0.len() as int + i]);
                }
            },
            GameNotification::OurTurn { game_id } => {
                let matches_current = match self.game_manager.current_game() {
                    None => {
                        proof {
                            lemma_prefix_trivial(q0, self.internal_queue.events@, e0, self.effects@);
                            assert(crate::game::current_pruned(gm0, self.game_manager));
                        }
                        return ;
                    },
                    Some(game) => str_eq(game.game_id.as_str(), game_id.as_str()),
                };
                self.game_votes.enable();
                if matches_current {
                    self.game_votes.schedule_action_vote();
                    let seconds = self.game_votes.vote_seconds;
                    self.effects.push(Effect::ScheduleVoteTimer { game_id, seconds });
                }
                self.effects.push(
                    Effect::Stream(
                        stream::Event::Notification(
                            stream::Notification::State { state: State::OurTurn },
                        ),
                    ),
                );
                proof {
                    lemma_prefix_trivial(q0, self.internal_queue.events@, e0, self.effects@);
                    assert(crate::game::current_pruned(gm0, self.game_manager));
                    assert(added(e0, self.effects@).len() == self.effects@.len() - e0.len());
                    assert(forall|i: int|
                        0 <= i < added(e0, self.effects@).len() ==> added(e0, self.effects@)[i]
                            == self.effects@[e0.len() as int + i]);
                }
            },
            GameNotification::TheirTurn { game_id } => {
                self.effects.push(
                    Effect::Stream(
                        stream::Event::Notification(
                            stream::Notification::State { state: State::TheirTurn },
                        ),
                    ),
                );
                proof {
                    lemma_prefix_trivial(q0, self.internal_queue.events@, e0, self.effects@);
                }
            },
            GameNotification::PlayerMoved { game_id, was_us } => {
                let (board, moves, timer) = match self.game_manager.current_game() {
                    None => {
                        proof {
                            lemma_prefix_trivial(q0, self.internal_queue.events@, e0, self.effects@);
                            assert(crate::game::current_pruned(gm0, self.game_manager));
                        }
                        return ;
                    },
                    Some(game) => {
                        if !str_eq(game.game_id.as_str(), game_id.as_str()) {
                            proof {
                                lemma_prefix_trivial(
                                    q0,
                                    self.internal_queue.events@,
                                    e0,
                                    self.effects@,
                                );
                                assert(crate::game::current_pruned(gm0, self.game_manager));
                            }
                            return ;
                        }
                        let cloned = game.clone();
                        let timer = if was_us {
                            game.us.timer
                        } else {
                            game.opponent.timer
                        };
                        (cloned.board, cloned.move_history, timer)
                    },
                };
                self.effects.push(
                    Effect::Stream(
                        stream::Event::Notification(
                            stream::Notification::GameUpdate(stream::GameUpdate::Board { board }),
                        ),
                    ),
                );
                self.effects.push(
                    Effect::Stream(
                        stream::Event::Notification(
                            stream::Notification::GameUpdate(
                                stream::GameUpdate::MoveHistory { moves },
                            ),
                        ),
                    ),
                );
                let side = if was_us {
                    Side::Ours
                } else {
                    Side::Theirs
                };
                self.effects.push(
                    Effect::Stream(
                        stream::Event::Notification(
                            stream::Notification::GameUpdate(
                                stream::GameUpdate::Timer { side, timer },
                            ),
                        ),
                    ),
                );
                proof {
                    lemma_prefix_trivial(q0, self.internal_queue.events@, e0, self.effects@);
                    assert(crate::game::current_pruned(gm0, self.game_manager));
                    assert(added(e0, self.effects@).len() == 3);
                    assert(added(e0, self.effects@)[0] == self.effects@[e0.len() as int]);
                    assert(added(e0, self.effects@)[1] == self.effects@[e0.len() as int + 1]);
                    assert(added(e0, self.effects@)[2] == self.effects@[e0.len() as int + 2]);
                }
            },
        }
    }
}

/// Pushes only extend: anything grown from a prefix by pushes keeps the
/// prefix.
proof fn lemma_prefix_trivial(
    q0: Seq<Event>,
    q1: Seq<Event>,
    e0: Seq<Effect>,
    e1: Seq<Effect>,
)
    requires
        q0.len() <= q1.len(),
        forall|i: int| 0 <= i < q0.len() ==> q1[i] == q0[i],
        e0.len() <= e1.len(),
        forall|i: int| 0 <= i < e0.len() ==> e1[i] == e0[i],
    ensures
        is_prefix(q0, q1),
        is_prefix(e0, e1),
{
    assert(q1.subrange(0, q0.len() as int) =~= q0);
    assert(e1.subrange(0, e0.len() as int) =~= e0);
}


impl Engine {
    /// Perform one internal action.
    pub fn process_action(&mut self, action: Action)
        requires
            old(self).wf(),
        ensures
            final(self).wf(),
            action_applied(*old(self), *final(self), action),
    {
        match action {
            Action::Lichess(action) => self.process_lichess_action(action),
            Action::PlayClip(clip) => {
                self.effects.push(
                    Effect::Stream(stream::Event::Action(stream::Action::PlayClip { clip })),
                );
            },
            Action::FindNewGame => self.find_new_game(),
            Action::SwitchGame(game_id) => {
                self.game_manager.switch_game(game_id.as_str(), &mut self.internal_queue);
            },
            Action::Shutdown => {
                self.is_running = false;
            },
        }
    }

    /// Perform one remote action: account actions go straight out as
    /// calls; game actions either go out or, for a move, run the commit
    /// decision.
    pub fn process_lichess_action(&mut self, action: LichessAction)
        requires
            old(self).wf(),
        ensures
            final(self).wf(),
            lichess_action_applied(*old(self), *final(self), action),
    {
        match action {
            LichessAction::Account(action) => match action {
                AccountAction::AcceptChallenge { challenge_id } => {
                    self.effects.push(Effect::Remote(RemoteCall::AcceptChallenge { challenge_id }));
                },
                AccountAction::CancelChallenge { challenge_id } => {
                    self.effects.push(Effect::Remote(RemoteCall::CancelChallenge { challenge_id }));
                },
                AccountAction::DeclineChallenge { challenge_id, reason } => {
                    self.effects.push(
                        Effect::Remote(RemoteCall::DeclineChallenge { challenge_id, reason }),
                    );
                },
                AccountAction::ChallengeRandomBot => {
                    self.effects.push(Effect::Remote(RemoteCall::GetOnlineBots));
                },
            },
            LichessAction::Game { game_id, action } => match action {
                GameAction::Abort => {
                    self.effects.push(Effect::Remote(RemoteCall::Abort { game_id }));
                },
                GameAction::Move => {
                    self.make_move(game_id);
                },
                GameAction::OfferDraw => {
                    self.effects.push(Effect::Remote(RemoteCall::OfferDraw { game_id }));
                },
                GameAction::Resign => {
                    self.effects.push(Effect::Remote(RemoteCall::Resign { game_id }));
                },
            },
        }
    }

    /// Dispatch one internal event.
    pub fn process_internal_event(&mut self, event: Event)
        requires
            old(self).wf(),
        ensures
            final(self).wf(),
            internal_event_applied(*old(self), *final(self), event),
    {
        match event {
            Event::Action(action) => self.process_action(action),
            Event::Notification(notification) => self.process_notification(notification),
        }
    }

    /// The oldest queued internal event, removed from the queue. The
    /// surrounding loop feeds it back through `process_internal_event`
    /// until the queue is empty; dispatching may enqueue further events,
    /// so the drain has no bound of its own.
    pub fn next_internal_event(&mut self) -> (r: Option<Event>)
        ensures
            old(self).internal_queue.events@.len() == 0 ==> r is None && *final(self) == *old(self),
            old(self).internal_queue.events@.len() > 0 ==> r == Some(
                old(self).internal_queue.events@[0],
            ) && final(self).internal_queue.events@ == old(self).internal_queue.events@.drop_first() && (*final(self) == (Engine {
                internal_queue: final(self).internal_queue,
                ..*old(self)
            })),
    {
        self.internal_queue.next()
    }

    /// Dispatch an event from the chess service.
    pub fn process_lichess_event(&mut self, event: LichessEvent, now: u64)
        requires
            old(self).wf(),
        ensures
            final(self).wf(),
            lichess_event_applied(*old(self), *final(self), event, now),
    {
        match event {
            LichessEvent::AccountEvent { event } => match event {
                AccountEvent::Challenge { challenge } => {
                    self.challenge_manager.process_challenge(
                        challenge,
                        now,
                        &mut self.internal_queue,
                        &mut self.effects,
                    );
                },
                AccountEvent::ChallengeCanceled { challenge } => {
                    self.challenge_manager.process_challenge_canceled(
                        challenge,
                        &mut self.internal_queue,
                        &mut self.effects,
                    );
                },
                AccountEvent::ChallengeDeclined { challenge } => {
                    self.challenge_manager.process_challenge_declined(
                        challenge,
                        &mut self.internal_queue,
                        &mut self.effects,
                    );
                },
                AccountEvent::GameStart { game } => {
                    let game_id = game.game_id.clone();
                    self.game_manager.process_game_start(&game, now, &mut self.internal_queue);
                    self.effects.push(Effect::OpenGameStream { game_id });
                    proof {
                        assert(added(old(self).effects@, self.effects@) =~= seq![
                            self.effects@[self.effects@.len() - 1],
                        ]);
                        assert(self.effects@.subrange(0, old(self).effects@.len() as int) =~= old(
                            self,
                        ).effects@);
                    }
                },
                AccountEvent::GameFinish { game } => {
                    let game_id = game.game_id.clone();
                    self.game_manager.process_game_finish(&game);
                    self.effects.push(Effect::CloseGameStream { game_id });
                    self.internal_queue.push_action(Action::FindNewGame);
                    proof {
                        assert(added(old(self).effects@, self.effects@) =~= seq![
                            self.effects@[self.effects@.len() - 1],
                        ]);
                        assert(self.effects@.subrange(0, old(self).effects@.len() as int) =~= old(
                            self,
                        ).effects@);
                    }
                },
            },
            LichessEvent::GameEvent { game_id, event } => match event {
                GameEvent::GameFull { game_full } => {
                    self.game_manager.process_game_full(&game_full, now, &mut self.internal_queue);
                },
                GameEvent::GameState { game_state } => {
                    self.game_manager.process_game_update(
                        game_id.as_str(),
                        &game_state,
                        &mut self.internal_queue,
                    );
                },
                GameEvent::ChatLine => {},
                GameEvent::OpponentGone => {
                    self.internal_queue.push_notification(
                        Notification::Game(GameNotification::GameAbortable { game_id }),
                    );
                },
            },
        }
    }

    /// Dispatch an event from chat. Plain messages are dropped.
    pub fn process_twitch_event(&mut self, event: TwitchEvent)
        requires
            old(self).wf(),
        ensures
            final(self).wf(),
            twitch_event_applied(*old(self), *final(self), event),
    {
        match event {
            TwitchEvent::ChatCommand(chat_command) => {
                self.process_chat_command(chat_command);
            },
            TwitchEvent::ChatMessage(_) => {},
        }
    }

    /// Dispatch any external event.
    pub fn process_external_event(&mut self, event: ExternalEvent, now: u64)
        requires
            old(self).wf(),
        ensures
            final(self).wf(),
            external_event_applied(*old(self), *final(self), event, now),
    {
        match event {
            ExternalEvent::Lichess(event) => self.process_lichess_event(event, now),
            ExternalEvent::Twitch(event) => self.process_twitch_event(event),
        }
    }
}


/// The sum of the first `i` weights.
pub open spec fn spec_cum(weights: Seq<u64>, i: int) -> int
    decreases i,
{
    if i <= 0 {
        0
    } else {
        spec_cum(weights, i - 1) + weights[i - 1]
    }
}

/// The index whose cumulative-weight bucket holds `draw`.
fn pick_weighted(weights: &Vec<u64>, draw: u128) -> (r: usize)
    requires
        weights@.len() > 0,
        0 <= draw < spec_cum(weights@, weights@.len() as int),
        spec_cum(weights@, weights@.len() as int) <= u128::MAX,
    ensures
        r < weights@.len(),
        spec_cum(weights@, r as int) <= draw < spec_cum(weights@, r as int + 1),
    decreases weights@.len(),
{
    let n = weights.len();
    let mut acc: u128 = 0;
    let mut i: usize = 0;
    proof {
        lemma_cum_bounds(weights@, 0, n as int);
    }
    while i < n
        invariant
            n == weights@.len(),
            i <= n,
            acc == spec_cum(weights@, i as int),
            acc <= draw,
            draw < spec_cum(weights@, n as int),
            spec_cum(weights@, n as int) <= u128::MAX,
        decreases n - i,
    {
        proof {
            lemma_cum_bounds(weights@, i as int + 1, n as int);
        }
        let next = acc + weights[i] as u128;
        if draw < next {
            return i;
        }
        acc = next;
        i = i + 1;
    }
    proof {
        assert(false);
    }
    0
}

/// Partial sums only grow, and stay within the total.
proof fn lemma_cum_bounds(weights: Seq<u64>, i: int, n: int)
    requires
        0 <= i <= n <= weights.len(),
    ensures
        spec_cum(weights, i) <= spec_cum(weights, n),
        0 <= spec_cum(weights, i),
    decreases n - i,
{
    if i < n {
        lemma_cum_bounds(weights, i + 1, n);
    }
    lemma_cum_nonneg(weights, i);
}

proof fn lemma_cum_nonneg(weights: Seq<u64>, i: int)
    ensures
        0 <= spec_cum(weights, i),
    decreases i,
{
    if i > 0 {
        lemma_cum_nonneg(weights, i - 1);
    }
}

/// The rating shown for the bot we challenge: its bullet rating when
/// bullet is offered and enabled, else its blitz rating.
pub open spec fn spec_challenge_rating(b: Bot, bullet_on: bool) -> u32 {
    if b.bullet is Some && bullet_on {
        b.bullet->Some_0.rating
    } else {
        b.blitz->Some_0.rating
    }
}

/// The clock pairs offered for a bot under the given settings: fixed pairs
/// per mode, a mode only where the bot has a record and the settings allow
/// it; blitz is always offered.
pub open spec fn spec_clock_allowed(
    b: Bot,
    bullet_on: bool,
    rapid_on: bool,
    classical_on: bool,
    limit: u32,
    increment: u32,
) -> bool {
    ||| (b.classical is Some && classical_on && limit == 1800 && increment == 0)
    ||| (b.rapid is Some && rapid_on && limit == 600 && increment == 10)
    ||| (b.blitz is Some && limit == 300 && increment == 3)
    ||| (b.bullet is Some && bullet_on && limit == 120 && increment == 1)
}

impl Engine {
    /// Decide a challenge from the fetched online-bot list. A failed fetch
    /// or an empty eligible list re-queues the whole attempt. Otherwise
    /// one eligible bot is drawn, weighted towards lower blitz ratings,
    /// a time control is drawn from its modes against the settings, and
    /// the challenge goes out.
    pub fn challenge_random_bot(&mut self, bots: Option<Vec<Bot>>)
        requires
            old(self).wf(),
        ensures
            final(self).wf(),
            final(self).game_votes == old(self).game_votes,
            final(self).settings_votes == old(self).settings_votes,
            final(self).challenge_manager == old(self).challenge_manager,
            final(self).game_manager == old(self).game_manager,
            (match bots {
                None => final(self).internal_queue.events@ == old(self).internal_queue.events@.push(
                    Event::Action(Action::Lichess(LichessAction::Account(AccountAction::ChallengeRandomBot))),
                ) && final(self).effects@ == old(self).effects@,
                Some(list) => {
                    if (forall|i: int| 0 <= i < list@.len() ==> !spec_bot_ok(#[trigger] list@[i])) {
                        final(self).internal_queue.events@ == old(self).internal_queue.events@.push(
                            Event::Action(Action::Lichess(LichessAction::Account(AccountAction::ChallengeRandomBot))),
                        ) && final(self).effects@ == old(self).effects@
                    } else {
                        &&& final(self).internal_queue.events@ == old(self).internal_queue.events@
                        &&& final(self).effects@.len() == old(self).effects@.len() + 1
                        &&& is_prefix(old(self).effects@, final(self).effects@)
                        &&& (exists|i: int|
                            0 <= i < list@.len() && spec_bot_ok(#[trigger] list@[i]) && (final(self).effects@.last() matches Effect::Remote(
                                RemoteCall::CreateChallenge {
                                    username,
                                    limit,
                                    increment,
                                    bot_id,
                                    rating,
                                },
                            ) && username@ == list@[i].username@ && bot_id@ == list@[i].id@
                                && rating == spec_challenge_rating(
                                list@[i],
                                crate::settings::spec_enabled(
                                    old(self).settings_votes.bullet.view().len() as int,
                                    old(self).settings_votes.spec_voters().len() as int,
                                ),
                            ) && spec_clock_allowed(
                                list@[i],
                                crate::settings::spec_enabled(
                                    old(self).settings_votes.bullet.view().len() as int,
                                    old(self).settings_votes.spec_voters().len() as int,
                                ),
                                crate::settings::spec_enabled(
                                    old(self).settings_votes.rapid.view().len() as int,
                                    old(self).settings_votes.spec_voters().len() as int,
                                ),
                                crate::settings::spec_enabled(
                                    old(self).settings_votes.classical.view().len() as int,
                                    old(self).settings_votes.spec_voters().len() as int,
                                ),
                                limit,
                                increment,
                            )))
                    }
                },
            }),
    {
        let bots = match bots {
            Some(bots) => bots,
            None => {
                self.internal_queue.push_action(
                    LichessAction::challenge_random_bot().into_action(),
                );
                return ;
            },
        };
        let n = bots.len();
        let mut eligible: Vec<usize> = Vec::new();
        let mut i: usize = 0;
        while i < n
            invariant
                n == bots@.len(),
                i <= n,
                forall|j: int|
                    0 <= j < eligible@.len() ==> (#[trigger] eligible@[j]) < n && spec_bot_ok(
                        bots@[eligible@[j] as int],
                    ),
                forall|j: int| 0 <= j < i ==> spec_bot_ok(#[trigger] bots@[j]) ==> exists|m: int|
                    0 <= m < eligible@.len() && eligible@[m] == j,
            decreases n - i,
        {
            let ghost pre = eligible@;
            if bot_ok(&bots[i]) {
                eligible.push(i);
                proof {
                    assert(eligible@[eligible@.len() - 1] == i);
                    assert forall|j2: int|
                        0 <= j2 < i + 1 && spec_bot_ok(bots@[j2]) implies exists|m: int|
                        0 <= m < eligible@.len() && eligible@[m] == j2 by {
                        if j2 == i {
                            assert(eligible@[eligible@.len() - 1] == j2);
                        } else {
                            let m = choose|m: int| 0 <= m < pre.len() && pre[m] == j2;
                            assert(eligible@[m] == j2);
                        }
                    }
                }
            } else {
                proof {
                    assert forall|j2: int|
                        0 <= j2 < i + 1 && spec_bot_ok(bots@[j2]) implies exists|m: int|
                        0 <= m < eligible@.len() && eligible@[m] == j2 by {
                        assert(j2 != i);
                        let m = choose|m: int| 0 <= m < pre.len() && pre[m] == j2;
                        assert(eligible@[m] == j2);
                    }
                }
            }
            i = i + 1;
        }
        let okn = eligible.len();
        if okn == 0 {
            proof {
                assert forall|j: int| 0 <= j < bots@.len() implies !spec_bot_ok(
                    #[trigger] bots@[j],
                ) by {
                    if spec_bot_ok(bots@[j]) {
                        let m = choose|m: int| 0 <= m < eligible@.len() && eligible@[m] == j;
                    }
                }
            }
            self.internal_queue.push_action(LichessAction::challenge_random_bot().into_action());
            return ;
        }

        // Weight each eligible bot towards the low blitz ratings.
        let mut weights: Vec<u64> = Vec::new();
        let mut j: usize = 0;
        while j < okn
            invariant
                okn == eligible@.len(),
                n == bots@.len(),
                j <= okn,
                weights@.len() == j,
                forall|m: int|
                    0 <= m < eligible@.len() ==> (#[trigger] eligible@[m]) < n && spec_bot_ok(
                        bots@[eligible@[m] as int],
                    ),
            decreases okn - j,
        {
            let b = &bots[eligible[j]];
            let rating = match &b.blitz {
                Some(p) => p.rating,
                None => 1,
            };
            let w: u64 = 500000 / (rating as u64);
            weights.push(w);
            j = j + 1;
        }
        proof {
            lemma_cum_upper(weights@, weights@.len() as int);
            assert(weights@.len() * (u64::MAX as int) <= u128::MAX) by (nonlinear_arith)
                requires
                    weights@.len() <= u64::MAX,
            ;
        }
        let total = sum_weights(&weights);
        let pick: usize = if total > 0 {
            let draw = (random_u64() as u128) % total;
            pick_weighted(&weights, draw)
        } else {
            (random_u64() as usize) % okn
        };
        let bot = &bots[eligible[pick]];

        let settings = self.settings_votes.get_settings();

        let mut rating: u32 = match &bot.blitz {
            Some(p) => p.rating,
            None => 0,
        };
        let mut clocks: Vec<(u32, u32)> = Vec::new();
        if bot.classical.is_some() && settings.game_modes.classical {
            rating = match &bot.classical {
                Some(p) => p.rating,
                None => 0,
            };
            clocks.push((1800, 0));
        }
        if bot.rapid.is_some() && settings.game_modes.rapid {
            rating = match &bot.rapid {
                Some(p) => p.rating,
                None => 0,
            };
            clocks.push((600, 10));
        }
        if bot.blitz.is_some() {
            rating = match &bot.blitz {
                Some(p) => p.rating,
                None => 0,
            };
            clocks.push((300, 3));
        }
        if bot.bullet.is_some() && settings.game_modes.bullet {
            rating = match &bot.bullet {
                Some(p) => p.rating,
                None => 0,
            };
            clocks.push((120, 1));
        }
        if clocks.len() == 0 {
            proof {
                assert(false);
            }
            return ;
        }
        let clock_pick = (random_u64() as usize) % clocks.len();
        let (limit, increment) = clocks[clock_pick];
        proof {
            assert(spec_clock_allowed(
                bots@[eligible@[pick as int] as int],
                settings.game_modes.bullet,
                settings.game_modes.rapid,
                settings.game_modes.classical,
                limit,
                increment,
            ));
        }
        self.effects.push(
            Effect::Remote(
                RemoteCall::CreateChallenge {
                    username: bot.username.clone(),
                    limit,
                    increment,
                    bot_id: bot.id.clone(),
                    rating,
                },
            ),
        );
        proof {
            assert(self.effects@.subrange(0, old(self).effects@.len() as int) =~= old(self).effects@);
            assert(spec_bot_ok(bots@[eligible@[pick as int] as int]));
        }
    }

    /// The outcome of a create-challenge call: success announces the sent
    /// challenge; failure re-queues the whole attempt.
    pub fn process_challenge_create_outcome(&mut self, bot_id: String, rating: u32, ok: bool)
        ensures
            *final(self) == (Engine { internal_queue: final(self).internal_queue, ..*old(self) }),
            (if ok {
                final(self).internal_queue.events@ == old(self).internal_queue.events@.push(
                    Event::Notification(Notification::ChallengeSent { id: bot_id, rating }),
                )
            } else {
                final(self).internal_queue.events@ == old(self).internal_queue.events@.push(
                    Event::Action(Action::Lichess(LichessAction::Account(AccountAction::ChallengeRandomBot))),
                )
            }),
    {
        if ok {
            self.internal_queue.push_notification(
                Notification::ChallengeSent { id: bot_id, rating },
            );
        } else {
            self.internal_queue.push_action(LichessAction::challenge_random_bot().into_action());
        }
    }
}

/// The total weight, computed wide so it cannot overflow.
fn sum_weights(weights: &Vec<u64>) -> (r: u128)
    requires
        spec_cum(weights@, weights@.len() as int) <= u128::MAX,
    ensures
        r == spec_cum(weights@, weights@.len() as int),
{
    let n = weights.len();
    let mut acc: u128 = 0;
    let mut i: usize = 0;
    while i < n
        invariant
            n == weights@.len(),
            i <= n,
            acc == spec_cum(weights@, i as int),
            spec_cum(weights@, n as int) <= u128::MAX,
        decreases n - i,
    {
        proof {
            lemma_cum_bounds(weights@, i as int + 1, n as int);
        }
        acc = acc + weights[i] as u128;
        i = i + 1;
    }
    acc
}

/// Each weight fits a u64, so the total stays far below the wide
/// integer's ceiling.
proof fn lemma_cum_upper(weights: Seq<u64>, i: int)
    requires
        0 <= i <= weights.len(),
    ensures
        spec_cum(weights, i) <= i * (u64::MAX as int),
    decreases i,
{
    if i > 0 {
        lemma_cum_upper(weights, i - 1);
        assert((i - 1) * (u64::MAX as int) + (u64::MAX as int) == i * (u64::MAX as int))
            by (nonlinear_arith);
    }
}

} // verus!
