//! Games and the game manager: per-game state, authoritative board
//! replacement and incremental updates, clock bookkeeping, and the election
//! of the current game.

use vstd::prelude::*;

use crate::board::canon_of;
use crate::board::fen_canonical;
use crate::board::spec_replay;
use crate::board::spec_side_to_move;
use crate::board::spec_split_spaces;
use crate::board::spec_startpos;
use crate::board::spec_valid_uci;
use crate::board::split_spaces;
use crate::board::startpos_fen;
use crate::board::valid_uci;
use crate::board::views;
use crate::model::ClockSettings;
use crate::model::Color;
use crate::model::Player;
use crate::model::Speed;
use crate::model::Timer;
use crate::collections::StrMap;
use crate::events::Action;
use crate::events::Event;
use crate::events::EventQueue;
use crate::events::GameNotification;
use crate::events::Notification;
use crate::model::Clip;
use crate::text::str_eq;

verus! {

/// What a game-start event carries, as plain values.
#[derive(Clone, Debug)]
pub struct GameStartInfo {
    pub game_id: String,
    pub fen: String,
    pub color: Color,
    pub speed: Speed,
    pub seconds_left: Option<u64>,
    pub opponent_id: Option<String>,
    pub opponent_username: String,
    pub opponent_rating: Option<u32>,
    pub is_my_turn: bool,
    pub last_move: String,
}

/// One side of a full game payload.
#[derive(Clone, Debug)]
pub struct GamePlayer {
    pub id: String,
    pub name: String,
    pub rating: Option<u32>,
}

/// The clock record of a full game payload, in milliseconds.
#[derive(Clone, Copy, Debug)]
pub struct GameClock {
    pub initial: u64,
    pub increment: u64,
}

/// An incremental game-state payload.
#[derive(Clone, Debug)]
pub struct GameStateInfo {
    pub moves: String,
    pub wtime: u64,
    pub btime: u64,
    pub winc: u64,
    pub binc: u64,
    pub status: String,
    pub winner: Option<String>,
}

/// A full game payload: the authoritative description of a game.
#[derive(Clone, Debug)]
pub struct GameFullInfo {
    pub id: String,
    pub speed: Speed,
    pub initial_fen: Option<String>,
    pub clock: Option<GameClock>,
    pub white: GamePlayer,
    pub black: GamePlayer,
    pub state: Option<GameStateInfo>,
}

/// One chess match we take part in.
#[derive(Debug)]
pub struct Game {
    pub game_id: String,
    pub speed: Speed,
    pub timestamp: u64,
    pub clock_settings: Option<ClockSettings>,
    pub board: String,
    pub move_history: Vec<String>,
    pub last_move: Option<String>,
    pub is_our_turn: bool,
    pub us: Player,
    pub opponent: Player,
    pub timers_started: bool,
    pub finished: bool,
}

/// `b` carries the same game as `a`: every field equal, the move history
/// equal in content.
pub open spec fn game_like(a: Game, b: Game) -> bool {
    &&& b.game_id == a.game_id
    &&& b.speed == a.speed
    &&& b.timestamp == a.timestamp
    &&& b.clock_settings == a.clock_settings
    &&& b.board == a.board
    &&& b.move_history@ == a.move_history@
    &&& b.last_move == a.last_move
    &&& b.is_our_turn == a.is_our_turn
    &&& b.us == a.us
    &&& b.opponent == a.opponent
    &&& b.timers_started == a.timers_started
    &&& b.finished == a.finished
}

impl Clone for Game {
    fn clone(&self) -> (r: Game)
        ensures
            game_like(*self, r),
    {
        let mut history: Vec<String> = Vec::new();
        let n = self.move_history.len();
        let mut i: usize = 0;
        while i < n
            invariant
                n == self.move_history@.len(),
                i <= n,
                history@ == self.move_history@.subrange(0, i as int),
            decreases n - i,
        {
            history.push(self.move_history[i].clone());
            proof {
                assert(history@ =~= self.move_history@.subrange(0, i + 1));
            }
            i = i + 1;
        }
        proof {
            assert(history@ =~= self.move_history@);
        }
        Game {
            game_id: self.game_id.clone(),
            speed: self.speed,
            timestamp: self.timestamp,
            clock_settings: match &self.clock_settings {
                Some(c) => Some(*c),
                None => None,
            },
            board: self.board.clone(),
            move_history: history,
            last_move: match &self.last_move {
                Some(m) => Some(m.clone()),
                None => None,
            },
            is_our_turn: self.is_our_turn,
            us: self.us.clone(),
            opponent: self.opponent.clone(),
            timers_started: self.timers_started,
            finished: self.finished,
        }
    }
}

/// Multiply seconds into milliseconds, saturating.
pub open spec fn spec_millis_of_seconds(s: u64) -> u64 {
    if s > u64::MAX as int / 1000 {
        u64::MAX
    } else {
        (s * 1000) as u64
    }
}

fn millis_of_seconds(s: u64) -> (r: u64)
    ensures
        r == spec_millis_of_seconds(s),
{
    if s > u64::MAX / 1000 {
        u64::MAX
    } else {
        s * 1000
    }
}

/// Divide, then cap into a u32.
pub open spec fn spec_capped_u32(v: int) -> u32 {
    if v > u32::MAX {
        u32::MAX
    } else {
        v as u32
    }
}

fn capped_u32(v: u64) -> (r: u32)
    ensures
        r == spec_capped_u32(v as int),
{
    if v > u32::MAX as u64 {
        u32::MAX
    } else {
        v as u32
    }
}

/// What applying an incremental state payload does to a game: the relation
/// between the game before and after `process_game_state`.
pub open spec fn state_applied(old_g: Game, new_g: Game, state: GameStateInfo) -> bool {
    let moves = spec_split_spaces(state.moves@);
    &&& views(new_g.move_history@) == moves
    &&& (match new_g.last_move {
        Some(m) => moves.len() > 0 && spec_valid_uci(moves.last()) && m@ == moves.last(),
        None => moves.len() == 0 || !spec_valid_uci(moves.last()),
    })
    &&& new_g.timers_started == (moves.len() >= 2)
    &&& (match spec_replay(moves) {
        None => {
            &&& new_g.board == old_g.board
            &&& new_g.is_our_turn == old_g.is_our_turn
            &&& new_g.us == old_g.us
            &&& new_g.opponent == old_g.opponent
            &&& new_g.clock_settings == old_g.clock_settings
            &&& new_g.finished == old_g.finished
        },
        Some(f) => {
            &&& new_g.board@ == f
            &&& new_g.is_our_turn == (spec_side_to_move(f) == Some(old_g.us.color))
            &&& new_g.us.timer == Timer::spec_new(
                if old_g.us.color is Black {
                    state.btime
                } else {
                    state.wtime
                },
            )
            &&& new_g.opponent.timer == Timer::spec_new(
                if old_g.us.color is Black {
                    state.wtime
                } else {
                    state.btime
                },
            )
            &&& new_g.us.color == old_g.us.color
            &&& new_g.us.name == old_g.us.name
            &&& new_g.us.rating == old_g.us.rating
            &&& new_g.opponent.color == old_g.opponent.color
            &&& new_g.opponent.name == old_g.opponent.name
            &&& new_g.opponent.rating == old_g.opponent.rating
            &&& (match new_g.clock_settings {
                Some(cs) => old_g.clock_settings matches Some(old_cs) && cs.limit == old_cs.limit
                    && cs.increment == spec_capped_u32(state.binc as int / 10000),
                None => old_g.clock_settings is None,
            })
            &&& new_g.finished == (state.status@ != "started"@ || state.winner is Some)
        },
    })
    &&& new_g.game_id == old_g.game_id
    &&& new_g.speed == old_g.speed
    &&& new_g.timestamp == old_g.timestamp
    &&& new_g.us.color == old_g.us.color
    &&& new_g.opponent.color == old_g.opponent.color
}


/// What folding a game event's metadata into a game does: opponent name
/// always, rating and clock settings only where missing, the turn bit;
/// everything else (the finished flag aside) stands.
pub open spec fn info_applied(old_g: Game, new_g: Game, info: GameStartInfo) -> bool {
    &&& (match new_g.clock_settings {
        Some(cs) => (old_g.clock_settings matches Some(old_cs) && cs == old_cs) || (
        old_g.clock_settings is None && (info.seconds_left matches Some(s) && cs.limit
            == spec_capped_u32(s as int / 60)) && cs.increment == 0),
        None => old_g.clock_settings is None && info.seconds_left is None,
    })
    &&& (match info.opponent_id {
        Some(_) => new_g.opponent.name@ == info.opponent_id->Some_0@,
        None => new_g.opponent.name@ == info.opponent_username@,
    })
    &&& new_g.opponent.rating == (if old_g.opponent.rating is None {
        info.opponent_rating
    } else {
        old_g.opponent.rating
    })
    &&& new_g.is_our_turn == info.is_my_turn
    &&& new_g.opponent.color == old_g.opponent.color
    &&& new_g.opponent.timer == old_g.opponent.timer
    &&& new_g.us == old_g.us
    &&& new_g.game_id == old_g.game_id
    &&& new_g.speed == old_g.speed
    &&& new_g.timestamp == old_g.timestamp
    &&& new_g.board == old_g.board
    &&& new_g.move_history == old_g.move_history
    &&& new_g.last_move == old_g.last_move
    &&& new_g.timers_started == old_g.timers_started
}

/// What a game built from a game-start event looks like.
pub open spec fn start_built(r: Game, info: GameStartInfo, now: u64) -> bool {
    &&& r.game_id == info.game_id
    &&& r.speed == info.speed
    &&& r.timestamp == now
    &&& (match r.clock_settings {
        Some(cs) => info.seconds_left matches Some(s) && cs.limit == spec_capped_u32(s as int / 60)
            && cs.increment == 0,
        None => info.seconds_left is None,
    })
    &&& (match canon_of(info.fen@) {
        Some(f) => r.board@ == f,
        None => r.board@ == spec_startpos(),
    })
    &&& r.move_history@.len() == 0
    &&& (match r.last_move {
        Some(m) => info.last_move@.len() > 0 && spec_valid_uci(info.last_move@) && m@
            == info.last_move@,
        None => info.last_move@.len() == 0 || !spec_valid_uci(info.last_move@),
    })
    &&& r.is_our_turn == info.is_my_turn
    &&& r.us.color == info.color
    &&& r.us.name@ == "Twitch"@
    &&& r.us.rating is None
    &&& r.us.timer == Timer::spec_new(
        spec_millis_of_seconds(
            match info.seconds_left {
                Some(s) => s,
                None => 0,
            },
        ),
    )
    &&& r.opponent.color == info.color.spec_opposite()
    &&& (match info.opponent_id {
        Some(_) => r.opponent.name@ == info.opponent_id->Some_0@,
        None => r.opponent.name@ == info.opponent_username@,
    })
    &&& r.opponent.rating == info.opponent_rating
    &&& r.opponent.timer == r.us.timer
    &&& !r.timers_started
    &&& !r.finished
}

impl Game {
    /// Validity: timers well-formed, the players on opposite colors, and
    /// the board the replay of the move history wherever the replay
    /// succeeds (with no moves yet, the board is whatever the start event
    /// carried).
    pub open spec fn wf(&self) -> bool {
        &&& self.us.timer.wf()
        &&& self.opponent.timer.wf()
        &&& self.opponent.color == self.us.color.spec_opposite()
        &&& self.board_matches_history()
    }

    /// The stored board agrees with the replay of the move history.
    pub open spec fn board_matches_history(&self) -> bool {
        self.move_history@.len() > 0 ==> (match spec_replay(views(self.move_history@)) {
            Some(f) => self.board@ == f,
            None => true,
        })
    }

    /// Build a game from a game-start event. The opponent is named by id
    /// when one is present, else by username. The position text is read
    /// and reprinted; an unreadable one falls back to the starting
    /// position. A last move of the wrong shape is dropped.
    pub fn from_game_start(info: &GameStartInfo, now: u64) -> (r: Game)
        ensures
            start_built(r, *info, now),
            r.wf(),
    {
        let clock_settings = match &info.seconds_left {
            Some(s) => Some(ClockSettings { limit: capped_u32(*s / 60), increment: 0 }),
            None => None,
        };
        let seconds = match &info.seconds_left {
            Some(s) => *s,
            None => 0,
        };
        let timer = Timer::new(millis_of_seconds(seconds));
        let us = Player { name: String::from_str("Twitch"), color: info.color, rating: None, timer };
        let opponent_name = match &info.opponent_id {
            Some(id) => id.clone(),
            None => info.opponent_username.clone(),
        };
        let opponent = Player {
            name: opponent_name,
            color: info.color.opposite(),
            rating: match &info.opponent_rating {
                Some(x) => Some(*x),
                None => None,
            },
            timer,
        };
        let board = match fen_canonical(info.fen.as_str()) {
            Some(f) => f,
            None => startpos_fen(),
        };
        let last_move = if info.last_move.as_str().unicode_len() > 0 && valid_uci(
            info.last_move.as_str(),
        ) {
            Some(info.last_move.clone())
        } else {
            None
        };
        Game {
            game_id: info.game_id.clone(),
            speed: info.speed,
            timestamp: now,
            clock_settings,
            board,
            move_history: Vec::new(),
            last_move,
            is_our_turn: info.is_my_turn,
            us,
            opponent,
            timers_started: false,
            finished: false,
        }
    }

    /// Elapse wall time on the side to move, once both clocks run; a
    /// finished game's clocks stand still.
    pub open spec fn spec_elapsed(self, ms: u64) -> Game {
        if self.finished || !self.timers_started {
            self
        } else if self.is_our_turn {
            Game { us: Player { timer: self.us.timer.spec_elapse(ms), ..self.us }, ..self }
        } else {
            Game {
                opponent: Player { timer: self.opponent.timer.spec_elapse(ms), ..self.opponent },
                ..self
            }
        }
    }

    pub fn elapse_time(&mut self, milliseconds: u64)
        requires
            old(self).us.timer.wf(),
            old(self).opponent.timer.wf(),
        ensures
            *final(self) == old(self).spec_elapsed(milliseconds),
            final(self).us.timer.wf(),
            final(self).opponent.timer.wf(),
    {
        if self.finished || !self.timers_started {
            return ;
        }
        if self.is_our_turn {
            self.us.timer.elapse(milliseconds);
        } else {
            self.opponent.timer.elapse(milliseconds);
        }
    }

    /// Fold a game-start/finish event's metadata into the game: opponent
    /// name always, rating and clock settings only where missing, and the
    /// turn bit.
    pub fn process_game_info(&mut self, info: &GameStartInfo)
        ensures
            info_applied(*old(self), *final(self), *info),
            final(self).finished == old(self).finished,
    {
        if self.clock_settings.is_none() {
            self.clock_settings = match &info.seconds_left {
                Some(s) => Some(ClockSettings { limit: capped_u32(*s / 60), increment: 0 }),
                None => None,
            };
        }
        self.opponent.name = match &info.opponent_id {
            Some(id) => id.clone(),
            None => info.opponent_username.clone(),
        };
        if self.opponent.rating.is_none() {
            self.opponent.rating = match &info.opponent_rating {
                Some(x) => Some(*x),
                None => None,
            };
        }
        self.is_our_turn = info.is_my_turn;
    }

    /// Apply an incremental state payload: the move list is authoritative
    /// and the board is replayed from the start. A replay that fails (the
    /// game ran out under us) leaves the board and everything derived from
    /// it untouched; only the history, last move and timers-started bit
    /// move.
    pub fn process_game_state(&mut self, state: &GameStateInfo)
        requires
            old(self).us.timer.wf(),
            old(self).opponent.timer.wf(),
            old(self).opponent.color == old(self).us.color.spec_opposite(),
        ensures
            state_applied(*old(self), *final(self), *state),
            final(self).us.timer.wf(),
            final(self).opponent.timer.wf(),
            final(self).wf(),
    {
        let moves = split_spaces(state.moves.as_str());
        let n = moves.len();
        let last_move = if n > 0 && valid_uci(moves[n - 1].as_str()) {
            Some(moves[n - 1].clone())
        } else {
            None
        };
        proof {
            let mv = views(moves@);
            assert(mv.len() == moves@.len());
            if moves@.len() > 0 {
                assert(mv.last() == moves@[moves@.len() - 1]@);
            }
        }
        let board = crate::board::board_from_moves(&moves);
        self.move_history = moves;
        self.last_move = last_move;
        self.timers_started = n >= 2;

        let board = match board {
            Some(b) => b,
            None => {
                return ;
            },
        };
        self.board = board;
        let side = crate::board::side_to_move(self.board.as_str());
        self.is_our_turn = match (side, &self.us.color) {
            (Some(Color::White), Color::White) => true,
            (Some(Color::Black), Color::Black) => true,
            _ => false,
        };
        let our_is_black = match self.us.color {
            Color::Black => true,
            Color::White => false,
        };
        if our_is_black {
            self.us.timer = Timer::new(state.btime);
            self.opponent.timer = Timer::new(state.wtime);
        } else {
            self.us.timer = Timer::new(state.wtime);
            self.opponent.timer = Timer::new(state.btime);
        }
        match &self.clock_settings {
            Some(cs) => {
                self.clock_settings = Some(
                    ClockSettings { limit: cs.limit, increment: capped_u32(state.binc / 10000) },
                );
            },
            None => {},
        }
        let started = str_eq(state.status.as_str(), "started");
        if !started || self.winner_present(state) {
            self.finished = true;
        } else {
            self.finished = false;
        }
    }

    fn winner_present(&self, state: &GameStateInfo) -> (r: bool)
        ensures
            r == (state.winner is Some),
    {
        state.winner.is_some()
    }
}


/// The base board of a full payload: its initial position text, with
/// "startpos" and unreadable text both meaning the starting position.
pub open spec fn spec_base_board(initial_fen: Option<String>) -> Seq<char> {
    match initial_fen {
        None => spec_startpos(),
        Some(f) => if f@ == "startpos"@ {
            spec_startpos()
        } else {
            match canon_of(f@) {
                Some(c) => c,
                None => spec_startpos(),
            }
        },
    }
}

/// The board a full payload describes: the replay of its move list, or the
/// base board where there is no state or the replay fails.
pub open spec fn spec_full_board(full: GameFullInfo) -> Seq<char> {
    match full.state {
        None => spec_base_board(full.initial_fen),
        Some(st) => match spec_replay(spec_split_spaces(st.moves@)) {
            Some(f) => f,
            None => spec_base_board(full.initial_fen),
        },
    }
}

/// Which side of a full payload is ours: the one whose id is our id.
pub open spec fn spec_full_color(full: GameFullInfo, our_id: Seq<char>) -> Option<Color> {
    if full.white.id@ == our_id {
        Some(Color::White)
    } else if full.black.id@ == our_id {
        Some(Color::Black)
    } else {
        None
    }
}

/// What a game built from a full payload looks like, given our side.
pub open spec fn full_built(g: Game, full: GameFullInfo, our_id: Seq<char>, now: u64) -> bool {
    let color = spec_full_color(full, our_id)->Some_0;
    &&& g.game_id == full.id
    &&& g.speed == full.speed
    &&& g.timestamp == now
    &&& g.us.color == color
    &&& g.us.name@ == "Twitch"@
    &&& g.us.rating == (if color is Black {
        full.black.rating
    } else {
        full.white.rating
    })
    &&& g.opponent.color == color.spec_opposite()
    &&& g.opponent.name@ == (if color is Black {
        full.white.name@
    } else {
        full.black.name@
    })
    &&& g.opponent.rating == (if color is Black {
        full.white.rating
    } else {
        full.black.rating
    })
    &&& g.board@ == spec_full_board(full)
    &&& views(g.move_history@) == (match full.state {
        None => Seq::<Seq<char>>::empty(),
        Some(st) => spec_split_spaces(st.moves@),
    })
    &&& (match full.state {
        None => g.last_move is None,
        Some(st) => {
            let moves = spec_split_spaces(st.moves@);
            match g.last_move {
                Some(m) => moves.len() > 0 && spec_valid_uci(moves.last()) && m@
                    == moves.last(),
                None => moves.len() == 0 || !spec_valid_uci(moves.last()),
            }
        },
    })
    &&& (match full.state {
        Some(st) => g.us.timer == Timer::spec_new(
            if color is Black {
                st.btime
            } else {
                st.wtime
            },
        ) && g.opponent.timer == Timer::spec_new(
            if color is Black {
                st.wtime
            } else {
                st.btime
            },
        ),
        None => g.us.timer == Timer::spec_new(
            match full.clock {
                Some(c) => c.initial,
                None => 0u64,
            },
        ) && g.opponent.timer == g.us.timer,
    })
    &&& (match g.clock_settings {
        Some(cs) => full.clock matches Some(c) && cs.limit == spec_capped_u32(
            c.initial as int / 60000,
        ) && cs.increment == spec_capped_u32(c.increment as int / 1000),
        None => full.clock is None,
    })
    &&& g.is_our_turn == (spec_side_to_move(g.board@) == Some(color))
    &&& g.finished == (full.state matches Some(st) && (st.status@ != "started"@
        || st.winner is Some))
    &&& !g.timers_started
}

impl Game {
    /// Build a game from a full payload: the authoritative replacement.
    /// Our color comes from which side's id equals ours; a payload naming
    /// neither is refused. The board is the replay of the payload's move
    /// list over its initial position.
    #[verifier::rlimit(60)]
    pub fn from_game_full(our_id: &str, full: &GameFullInfo, now: u64) -> (r: Option<Game>)
        ensures
            r is Some <==> spec_full_color(*full, our_id@) is Some,
            r matches Some(g) ==> full_built(g, *full, our_id@, now) && g.wf(),
    {
        let color = if str_eq(full.white.id.as_str(), our_id) {
            Color::White
        } else if str_eq(full.black.id.as_str(), our_id) {
            Color::Black
        } else {
            return None;
        };
        let our_is_black = match color {
            Color::Black => true,
            Color::White => false,
        };

        let base_board = match &full.initial_fen {
            None => startpos_fen(),
            Some(f) => {
                if str_eq(f.as_str(), "startpos") {
                    startpos_fen()
                } else {
                    match fen_canonical(f.as_str()) {
                        Some(c) => c,
                        None => startpos_fen(),
                    }
                }
            },
        };

        let initial_millis = match &full.clock {
            Some(c) => c.initial,
            None => 0,
        };
        let base_timer = Timer::new(initial_millis);

        let mut board = base_board;
        let mut move_history: Vec<String> = Vec::new();
        let mut last_move: Option<String> = None;
        let mut us_timer = base_timer;
        let mut opp_timer = base_timer;
        let mut finished = false;

        match &full.state {
            None => {},
            Some(st) => {
                let moves = split_spaces(st.moves.as_str());
                let n = moves.len();
                last_move = if n > 0 && valid_uci(moves[n - 1].as_str()) {
                    Some(moves[n - 1].clone())
                } else {
                    None
                };
                proof {
                    let mv = views(moves@);
                    if moves@.len() > 0 {
                        assert(mv.last() == moves@[moves@.len() - 1]@);
                    }
                }
                match crate::board::board_from_moves(&moves) {
                    Some(b) => {
                        board = b;
                    },
                    None => {},
                }
                move_history = moves;
                if our_is_black {
                    us_timer = Timer::new(st.btime);
                    opp_timer = Timer::new(st.wtime);
                } else {
                    us_timer = Timer::new(st.wtime);
                    opp_timer = Timer::new(st.btime);
                }
                let started = str_eq(st.status.as_str(), "started");
                finished = !started || st.winner.is_some();
            },
        }

        let clock_settings = match &full.clock {
            Some(c) => Some(
                ClockSettings {
                    limit: capped_u32(c.initial / 60000),
                    increment: capped_u32(c.increment / 1000),
                },
            ),
            None => None,
        };

        let opponent_name = if our_is_black {
            full.white.name.clone()
        } else {
            full.black.name.clone()
        };
        let opponent_rating = if our_is_black {
            match &full.white.rating {
                Some(x) => Some(*x),
                None => None,
            }
        } else {
            match &full.black.rating {
                Some(x) => Some(*x),
                None => None,
            }
        };
        let our_rating = if our_is_black {
            match &full.black.rating {
                Some(x) => Some(*x),
                None => None,
            }
        } else {
            match &full.white.rating {
                Some(x) => Some(*x),
                None => None,
            }
        };

        let side = crate::board::side_to_move(board.as_str());
        let is_our_turn = match (side, &color) {
            (Some(Color::White), Color::White) => true,
            (Some(Color::Black), Color::Black) => true,
            _ => false,
        };

        let us = Player { name: String::from_str("Twitch"), color, rating: our_rating, timer: us_timer };
        let opponent = Player {
            name: opponent_name,
            color: color.opposite(),
            rating: opponent_rating,
            timer: opp_timer,
        };

        let built = Game {
            game_id: full.id.clone(),
            speed: full.speed,
            timestamp: now,
            clock_settings,
            board,
            move_history,
            last_move,
            is_our_turn,
            us,
            opponent,
            timers_started: false,
            finished,
        };
        proof {
            if full.state is None {
                assert(views(built.move_history@) =~= Seq::<Seq<char>>::empty());
            }
            assert(full_built(built, *full, our_id@, now));
        }
        Some(built)
    }
}


/// The name the server uses for a color.
pub open spec fn spec_color_name(c: Color) -> Seq<char> {
    match c {
        Color::White => "white"@,
        Color::Black => "black"@,
    }
}

/// The clip a board update plays: a capture when the destination of the
/// last move held a piece on the previous board.
pub open spec fn spec_move_clip(old_board: Seq<char>, last_move: Seq<char>) -> Clip {
    if crate::board::spec_piece_on(
        old_board,
        crate::board::spec_uci_dest(last_move).0,
        crate::board::spec_uci_dest(last_move).1,
    ) is Some {
        Clip::Capture
    } else {
        Clip::Move
    }
}

/// The clip a finished game plays: win or loss by the reported winner
/// against our color, a draw without one.
pub open spec fn spec_end_clip(winner: Option<String>, us: Color) -> Clip {
    match winner {
        Some(w) => if w@ == spec_color_name(us) {
            Clip::Win
        } else {
            Clip::Loss
        },
        None => Clip::Draw,
    }
}

/// What a board update appends to the internal queue.
pub open spec fn spec_update_emits(
    appended: Seq<Event>,
    old_g: Game,
    new_g: Game,
    state: GameStateInfo,
    is_current: bool,
    gid: Seq<char>,
) -> bool {
    let n1: int = if is_current && new_g.last_move is Some {
        1
    } else {
        0
    };
    &&& (n1 == 1 ==> appended.len() >= 1 && appended[0] == Event::Action(
        Action::PlayClip(spec_move_clip(old_g.board@, new_g.last_move->Some_0@)),
    ))
    &&& (if new_g.finished {
        if is_current {
            &&& appended.len() == n1 + 2
            &&& appended[n1] == Event::Action(Action::PlayClip(spec_end_clip(state.winner, new_g.us.color)))
            &&& appended[n1 + 1] == Event::Notification(Notification::Game(GameNotification::GameFinished))
        } else {
            appended.len() == n1
        }
    } else {
        let moved: int = if new_g.board@ != old_g.board@ {
            1
        } else {
            0
        };
        &&& appended.len() == n1 + 1 + moved
        &&& (if new_g.is_our_turn {
            appended[n1] matches Event::Notification(Notification::Game(GameNotification::OurTurn { game_id })) && game_id@ == gid
        } else {
            appended[n1] matches Event::Notification(Notification::Game(GameNotification::TheirTurn { game_id })) && game_id@ == gid
        })
        &&& (moved == 1 ==> (appended[n1 + 1] matches Event::Notification(
            Notification::Game(GameNotification::PlayerMoved { game_id, was_us }),
        ) && game_id@ == gid && was_us == !new_g.is_our_turn))
    })
}

/// Every known game, and the election of the current one.
#[derive(Debug)]
pub struct GameManager {
    pub our_id: String,
    pub games: StrMap<Game>,
    pub last_finished_game: Option<Game>,
    pub current_game_id: Option<String>,
}

impl GameManager {
    /// Validity: distinct game ids, each game well-formed and stored under
    /// its own id, and the current id naming a stored game.
    pub open spec fn wf(&self) -> bool {
        &&& self.games.wf()
        &&& forall|i: int|
            0 <= i < self.games.entries().len() ==> (#[trigger] self.games.entries()[i]).1.wf()
                && self.games.entries()[i].1.game_id@ == self.games.entries()[i].0@
        &&& (self.current_game_id matches Some(id) ==> self.games.spec_contains(id@))
    }

    /// The current id, when set, names a stored, unfinished game.
    pub open spec fn current_ok(&self) -> bool {
        self.current_game_id matches Some(id) ==> (self.games.spec_get(id@) matches Some(g)
            && !g.finished)
    }

    /// The game under the current id, where one is set.
    pub open spec fn spec_current(&self) -> Option<Game> {
        match self.current_game_id {
            Some(id) => self.games.spec_get(id@),
            None => None,
        }
    }

    pub fn new(our_id: String) -> (r: GameManager)
        ensures
            r.our_id == our_id,
            r.games.entries().len() == 0,
            r.last_finished_game is None,
            r.current_game_id is None,
            r.wf(),
            r.current_ok(),
    {
        GameManager {
            our_id,
            games: StrMap::new(),
            last_finished_game: None,
            current_game_id: None,
        }
    }

    pub fn game(&self, game_id: &str) -> (r: Option<&Game>)
        requires
            self.wf(),
        ensures
            (match r {
                Some(g) => self.games.spec_get(game_id@) == Some(*g),
                None => self.games.spec_get(game_id@) is None,
            }),
    {
        self.games.get(game_id)
    }

    pub fn last_game(&self) -> (r: Option<&Game>)
        ensures
            (match r {
                Some(g) => self.last_finished_game == Some(*g),
                None => self.last_finished_game is None,
            }),
    {
        self.last_finished_game.as_ref()
    }

    /// The current game. A finished game found here is archived as the
    /// last finished game, removed, and the current id cleared; afterwards
    /// the current id, if still set, names an unfinished game.
    pub fn current_game(&mut self) -> (r: Option<&Game>)
        requires
            old(self).wf(),
        ensures
            final(self).wf(),
            final(self).current_ok(),
            final(self).our_id == old(self).our_id,
            (match old(self).current_game_id {
                None => *final(self) == *old(self) && r is None,
                Some(id) => {
                    let g = old(self).games.spec_get(id@)->Some_0;
                    if !g.finished {
                        &&& *final(self) == *old(self)
                        &&& (r matches Some(gr) && *gr == g)
                    } else {
                        &&& r is None
                        &&& final(self).current_game_id is None
                        &&& (forall|k: Seq<char>|
                            final(self).games.spec_get(k) == (if k == id@ {
                                None
                            } else {
                                old(self).games.spec_get(k)
                            }))
                        &&& (final(self).last_finished_game matches Some(a) && game_like(g, a))
                    }
                },
            }),
    {
        let id = match &self.current_game_id {
            None => {
                return None;
            },
            Some(id) => id.clone(),
        };
        let finished = match self.games.get(id.as_str()) {
            Some(g) => g.finished,
            None => {
                return None;
            },
        };
        if finished {
            let archived = match self.games.get(id.as_str()) {
                Some(g) => g.clone(),
                None => {
                    return None;
                },
            };
            self.games.remove(id.as_str());
            self.last_finished_game = Some(archived);
            self.current_game_id = None;
            None
        } else {
            self.games.get(id.as_str())
        }
    }

    /// The id of the oldest known game.
    pub fn oldest_game_id(&self) -> (r: Option<String>)
        requires
            self.wf(),
        ensures
            r is None <==> self.games.entries().len() == 0,
            (r matches Some(id) ==> self.games.spec_contains(id@) && (forall|j: int|
                0 <= j < self.games.entries().len()
                    ==> (#[trigger] self.games.entries()[j]).1.timestamp
                    >= self.games.spec_get(id@)->Some_0.timestamp)),
    {
        let entries = self.games.as_vec();
        let n = entries.len();
        if n == 0 {
            return None;
        }
        let mut best: usize = 0;
        let mut j: usize = 1;
        while j < n
            invariant
                n == entries@.len(),
                best < n,
                j <= n,
                forall|k: int|
                    0 <= k < j ==> (#[trigger] entries@[k]).1.timestamp
                        >= entries@[best as int].1.timestamp,
            decreases n - j,
        {
            if entries[j].1.timestamp < entries[best].1.timestamp {
                best = j;
            }
            j = j + 1;
        }
        proof {
            self.games.lemma_get_at(best as int);
        }
        Some(entries[best].0.clone())
    }

    /// Elapse wall time on every game's running clock.
    pub fn advance_clocks(&mut self, milliseconds: u64)
        requires
            old(self).wf(),
        ensures
            final(self).wf(),
            old(self).current_ok() ==> final(self).current_ok(),
            clocks_applied(*old(self), *final(self), milliseconds),
    {
        let ghost old_self = *self;
        let n = self.games.pairs.len();
        let mut i: usize = 0;
        while i < n
            invariant
                n == self.games.entries().len(),
                n == old_self.games.entries().len(),
                i <= n,
                self.our_id == old_self.our_id,
                self.current_game_id == old_self.current_game_id,
                self.last_finished_game == old_self.last_finished_game,
                forall|k: int|
                    i <= k < n ==> (#[trigger] self.games.entries()[k]) == old_self.games.entries()[k],
                forall|k: int|
                    0 <= k < i ==> (#[trigger] self.games.entries()[k]).0
                        == old_self.games.entries()[k].0 && self.games.entries()[k].1
                        == old_self.games.entries()[k].1.spec_elapsed(milliseconds),
                old_self.wf(),
            decreases n - i,
        {
            proof {
                assert(old_self.games.entries()[i as int].1.wf());
            }
            let slot = &mut self.games.pairs[i];
            slot.1.elapse_time(milliseconds);
            i = i + 1;
        }
        proof {
            assert forall|a: int, b: int|
                0 <= a < b < self.games.entries().len() implies self.games.entries()[a].0@
                != self.games.entries()[b].0@ by {
                assert(self.games.entries()[a].0 == old_self.games.entries()[a].0);
                assert(self.games.entries()[b].0 == old_self.games.entries()[b].0);
            }
            assert forall|i2: int|
                0 <= i2 < self.games.entries().len() implies (#[trigger] self.games.entries()[
                i2]).1.wf() && self.games.entries()[i2].1.game_id@ == self.games.entries()[i2].0@
                by {
                let og = old_self.games.entries()[i2].1;
                assert(og.wf());
                assert(self.games.entries()[i2].1 == og.spec_elapsed(milliseconds));
                crate::model::lemma_timer_elapse_monotone(og.us.timer, milliseconds);
                crate::model::lemma_timer_elapse_monotone(og.opponent.timer, milliseconds);
            }
            if old_self.current_game_id is Some {
                let id = old_self.current_game_id->Some_0;
                if old_self.games.spec_contains(id@) {
                    let j = choose|j: int|
                        0 <= j < old_self.games.entries().len() && old_self.games.entries()[j].0@
                            == id@;
                    old_self.games.lemma_get_at(j);
                    self.games.lemma_get_at(j);
                    assert(self.games.spec_contains(id@)) by {
                        assert(self.games.entries()[j].0@ == id@);
                    }
                }
            }
        }
    }
}


impl GameManager {
    /// Adopt `game_id` as the current game, announcing it — but never
    /// pre-empting: while an unfinished current game stands this is a
    /// no-op. A known finished target is dropped instead (clearing the
    /// current id if it pointed there) and a new game is arranged. An
    /// unknown id changes nothing.
    pub fn switch_game(&mut self, game_id: &str, queue: &mut EventQueue)
        requires
            old(self).wf(),
        ensures
            final(self).wf(),
            final(self).our_id == old(self).our_id,
            final(self).current_ok() || (old(self).current_game_id == final(self).current_game_id
                && !old(self).current_ok()),
            switch_applied(
                *old(self),
                *final(self),
                game_id@,
                old(queue).events@,
                final(queue).events@,
            ),
    {
        let ghost old_self = *self;
        let blocked = match &self.current_game_id {
            Some(c) => match self.games.get(c.as_str()) {
                Some(g) => !g.finished,
                None => false,
            },
            None => false,
        };
        if blocked {
            return ;
        }
        let g_finished = match self.games.get(game_id) {
            None => {
                return ;
            },
            Some(g) => g.finished,
        };
        if !g_finished {
            self.current_game_id = Some(String::from_str(game_id));
            queue.push_notification(Notification::Game(GameNotification::NewCurrentGame));
            proof {
                let j = choose|j: int|
                    0 <= j < self.games.entries().len() && self.games.entries()[j].0@ == game_id@;
                self.games.lemma_get_at(j);
            }
        } else {
            let clear = match &self.current_game_id {
                Some(c) => str_eq(c.as_str(), game_id),
                None => false,
            };
            if clear {
                self.current_game_id = None;
            }
            self.games.remove(game_id);
            queue.push_action(Action::FindNewGame);
            proof {
                if self.current_game_id is Some {
                    let c = self.current_game_id->Some_0;
                    assert(old_self.games.spec_contains(c@));
                    let j = choose|j: int|
                        0 <= j < old_self.games.entries().len() && old_self.games.entries()[j].0@
                            == c@;
                    old_self.games.lemma_get_at(j);
                    assert(c@ != game_id@);
                    assert(self.games.spec_get(c@) == old_self.games.spec_get(c@));
                    assert(self.games.spec_contains(c@));
                }
            }
        }
    }

    /// Record a started game, unless a current game is already elected.
    /// A fresh id is stored and announced; an id already known is dropped
    /// without overwriting the stored game.
    pub fn process_game_start(&mut self, info: &GameStartInfo, now: u64, queue: &mut EventQueue)
        requires
            old(self).wf(),
        ensures
            final(self).wf(),
            old(self).current_ok() ==> final(self).current_ok(),
            game_start_applied(
                *old(self),
                *final(self),
                *info,
                now,
                old(queue).events@,
                final(queue).events@,
            ),
    {
        if self.current_game_id.is_some() {
            return ;
        }
        if self.games.contains(info.game_id.as_str()) {
            return ;
        }
        let game = Game::from_game_start(info, now);
        self.games.insert(info.game_id.clone(), game);
        queue.push_notification(
            Notification::Game(GameNotification::GameStarted { game_id: info.game_id.clone() }),
        );
    }

    /// Mark a game finished, folding in the event's metadata. The entry
    /// stays; whoever next touches the current game archives it.
    pub fn process_game_finish(&mut self, info: &GameStartInfo)
        requires
            old(self).wf(),
        ensures
            final(self).wf(),
            game_finish_applied(*old(self), *final(self), *info),
    {
        let ghost old_self = *self;
        let idx = match self.games.position(info.game_id.as_str()) {
            Some(i) => i,
            None => {
                return ;
            },
        };
        proof {
            old_self.games.lemma_get_at(idx as int);
        }
        let slot = &mut self.games.pairs[idx];
        slot.1.process_game_info(info);
        let ghost informed = slot.1;
        slot.1.finished = true;
        proof {
            assert(self.games.entries()[idx as int].1 == (Game { finished: true, ..informed }));
            let ii = idx as int;
            assert(self.games.entries() =~= old_self.games.entries().update(
                ii,
                (old_self.games.entries()[ii].0, self.games.entries()[ii].1),
            ));
            assert forall|a: int, b: int|
                0 <= a < b < self.games.entries().len() implies self.games.entries()[a].0@
                != self.games.entries()[b].0@ by {
                assert(self.games.entries()[a].0 == old_self.games.entries()[a].0);
                assert(self.games.entries()[b].0 == old_self.games.entries()[b].0);
            }
            self.games.lemma_get_at(ii);
            assert forall|k: Seq<char>|
                k != info.game_id@ implies final(self).games.spec_get(k) == old_self.games.spec_get(
                k,
            ) by {
                if old_self.games.spec_contains(k) {
                    let j = choose|j: int|
                        0 <= j < old_self.games.entries().len() && old_self.games.entries()[j].0@
                            == k;
                    old_self.games.lemma_get_at(j);
                    assert(j != ii);
                    assert(self.games.entries()[j] == old_self.games.entries()[j]);
                    self.games.lemma_get_at(j);
                } else {
                    assert(!self.games.spec_contains(k)) by {
                        if self.games.spec_contains(k) {
                            let j = choose|j: int|
                                0 <= j < self.games.entries().len() && self.games.entries()[j].0@
                                    == k;
                            assert(old_self.games.entries()[j].0@ == k);
                        }
                    }
                }
            }
            if old_self.current_game_id is Some {
                let c = old_self.current_game_id->Some_0;
                let j = choose|j: int|
                    0 <= j < old_self.games.entries().len() && old_self.games.entries()[j].0@
                        == c@;
                assert(self.games.entries()[j].0@ == c@);
            }
        }
    }

    /// Replace a known game with the authoritative full payload. A payload
    /// for an unknown game, or one naming neither player as us, changes
    /// nothing. A finished replacement clears the current id where it
    /// matches; otherwise the side to move is announced.
    pub fn process_game_full(&mut self, full: &GameFullInfo, now: u64, queue: &mut EventQueue)
        requires
            old(self).wf(),
        ensures
            final(self).wf(),
            final(self).our_id == old(self).our_id,
            old(self).current_ok() ==> final(self).current_ok(),
            game_full_applied(
                *old(self),
                *final(self),
                *full,
                now,
                old(queue).events@,
                final(queue).events@,
            ),
    {
        let ghost old_self = *self;
        if !self.games.contains(full.id.as_str()) {
            return ;
        }
        let replacement = {
            let our_id = &self.our_id;
            Game::from_game_full(our_id.as_str(), full, now)
        };
        let game = match replacement {
            Some(g) => g,
            None => {
                return ;
            },
        };
        let game_finished = game.finished;
        let game_our_turn = game.is_our_turn;
        self.games.insert(full.id.clone(), game);
        proof {
            assert(self.games.spec_get(full.id@) is Some);
        }
        if game_finished {
            let clear = match &self.current_game_id {
                Some(c) => str_eq(c.as_str(), full.id.as_str()),
                None => false,
            };
            if clear {
                self.current_game_id = None;
            }
            proof {
                lemma_current_still_there(old_self, *self, full.id@);
            }
            return ;
        }
        if game_our_turn {
            queue.push_notification(
                Notification::Game(GameNotification::OurTurn { game_id: full.id.clone() }),
            );
        } else {
            queue.push_notification(
                Notification::Game(GameNotification::TheirTurn { game_id: full.id.clone() }),
            );
        }
        proof {
            lemma_current_still_there(old_self, *self, full.id@);
            assert(queue.events@.subrange(0, old(queue).events@.len() as int) =~= old(
                queue,
            ).events@);
        }
    }

    /// Read `text` as a move on the current game's board.
    pub fn convert_move(&mut self, text: &str) -> (r: Option<String>)
        requires
            old(self).wf(),
        ensures
            final(self).wf(),
            final(self).current_ok(),
            current_pruned(*old(self), *final(self)),
            (match r {
                Some(m) => final(self).spec_current() matches Some(g) && crate::board::uci_of(
                    g.board@,
                    text@,
                ) == Some(m@),
                None => final(self).spec_current() is None || crate::board::uci_of(
                    final(self).spec_current()->Some_0.board@,
                    text@,
                ) is None,
            }),
    {
        let ghost old_self = *self;
        let board = match self.current_game() {
            None => {
                proof {
                    assert(current_pruned(old_self, *self));
                }
                return None;
            },
            Some(g) => g.board.clone(),
        };
        proof {
            assert(current_pruned(old_self, *self));
        }
        crate::board::convert_uci_fen(board.as_str(), text)
    }
}


/// What elapsing wall time does: each stored game's running clock runs
/// down by `spec_elapsed`, keys and order untouched; the election and the
/// archive stand.
pub open spec fn clocks_applied(old_m: GameManager, new_m: GameManager, milliseconds: u64) -> bool {
    &&& new_m.games.entries().len() == old_m.games.entries().len()
    &&& (forall|i: int|
        0 <= i < old_m.games.entries().len() ==> (#[trigger] new_m.games.entries()[i]).0
            == old_m.games.entries()[i].0 && new_m.games.entries()[i].1
            == old_m.games.entries()[i].1.spec_elapsed(milliseconds))
    &&& new_m.current_game_id == old_m.current_game_id
    &&& new_m.last_finished_game == old_m.last_finished_game
    &&& new_m.our_id == old_m.our_id
}

/// What an incremental state payload does to the manager: the named game
/// is updated per `state_applied`; for the current game the right clips
/// and notifications go out and a finished current game is archived. An
/// unknown id changes nothing.
pub open spec fn game_update_applied(
    old_m: GameManager,
    new_m: GameManager,
    game_id: Seq<char>,
    state: GameStateInfo,
    old_q: Seq<Event>,
    new_q: Seq<Event>,
) -> bool {
    (if !old_m.games.spec_contains(game_id) {
        new_m == old_m && new_q == old_q
    } else {
        let old_g = old_m.games.spec_get(game_id)->Some_0;
        let is_current = old_m.current_game_id matches Some(c) && c@ == game_id;
        exists|new_g: Game|
            {
                &&& #[trigger] state_applied(old_g, new_g, state)
                &&& (forall|k: Seq<char>|
                    k != game_id ==> new_m.games.spec_get(k) == old_m.games.spec_get(k))
                &&& (if new_g.finished && is_current {
                    &&& new_m.games.spec_get(game_id) is None
                    &&& new_m.current_game_id is None
                    &&& (new_m.last_finished_game matches Some(a) && game_like(
                        new_g,
                        a,
                    ))
                } else {
                    &&& new_m.games.spec_get(game_id) == Some(new_g)
                    &&& new_m.current_game_id == old_m.current_game_id
                    &&& new_m.last_finished_game == old_m.last_finished_game
                })
                &&& new_q.len() >= old_q.len()
                &&& new_q.subrange(0, old_q.len() as int)
                    == old_q
                &&& spec_update_emits(
                    new_q.subrange(
                        old_q.len() as int,
                        new_q.len() as int,
                    ),
                    old_g,
                    new_g,
                    state,
                    is_current,
                    game_id,
                )
            }
    })
}

/// What an authoritative full payload does: a known game whose payload
/// names us is rebuilt from the payload and stored under its id; a
/// finished replacement clears a matching current id, an unfinished one
/// announces the side to move. Anything else changes nothing.
pub open spec fn game_full_applied(
    old_m: GameManager,
    new_m: GameManager,
    full: GameFullInfo,
    now: u64,
    old_q: Seq<Event>,
    new_q: Seq<Event>,
) -> bool {
    &&& (if !old_m.games.spec_contains(full.id@) || spec_full_color(
        full,
        old_m.our_id@,
    ) is None {
        new_m == old_m && new_q == old_q
    } else {
        &&& (new_m.games.spec_get(full.id@) matches Some(g) && g.game_id == full.id
            && g.timestamp == now && g.board@ == spec_full_board(full) && g.us.color
            == spec_full_color(full, old_m.our_id@)->Some_0 && g.finished == (
        full.state matches Some(st) && (st.status@ != "started"@ || st.winner is Some)))
        &&& (forall|k: Seq<char>|
            k != full.id@ ==> new_m.games.spec_get(k) == old_m.games.spec_get(
                k,
            ))
        &&& new_m.last_finished_game == old_m.last_finished_game
        &&& ({
            let g = new_m.games.spec_get(full.id@)->Some_0;
            if g.finished {
                &&& new_m.current_game_id == (
                if old_m.current_game_id matches Some(c) && c@ == full.id@ {
                    None
                } else {
                    old_m.current_game_id
                })
                &&& new_q == old_q
            } else {
                &&& new_m.current_game_id == old_m.current_game_id
                &&& new_q.len() == old_q.len() + 1
                &&& new_q.subrange(0, old_q.len() as int)
                    == old_q
                &&& (if g.is_our_turn {
                    new_q.last() matches Event::Notification(
                        Notification::Game(GameNotification::OurTurn { game_id }),
                    ) && game_id@ == full.id@
                } else {
                    new_q.last() matches Event::Notification(
                        Notification::Game(GameNotification::TheirTurn { game_id }),
                    ) && game_id@ == full.id@
                })
            }
        })
    })
    &&& (old_m.games.spec_contains(full.id@) && spec_full_color(full, old_m.our_id@) is Some
        ==> (new_m.games.spec_get(full.id@) matches Some(g) && full_built(
        g,
        full,
        old_m.our_id@,
        now,
    )))
}

/// What marking a game finished does: the named game absorbs the event's
/// metadata and its finished flag is set; the entry stays in place, the
/// election untouched, everything else as it was. An unknown id changes
/// nothing.
pub open spec fn game_finish_applied(old_m: GameManager, new_m: GameManager, info: GameStartInfo) -> bool {
    &&& new_m.our_id == old_m.our_id
    &&& new_m.current_game_id == old_m.current_game_id
    &&& new_m.last_finished_game == old_m.last_finished_game
    &&& (if old_m.games.spec_contains(info.game_id@) {
        &&& (forall|k: Seq<char>|
            k != info.game_id@ ==> new_m.games.spec_get(k) == old_m.games.spec_get(k))
        &&& (old_m.games.spec_get(info.game_id@) matches Some(old_g) && exists|g2: Game|
            #[trigger] info_applied(old_g, g2, info) && new_m.games.spec_get(info.game_id@)
                == Some(Game { finished: true, ..g2 }))
    } else {
        new_m == old_m
    })
}

/// What recording a started game does: nothing while a current game is
/// elected or the id is already known (no overwrite during start); else
/// the built game is stored under its id and announced.
pub open spec fn game_start_applied(
    old_m: GameManager,
    new_m: GameManager,
    info: GameStartInfo,
    now: u64,
    old_q: Seq<Event>,
    new_q: Seq<Event>,
) -> bool {
    if old_m.current_game_id is Some || old_m.games.spec_contains(info.game_id@) {
        new_m == old_m && new_q == old_q
    } else {
        &&& new_m.current_game_id is None
        &&& new_m.last_finished_game == old_m.last_finished_game
        &&& new_m.our_id == old_m.our_id
        &&& (forall|k: Seq<char>|
            k != info.game_id@ ==> new_m.games.spec_get(k) == old_m.games.spec_get(k))
        &&& (new_m.games.spec_get(info.game_id@) matches Some(g) && start_built(g, info, now))
        &&& new_q == old_q.push(
            Event::Notification(
                Notification::Game(GameNotification::GameStarted { game_id: info.game_id }),
            ),
        )
    }
}

/// What switching to `game_id` does. An unfinished current game is never
/// pre-empted: the switch is then a no-op. Otherwise a known unfinished
/// target is adopted and announced; a known finished one is dropped (the
/// current id cleared where it pointed there) and a new game arranged; an
/// unknown id changes nothing.
pub open spec fn switch_applied(
    old_m: GameManager,
    new_m: GameManager,
    game_id: Seq<char>,
    old_q: Seq<Event>,
    new_q: Seq<Event>,
) -> bool {
    if old_m.current_game_id matches Some(c) && (old_m.games.spec_get(c@) matches Some(cg)
        && !cg.finished) {
        new_m == old_m && new_q == old_q
    } else {
        match old_m.games.spec_get(game_id) {
            None => new_m == old_m && new_q == old_q,
            Some(g) => if !g.finished {
                &&& new_m.games == old_m.games
                &&& new_m.last_finished_game == old_m.last_finished_game
                &&& new_m.our_id == old_m.our_id
                &&& (new_m.current_game_id matches Some(c2) && c2@ == game_id)
                &&& new_q == old_q.push(
                    Event::Notification(Notification::Game(GameNotification::NewCurrentGame)),
                )
            } else {
                &&& (forall|k: Seq<char>|
                    new_m.games.spec_get(k) == (if k == game_id {
                        None::<Game>
                    } else {
                        old_m.games.spec_get(k)
                    }))
                &&& new_m.last_finished_game == old_m.last_finished_game
                &&& new_m.our_id == old_m.our_id
                &&& new_m.current_game_id == (
                if old_m.current_game_id matches Some(c3) && c3@ == game_id {
                    None::<String>
                } else {
                    old_m.current_game_id
                })
                &&& new_q == old_q.push(Event::Action(Action::FindNewGame))
            },
        }
    }
}

/// What touching the current game may do to the manager: nothing, or the
/// archival of a finished current game.
pub open spec fn current_pruned(old_m: GameManager, new_m: GameManager) -> bool {
    match old_m.current_game_id {
        None => new_m == old_m,
        Some(id) => {
            let g = old_m.games.spec_get(id@)->Some_0;
            if !g.finished {
                new_m == old_m
            } else {
                &&& new_m.current_game_id is None
                &&& (forall|k: Seq<char>|
                    new_m.games.spec_get(k) == (if k == id@ {
                        None::<Game>
                    } else {
                        old_m.games.spec_get(k)
                    }))
                &&& (new_m.last_finished_game matches Some(a) && game_like(g, a))
                &&& new_m.our_id == old_m.our_id
            }
        },
    }
}

/// After an update that keeps or replaces entries under their keys, a
/// current id that named an entry still names one.
proof fn lemma_current_still_there(old_m: GameManager, new_m: GameManager, touched: Seq<char>)
    requires
        old_m.wf(),
        new_m.games.wf(),
        new_m.current_game_id == old_m.current_game_id || new_m.current_game_id is None,
        forall|k: Seq<char>|
            k != touched ==> new_m.games.spec_get(k) == old_m.games.spec_get(k),
        new_m.games.spec_contains(touched) == old_m.games.spec_contains(touched),
    ensures
        (new_m.current_game_id matches Some(id) ==> new_m.games.spec_contains(id@)),
{
    if new_m.current_game_id is Some {
        let id = new_m.current_game_id->Some_0;
        assert(old_m.games.spec_contains(id@));
        if id@ != touched {
            assert(new_m.games.spec_get(id@) == old_m.games.spec_get(id@));
            assert(old_m.games.spec_get(id@) is Some);
            if !new_m.games.spec_contains(id@) {
                assert(new_m.games.spec_get(id@) is None);
            }
        }
    }
}


impl GameManager {
    /// Apply an incremental state payload to the game it names: replay the
    /// authoritative move list, play the right clip for the current game,
    /// archive a finished current game, and announce the side to move and
    /// any new move. An unknown id changes nothing.
    pub fn process_game_update(&mut self, game_id: &str, state: &GameStateInfo, queue: &mut EventQueue)
        requires
            old(self).wf(),
        ensures
            final(self).wf(),
            final(self).our_id == old(self).our_id,
            old(self).current_ok() ==> final(self).current_ok(),
            game_update_applied(
                *old(self),
                *final(self),
                game_id@,
                *state,
                old(queue).events@,
                final(queue).events@,
            ),
    {
        let ghost old_self = *self;
        let ghost old_queue = *queue;
        let idx = match self.games.position(game_id) {
            Some(i) => i,
            None => {
                return ;
            },
        };
        proof {
            old_self.games.lemma_get_at(idx as int);
        }
        let is_current = match &self.current_game_id {
            Some(c) => str_eq(c.as_str(), game_id),
            None => false,
        };
        let prev_board = self.games.pairs[idx].1.board.clone();
        let slot = &mut self.games.pairs[idx];
        slot.1.process_game_state(state);
        proof {
            let ii = idx as int;
            assert(self.games.entries() =~= old_self.games.entries().update(
                ii,
                (old_self.games.entries()[ii].0, self.games.entries()[ii].1),
            ));
            assert forall|a: int, b: int|
                0 <= a < b < self.games.entries().len() implies self.games.entries()[a].0@
                != self.games.entries()[b].0@ by {
                assert(self.games.entries()[a].0 == old_self.games.entries()[a].0);
                assert(self.games.entries()[b].0 == old_self.games.entries()[b].0);
            }
            self.games.lemma_get_at(ii);
            lemma_pointwise_after_update(old_self.games, self.games, ii);
            if old_self.current_game_id is Some {
                let c = old_self.current_game_id->Some_0;
                let j = choose|j: int|
                    0 <= j < old_self.games.entries().len() && old_self.games.entries()[j].0@
                        == c@;
                assert(self.games.entries()[j].0@ == c@);
            }
        }
        let ghost new_g = self.games.entries()[idx as int].1;

        let g_last_move_dest: Option<(u8, u8)> = match &self.games.pairs[idx].1.last_move {
            Some(m) => Some(crate::board::uci_dest(m.as_str())),
            None => None,
        };
        if is_current {
            match g_last_move_dest {
                Some((file, rank)) => {
                    let clip = if crate::board::square_occupied(prev_board.as_str(), file, rank) {
                        Clip::Capture
                    } else {
                        Clip::Move
                    };
                    queue.push_action(Action::PlayClip(clip));
                },
                None => {},
            }
        }

        let g_finished = self.games.pairs[idx].1.finished;
        if g_finished {
            if is_current {
                let our_color = self.games.pairs[idx].1.us.color;
                let clip = match &state.winner {
                    Some(w) => {
                        let ours = match our_color {
                            Color::White => str_eq(w.as_str(), "white"),
                            Color::Black => str_eq(w.as_str(), "black"),
                        };
                        if ours {
                            Clip::Win
                        } else {
                            Clip::Loss
                        }
                    },
                    None => Clip::Draw,
                };
                queue.push_action(Action::PlayClip(clip));
                queue.push_notification(Notification::Game(GameNotification::GameFinished));
                let archived = self.games.pairs[idx].1.clone();
                self.games.remove(game_id);
                self.current_game_id = None;
                self.last_finished_game = Some(archived);
            }
            proof {
                if !(new_g.finished && (old_self.current_game_id matches Some(c) && c@
                    == game_id@)) {
                    assert(self.games.spec_get(game_id@) == Some(new_g));
                }
                assert(queue.events@.subrange(0, old_queue.events@.len() as int) =~= old_queue.events@);
                lemma_current_after_update(old_self, *self, game_id@);
            }
            return ;
        }
        let g_our_turn = self.games.pairs[idx].1.is_our_turn;
        if g_our_turn {
            queue.push_notification(
                Notification::Game(GameNotification::OurTurn { game_id: String::from_str(game_id) }),
            );
        } else {
            queue.push_notification(
                Notification::Game(
                    GameNotification::TheirTurn { game_id: String::from_str(game_id) },
                ),
            );
        }
        if !str_eq(self.games.pairs[idx].1.board.as_str(), prev_board.as_str()) {
            queue.push_notification(
                Notification::Game(
                    GameNotification::PlayerMoved {
                        game_id: String::from_str(game_id),
                        was_us: !g_our_turn,
                    },
                ),
            );
        }
        proof {
            assert(queue.events@.subrange(0, old_queue.events@.len() as int) =~= old_queue.events@);
            lemma_current_after_update(old_self, *self, game_id@);
        }
    }
}

/// After updating one entry in place, every other key reads as before.
proof fn lemma_pointwise_after_update(old_m: StrMap<Game>, new_m: StrMap<Game>, ii: int)
    requires
        old_m.wf(),
        new_m.wf(),
        0 <= ii < old_m.entries().len(),
        new_m.entries().len() == old_m.entries().len(),
        forall|j: int|
            0 <= j < old_m.entries().len() && j != ii ==> #[trigger] new_m.entries()[j]
                == old_m.entries()[j],
        new_m.entries()[ii].0 == old_m.entries()[ii].0,
    ensures
        forall|k: Seq<char>|
            k != old_m.entries()[ii].0@ ==> new_m.spec_get(k) == old_m.spec_get(k),
{
    assert forall|k: Seq<char>|
        k != old_m.entries()[ii].0@ implies new_m.spec_get(k) == old_m.spec_get(k) by {
        if old_m.spec_contains(k) {
            let j = choose|j: int|
                0 <= j < old_m.entries().len() && old_m.entries()[j].0@ == k;
            old_m.lemma_get_at(j);
            assert(j != ii);
            assert(new_m.entries()[j] == old_m.entries()[j]);
            new_m.lemma_get_at(j);
        } else {
            if new_m.spec_contains(k) {
                let j = choose|j: int|
                    0 <= j < new_m.entries().len() && new_m.entries()[j].0@ == k;
                assert(j != ii);
                assert(old_m.entries()[j].0@ == k);
            }
        }
    }
}

/// The current id still names a game after an update that only touched
/// `touched` (possibly removing it, with the current id cleared then).
proof fn lemma_current_after_update(old_m: GameManager, new_m: GameManager, touched: Seq<char>)
    requires
        old_m.wf(),
        new_m.games.wf(),
        new_m.current_game_id == old_m.current_game_id || new_m.current_game_id is None,
        forall|k: Seq<char>| k != touched ==> new_m.games.spec_get(k) == old_m.games.spec_get(k),
        (new_m.current_game_id matches Some(c) && c@ == touched ==> new_m.games.spec_contains(
            touched,
        )),
        old_m.current_ok() ==> (new_m.current_game_id matches Some(c2) ==> (c2@ == touched
            ==> (new_m.games.spec_get(touched) matches Some(g) && !g.finished))),
        old_m.current_ok() ==> (new_m.current_game_id matches Some(c3) ==> (c3@ != touched
            ==> old_m.current_game_id == new_m.current_game_id)),
    ensures
        (new_m.current_game_id matches Some(id) ==> new_m.games.spec_contains(id@)),
        old_m.current_ok() ==> new_m.current_ok(),
{
    if new_m.current_game_id is Some {
        let id = new_m.current_game_id->Some_0;
        if id@ != touched {
            assert(old_m.games.spec_contains(id@));
            let j = choose|j: int|
                0 <= j < old_m.games.entries().len() && old_m.games.entries()[j].0@ == id@;
            old_m.games.lemma_get_at(j);
            assert(new_m.games.spec_get(id@) == old_m.games.spec_get(id@));
            if !new_m.games.spec_contains(id@) {
                assert(new_m.games.spec_get(id@) is None);
            }
        }
    }
}

} // verus!
