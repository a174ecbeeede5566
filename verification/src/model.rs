//! The presentation model: everything the engine publishes to the stream
//! layer, together with the small value types (timers, delay counters, vote
//! statistics) that the rest of the engine computes with.

use vstd::prelude::*;

use crate::collections::StrMap;

use crate::text::push_char;
use crate::text::spec_decimal;
use crate::text::u64_to_string;

verus! {

/// Which side of the board a player occupies.
#[derive(Clone, Copy, Debug, PartialEq, Eq, Structural)]
pub enum Color {
    White,
    Black,
}

impl Color {
    pub fn opposite(&self) -> (r: Color)
        ensures
            r == self.spec_opposite(),
    {
        match self {
            Color::White => Color::Black,
            Color::Black => Color::White,
        }
    }

    pub open spec fn spec_opposite(&self) -> Color {
        match self {
            Color::White => Color::Black,
            Color::Black => Color::White,
        }
    }
}

/// The time-control class of a game.
#[derive(Clone, Copy, Debug, PartialEq, Eq, Structural)]
pub enum Speed {
    UltraBullet,
    Bullet,
    Blitz,
    Rapid,
    Classical,
    Correspondence,
}

/// The delay cap for a speed.
pub open spec fn spec_max_delays(speed: Speed) -> u8 {
    match speed {
        Speed::UltraBullet => 3,
        Speed::Bullet => 5,
        Speed::Blitz => 6,
        Speed::Rapid => 8,
        Speed::Classical => 10,
        Speed::Correspondence => 1,
    }
}

/// The vote-window length, in seconds, for a speed.
pub open spec fn spec_vote_seconds(speed: Speed) -> u64 {
    match speed {
        Speed::UltraBullet => 2,
        Speed::Bullet => 5,
        Speed::Blitz => 12,
        Speed::Rapid => 36,
        Speed::Classical => 72,
        Speed::Correspondence => 1,
    }
}

/// The delay cap and the vote-window length for a speed.
pub fn vote_parameters(speed: &Speed) -> (r: (u8, u64))
    ensures
        r.0 == spec_max_delays(*speed),
        r.1 == spec_vote_seconds(*speed),
{
    match speed {
        Speed::UltraBullet => (3, 2),
        Speed::Bullet => (5, 5),
        Speed::Blitz => (6, 12),
        Speed::Rapid => (8, 36),
        Speed::Classical => (10, 72),
        Speed::Correspondence => (1, 1),
    }
}

/// A chess clock, kept as whole minutes and seconds of remaining time.
#[derive(Clone, Copy, Debug, PartialEq, Eq, Structural)]
pub struct Timer {
    pub minutes: u64,
    pub seconds: u64,
}

impl Timer {
    /// Well-formed timers come out of `new`: seconds below one minute and a
    /// total in milliseconds that fits a u64.
    pub open spec fn wf(&self) -> bool {
        self.seconds < 60 && self.spec_millis() <= u64::MAX
    }

    /// The remaining time in milliseconds (whole seconds only).
    pub open spec fn spec_millis(&self) -> int {
        self.minutes * 60000 + self.seconds * 1000
    }

    /// The timer that `new` builds from a millisecond count.
    pub open spec fn spec_new(milliseconds: u64) -> Timer {
        Timer { minutes: (milliseconds as int / 60000) as u64, seconds: ((milliseconds as int % 60000) / 1000) as u64 }
    }

    /// The timer after `d` milliseconds pass: subtraction saturating at zero,
    /// rounded down to whole seconds.
    pub open spec fn spec_elapse(&self, d: u64) -> Timer {
        if d < self.spec_millis() {
            Timer::spec_new((self.spec_millis() - d) as u64)
        } else {
            Timer::spec_new(0)
        }
    }

    pub fn new(milliseconds: u64) -> (r: Timer)
        ensures
            r == Timer::spec_new(milliseconds),
            r.spec_millis() <= milliseconds,
            r.wf(),
    {
        proof {
            let ms = milliseconds as int;
            vstd::arithmetic::div_mod::lemma_fundamental_div_mod(ms, 60000);
            vstd::arithmetic::div_mod::lemma_fundamental_div_mod(ms % 60000, 1000);
        }
        Timer { minutes: milliseconds / (60 * 1000), seconds: (milliseconds % (60 * 1000)) / 1000 }
    }

    pub fn elapse(&mut self, milliseconds: u64)
        requires
            old(self).wf(),
        ensures
            *final(self) == old(self).spec_elapse(milliseconds),
            final(self).wf(),
    {
        let total = self.as_millis();
        let timer = if milliseconds < total {
            Self::new(total - milliseconds)
        } else {
            Self::new(0)
        };
        *self = timer;
    }

    fn as_millis(&self) -> (r: u64)
        requires
            self.wf(),
        ensures
            r == self.spec_millis(),
    {
        (self.minutes * 60 * 1000) + (self.seconds * 1000)
    }

    /// "M:SS" with the seconds zero-padded to two digits.
    pub open spec fn spec_string(&self) -> Seq<char> {
        let minutes = self.minutes + self.seconds as int / 60;
        let seconds = self.seconds as int % 60;
        spec_decimal(minutes as nat) + seq![':'] + (if seconds <= 9 {
            seq!['0', crate::text::digit_char(seconds as nat)]
        } else {
            spec_decimal(seconds as nat)
        })
    }

    pub fn to_string(&self) -> (r: String)
        requires
            self.wf(),
        ensures
            r@ == self.spec_string(),
    {
        let extra_minutes = self.seconds / 60;
        let minutes = self.minutes + extra_minutes;
        let seconds = self.seconds % 60;
        let mut r = u64_to_string(minutes);
        push_char(&mut r, ':');
        if seconds <= 9 {
            push_char(&mut r, '0');
            let d = u64_to_string(seconds);
            proof {
                assert(spec_decimal(seconds as nat) =~= seq![crate::text::digit_char(seconds as nat)]);
            }
            r.append(d.as_str());
        } else {
            let d = u64_to_string(seconds);
            r.append(d.as_str());
        }
        proof {
            assert(r@ =~= self.spec_string());
        }
        r
    }
}

/// Clock arithmetic: elapsing never increases the remaining time, and a
/// delay at least as large as the remaining time empties the clock.
pub proof fn lemma_timer_elapse_monotone(t: Timer, d: u64)
    requires
        t.wf(),
    ensures
        t.spec_elapse(d).spec_millis() <= t.spec_millis(),
        d >= t.spec_millis() ==> t.spec_elapse(d).spec_millis() == 0,
        t.spec_elapse(d).wf(),
{
    if d < t.spec_millis() {
        let rem = (t.spec_millis() - d) as u64;
        let r = Timer::spec_new(rem);
        assert(r.spec_millis() == (rem as int / 60000) * 60000 + ((rem as int % 60000) / 1000)
            * 1000);
        assert(r.spec_millis() <= rem) by {
            vstd::arithmetic::div_mod::lemma_fundamental_div_mod(rem as int, 60000);
            vstd::arithmetic::div_mod::lemma_fundamental_div_mod(rem as int % 60000, 1000);
        }
    }
}

/// The count of delays spent this game, against its cap.
#[derive(Clone, Copy, Debug, Default, PartialEq, Eq, Structural)]
pub struct Delays {
    pub current: u8,
    pub max: u8,
}

impl Delays {
    pub open spec fn wf(&self) -> bool {
        self.current <= self.max
    }

    pub fn new(max: u8) -> (r: Delays)
        ensures
            r.current == 0,
            r.max == max,
            r.wf(),
    {
        Delays { current: 0, max }
    }

    /// One more delay spent; the counter never passes the cap.
    pub fn add_delay(&mut self)
        requires
            old(self).wf(),
        ensures
            final(self).current == if old(self).current < old(self).max {
                old(self).current + 1
            } else {
                old(self).current as int
            },
            final(self).max == old(self).max,
            final(self).wf(),
    {
        if self.current < self.max {
            self.current = self.current + 1;
        }
    }

    pub fn can_delay(&self) -> (r: bool)
        ensures
            r == (self.current < self.max),
    {
        self.current < self.max
    }

    /// "Delays (c/m)".
    pub open spec fn spec_string(&self) -> Seq<char> {
        "Delays ("@ + spec_decimal(self.current as nat) + seq!['/'] + spec_decimal(
            self.max as nat,
        ) + seq![')']
    }

    pub fn to_string(&self) -> (r: String)
        ensures
            r@ == self.spec_string(),
    {
        let mut r = String::from_str("Delays (");
        let c = u64_to_string(self.current as u64);
        r.append(c.as_str());
        push_char(&mut r, '/');
        let m = u64_to_string(self.max as u64);
        r.append(m.as_str());
        push_char(&mut r, ')');
        proof {
            assert(r@ =~= self.spec_string());
        }
        r
    }
}

/// How many users back one vote, and how that count moved since the last
/// snapshot.
#[derive(Clone, Copy, Debug, PartialEq, Eq, Structural)]
pub struct VoteStats {
    pub vote_changes: i32,
    pub total_votes: u32,
}

impl VoteStats {
    /// Record in `new` how its total moved relative to `prev`.
    pub fn update_changes(prev: &VoteStats, new: &mut VoteStats)
        requires
            prev.total_votes <= i32::MAX,
            old(new).total_votes <= i32::MAX,
        ensures
            final(new).vote_changes == old(new).total_votes - prev.total_votes,
            final(new).total_votes == old(new).total_votes,
    {
        new.vote_changes = new.total_votes as i32 - prev.total_votes as i32;
    }

    /// "T (+c)" / "T (-c)" / "T " with no parenthesis when the count did not
    /// move.
    pub open spec fn spec_string(&self) -> Seq<char> {
        let changes: Seq<char> = if self.vote_changes > 0 {
            seq!['(', '+'] + spec_decimal(self.vote_changes as nat) + seq![')']
        } else if self.vote_changes < 0 {
            seq!['(', '-'] + spec_decimal((-(self.vote_changes as int)) as nat) + seq![')']
        } else {
            Seq::<char>::empty()
        };
        spec_decimal(self.total_votes as nat) + seq![' '] + changes
    }

    pub fn to_string(&self) -> (r: String)
        ensures
            r@ == self.spec_string(),
    {
        let mut r = u64_to_string(self.total_votes as u64);
        push_char(&mut r, ' ');
        if self.vote_changes > 0 {
            push_char(&mut r, '(');
            push_char(&mut r, '+');
            let c = u64_to_string(self.vote_changes as u64);
            r.append(c.as_str());
            push_char(&mut r, ')');
        } else if self.vote_changes < 0 {
            push_char(&mut r, '(');
            push_char(&mut r, '-');
            let magnitude = -(self.vote_changes as i64);
            let c = u64_to_string(magnitude as u64);
            r.append(c.as_str());
            push_char(&mut r, ')');
        }
        proof {
            assert(r@ =~= self.spec_string());
        }
        r
    }
}

/// The clock settings a game was created with: limit in minutes, increment
/// in seconds.
#[derive(Clone, Copy, Debug, PartialEq, Eq, Structural)]
pub struct ClockSettings {
    pub limit: u32,
    pub increment: u32,
}

/// A chat command as shown on stream: who sent it and its text.
#[derive(Clone, Debug)]
pub struct Command {
    pub username: String,
    pub command: String,
}

impl Command {
    pub fn new(username: String, command: String) -> (r: Command)
        ensures
            r.username == username,
            r.command == command,
    {
        Command { username, command }
    }

    /// "user: command".
    pub open spec fn spec_string(&self) -> Seq<char> {
        self.username@ + seq![':', ' '] + self.command@
    }

    pub fn to_string(&self) -> (r: String)
        ensures
            r@ == self.spec_string(),
    {
        let mut r = self.username.clone();
        push_char(&mut r, ':');
        push_char(&mut r, ' ');
        r.append(self.command.as_str());
        proof {
            assert(r@ =~= self.spec_string());
        }
        r
    }
}

/// One player of a game.
#[derive(Debug)]
pub struct Player {
    pub name: String,
    pub color: Color,
    pub rating: Option<u32>,
    pub timer: Timer,
}

impl Clone for Player {
    fn clone(&self) -> (r: Player)
        ensures
            r == *self,
    {
        Player {
            name: self.name.clone(),
            color: self.color,
            rating: match &self.rating {
                Some(x) => Some(*x),
                None => None,
            },
            timer: self.timer,
        }
    }
}

/// What the engine is doing, for display.
#[derive(Clone, Debug)]
pub enum State {
    ChallengingUser { id: String, rating: u32 },
    OurTurn,
    TheirTurn,
    GameFinished,
    Unknown,
}

impl State {
    pub open spec fn spec_string(&self) -> Seq<char> {
        match self {
            State::OurTurn => "In game: Our turn"@,
            State::TheirTurn => "In game: Their turn"@,
            State::GameFinished => "Game finished"@,
            State::Unknown => "Unknown"@,
            State::ChallengingUser { id, rating } => "Challenging "@ + id@ + seq![' ', '(']
                + spec_decimal(*rating as nat) + seq![')'],
        }
    }

    pub fn to_string(&self) -> (r: String)
        ensures
            r@ == self.spec_string(),
    {
        match self {
            State::OurTurn => String::from_str("In game: Our turn"),
            State::TheirTurn => String::from_str("In game: Their turn"),
            State::GameFinished => String::from_str("Game finished"),
            State::Unknown => String::from_str("Unknown"),
            State::ChallengingUser { id, rating } => {
                let mut r = String::from_str("Challenging ");
                r.append(id.as_str());
                push_char(&mut r, ' ');
                push_char(&mut r, '(');
                let n = u64_to_string(*rating as u64);
                r.append(n.as_str());
                push_char(&mut r, ')');
                proof {
                    assert(r@ =~= self.spec_string());
                }
                r
            },
        }
    }
}

/// Which side of the current game a timer update is for.
#[derive(Clone, Copy, Debug, PartialEq, Eq, Structural)]
pub enum Side {
    Ours,
    Theirs,
}

/// An audio clip the presentation layer can play.
#[derive(Clone, Copy, Debug, Eq, PartialEq, Structural)]
pub enum Clip {
    Capture,
    Draw,
    Lobby,
    Loss,
    Move,
    Start,
    Win,
}

impl Clip {
    pub open spec fn spec_string(&self) -> Seq<char> {
        match self {
            Clip::Capture => "capture"@,
            Clip::Draw => "draw"@,
            Clip::Lobby => "lobby"@,
            Clip::Loss => "loss"@,
            Clip::Move => "move"@,
            Clip::Start => "start"@,
            Clip::Win => "win"@,
        }
    }

    pub fn to_string(&self) -> (r: String)
        ensures
            r@ == self.spec_string(),
    {
        match self {
            Clip::Capture => String::from_str("capture"),
            Clip::Draw => String::from_str("draw"),
            Clip::Lobby => String::from_str("lobby"),
            Clip::Loss => String::from_str("loss"),
            Clip::Move => String::from_str("move"),
            Clip::Start => String::from_str("start"),
            Clip::Win => String::from_str("win"),
        }
    }

    /// "assets/audio/<name>.mp3".
    pub fn file_path(&self) -> (r: String)
        ensures
            r@ == "assets/audio/"@ + self.spec_string() + ".mp3"@,
    {
        let name = self.to_string();
        let mut r = String::from_str("assets/audio/");
        r.append(name.as_str());
        r.append(".mp3");
        r
    }
}

/// The fixed lines shown in the notice box.
#[derive(Clone, Debug)]
pub struct Notice {
    pub lines: Vec<String>,
}

impl Default for Notice {
    fn default() -> (r: Notice)
        ensures
            r.lines@.len() == 5,
    {
        let mut lines: Vec<String> = Vec::new();
        lines.push(String::from_str("Welcome to TTVPlaysChess!"));
        lines.push(String::from_str(""));
        lines.push(String::from_str("Read the channel description"));
        lines.push(String::from_str("for details about this"));
        lines.push(String::from_str("stream and how to participate."));
        Notice { lines }
    }
}

/// The stream title: the account url plus the current speed and clock.
#[derive(Clone, Debug)]
pub struct Title {
    pub url: &'static str,
    pub speed: Option<Speed>,
    pub clock_settings: Option<ClockSettings>,
}

impl Title {
    pub fn new() -> (r: Title)
        ensures
            r.speed is None,
            r.clock_settings is None,
    {
        Title { url: "lichess.org/@/TTVPlaysChess", speed: None, clock_settings: None }
    }

    pub open spec fn spec_speed_name(speed: Speed) -> Seq<char> {
        match speed {
            Speed::UltraBullet => "Ultrabullet"@,
            Speed::Bullet => "Bullet"@,
            Speed::Blitz => "Blitz"@,
            Speed::Rapid => "Rapid"@,
            Speed::Classical => "Classical"@,
            Speed::Correspondence => "Correspondence"@,
        }
    }

    /// Empty without a speed; otherwise the speed name, with
    /// " (limit + increment)" when the clock is known.
    pub open spec fn spec_string(&self) -> Seq<char> {
        match self.speed {
            None => Seq::<char>::empty(),
            Some(speed) => {
                let name = Title::spec_speed_name(speed);
                match self.clock_settings {
                    Some(clock) => name + seq![' ', '('] + spec_decimal(clock.limit as nat)
                        + seq![' ', '+', ' '] + spec_decimal(clock.increment as nat) + seq![')'],
                    None => name,
                }
            },
        }
    }

    pub fn to_string(&self) -> (r: String)
        ensures
            r@ == self.spec_string(),
    {
        let speed = match &self.speed {
            None => {
                return String::new();
            },
            Some(speed) => speed,
        };
        let name = match speed {
            Speed::UltraBullet => String::from_str("Ultrabullet"),
            Speed::Bullet => String::from_str("Bullet"),
            Speed::Blitz => String::from_str("Blitz"),
            Speed::Rapid => String::from_str("Rapid"),
            Speed::Classical => String::from_str("Classical"),
            Speed::Correspondence => String::from_str("Correspondence"),
        };
        match &self.clock_settings {
            Some(clock) => {
                let mut r = name;
                push_char(&mut r, ' ');
                push_char(&mut r, '(');
                let l = u64_to_string(clock.limit as u64);
                r.append(l.as_str());
                push_char(&mut r, ' ');
                push_char(&mut r, '+');
                push_char(&mut r, ' ');
                let i = u64_to_string(clock.increment as u64);
                r.append(i.as_str());
                push_char(&mut r, ')');
                proof {
                    assert(r@ =~= self.spec_string());
                }
                r
            },
            None => name,
        }
    }
}


/// The tally snapshot shown on stream: the window countdown, the counts by
/// vote text, and the delay budget.
#[derive(Clone, Debug)]
pub struct GameVotes {
    pub seconds_remaining: u64,
    pub votes: StrMap<VoteStats>,
    pub delays: Delays,
}

/// Vote totals never increase along the sequence.
pub open spec fn sorted_desc(s: Seq<(String, VoteStats)>) -> bool {
    forall|i: int, j: int| 0 <= i < j < s.len() ==> s[i].1.total_votes >= s[j].1.total_votes
}

/// One tally line: the vote text, then its statistics.
pub open spec fn spec_vote_line(entry: (String, VoteStats)) -> Seq<char> {
    entry.0@ + seq![':', ' '] + entry.1.spec_string()
}

impl GameVotes {
    pub open spec fn wf(&self) -> bool {
        self.votes.wf() && self.delays.wf()
    }

    /// The tally entries, most-backed first.
    pub fn sorted_votes(&self) -> (r: Vec<(String, VoteStats)>)
        ensures
            sorted_desc(r@),
            r@.to_multiset() == self.votes.entries().to_multiset(),
    {
        broadcast use vstd::seq_lib::group_to_multiset_ensures;

        let src = self.votes.as_vec();
        let n = src.len();
        let mut rest: Vec<(String, VoteStats)> = Vec::new();
        let mut i: usize = 0;
        while i < n
            invariant
                n == src@.len(),
                i <= n,
                rest@ == src@.subrange(0, i as int),
            decreases n - i,
        {
            let pair = &src[i];
            rest.push((pair.0.clone(), pair.1));
            proof {
                assert(rest@ =~= src@.subrange(0, i + 1));
            }
            i = i + 1;
        }
        proof {
            assert(rest@ =~= src@);
        }

        let mut out: Vec<(String, VoteStats)> = Vec::new();
        while rest.len() > 0
            invariant
                out@.to_multiset().add(rest@.to_multiset()) =~= self.votes.entries().to_multiset(),
                sorted_desc(out@),
                forall|a: int, b: int|
                    0 <= a < out@.len() && 0 <= b < rest@.len() ==> out@[a].1.total_votes
                        >= rest@[b].1.total_votes,
            decreases rest.len(),
        {
            let m = rest.len();
            let mut best: usize = 0;
            let mut j: usize = 1;
            while j < m
                invariant
                    m == rest@.len(),
                    best < m,
                    j <= m,
                    forall|b: int| 0 <= b < j ==> rest@[best as int].1.total_votes
                        >= rest@[b].1.total_votes,
                decreases m - j,
            {
                if rest[j].1.total_votes > rest[best].1.total_votes {
                    best = j;
                }
                j = j + 1;
            }
            let ghost old_out = out@;
            let ghost old_rest = rest@;
            let e = rest.remove(best);
            out.push(e);
            proof {
                assert(out@ =~= old_out.push(e));
                assert(rest@ =~= old_rest.remove(best as int));
                old_out.to_multiset_ensures();
                old_rest.to_multiset_ensures();
                assert(old_out.push(e).to_multiset() =~= old_out.to_multiset().insert(e));
                assert(old_rest.remove(best as int).to_multiset() =~= old_rest.to_multiset().remove(
                    old_rest[best as int],
                ));
                assert(out@.to_multiset() =~= old_out.to_multiset().insert(e));
                assert(rest@.to_multiset() =~= old_rest.to_multiset().remove(e));
                assert(old_rest.to_multiset().count(e) > 0) by {
                    assert(old_rest.contains(e)) by {
                        assert(old_rest[best as int] == e);
                    }
                }
                assert(out@.to_multiset().add(rest@.to_multiset()) =~= old_out.to_multiset().add(
                    old_rest.to_multiset(),
                ));
                assert forall|b: int| 0 <= b < rest@.len() implies e.1.total_votes
                    >= rest@[b].1.total_votes by {
                    let b0 = if b < best {
                        b
                    } else {
                        b + 1
                    };
                    assert(rest@[b] == old_rest[b0]);
                }
            }
        }
        proof {
            assert(rest@.to_multiset() =~= vstd::multiset::Multiset::<(String, VoteStats)>::empty());
            assert(out@.to_multiset().add(vstd::multiset::Multiset::<(String, VoteStats)>::empty()) =~= out@.to_multiset());
        }
        out
    }

    /// The tally lines: the delay budget, a blank, the countdown header,
    /// then one line per vote, most-backed first.
    pub fn lines(&self) -> (r: Vec<String>)
        ensures
            r@.len() == 3 + self.votes.entries().len(),
            r@[0]@ == self.delays.spec_string(),
            r@[1]@ == Seq::<char>::empty(),
            r@[2]@ == "Votes ("@ + spec_decimal(self.seconds_remaining as nat)
                + " seconds left):"@,
            exists|s: Seq<(String, VoteStats)>|
                #![auto]
                sorted_desc(s) && s.to_multiset() == self.votes.entries().to_multiset() && s.len()
                    + 3 == r@.len() && (forall|i: int|
                    3 <= i < r@.len() ==> r@[i]@ == spec_vote_line(s[i - 3])),
    {
        broadcast use vstd::seq_lib::group_to_multiset_ensures;

        let mut r: Vec<String> = Vec::new();
        r.push(self.delays.to_string());
        r.push(String::new());
        let mut header = String::from_str("Votes (");
        let secs = u64_to_string(self.seconds_remaining);
        header.append(secs.as_str());
        header.append(" seconds left):");
        r.push(header);

        let sorted = self.sorted_votes();
        let ghost sorted_view = sorted@;
        let n = sorted.len();
        proof {
            assert(sorted@.to_multiset().len() == self.votes.entries().to_multiset().len());
        }
        let mut i: usize = 0;
        while i < n
            invariant
                n == sorted@.len(),
                sorted@ == sorted_view,
                i <= n,
                r@.len() == 3 + i,
                forall|k: int| 3 <= k < r@.len() ==> r@[k]@ == spec_vote_line(sorted_view[k - 3]),
                r@[0]@ == self.delays.spec_string(),
                r@[1]@ == Seq::<char>::empty(),
                r@[2]@ == "Votes ("@ + spec_decimal(self.seconds_remaining as nat)
                    + " seconds left):"@,
            decreases n - i,
        {
            let pair = &sorted[i];
            let mut line = pair.0.clone();
            push_char(&mut line, ':');
            push_char(&mut line, ' ');
            let stats = pair.1.to_string();
            line.append(stats.as_str());
            proof {
                assert(line@ =~= spec_vote_line(sorted_view[i as int]));
            }
            r.push(line);
            i = i + 1;
        }
        r
    }
}


/// The whole presentation snapshot.
#[derive(Debug)]
pub struct Model {
    pub title: Title,
    pub notice: Notice,
    pub chat_commands: Vec<Command>,
    pub move_history: Vec<String>,
    pub us: Player,
    pub opponent: Player,
    pub board: String,
    pub settings: crate::settings::Settings,
    pub game_votes: GameVotes,
    pub state: State,
}

impl Default for Model {
    /// The model before anything happened: empty lists, the starting
    /// position, every game mode on, an idle vote window, and unknown
    /// players.
    fn default() -> (r: Model)
        ensures
            r.title.speed is None,
            r.title.clock_settings is None,
            r.notice.lines@.len() == 5,
            r.chat_commands@.len() == 0,
            r.move_history@.len() == 0,
            r.us.name@ == "Twitch"@,
            r.us.color == Color::White,
            r.us.rating is None,
            r.us.timer == (Timer { minutes: 0, seconds: 0 }),
            r.opponent.name@ == "Unknown"@,
            r.opponent.color == Color::Black,
            r.opponent.rating is None,
            r.opponent.timer == (Timer { minutes: 0, seconds: 0 }),
            r.board@ == crate::board::spec_startpos(),
            r.settings.game_modes.bullet && r.settings.game_modes.rapid
                && r.settings.game_modes.classical,
            r.settings.bullet == 0 && r.settings.rapid == 0 && r.settings.classical == 0
                && r.settings.total == 0,
            r.game_votes.seconds_remaining == 30,
            r.game_votes.votes.entries().len() == 0,
            r.game_votes.delays == (Delays { current: 0, max: 6 }),
            r.state is Unknown,
    {
        let title = Title::new();
        let notice = Notice::default();
        let us = Player {
            name: String::from_str("Twitch"),
            color: Color::White,
            rating: None,
            timer: Timer { minutes: 0, seconds: 0 },
        };
        let opponent = Player {
            name: String::from_str("Unknown"),
            color: Color::Black,
            rating: None,
            timer: Timer { minutes: 0, seconds: 0 },
        };
        let settings = crate::settings::Settings {
            game_modes: crate::settings::GameModes::default(),
            bullet: 0,
            rapid: 0,
            classical: 0,
            total: 0,
        };
        let game_votes = GameVotes {
            seconds_remaining: 30,
            votes: StrMap::new(),
            delays: Delays { current: 0, max: 6 },
        };
        Model {
            title,
            notice,
            chat_commands: Vec::new(),
            move_history: Vec::new(),
            us,
            opponent,
            board: crate::board::startpos_fen(),
            settings,
            game_votes,
            state: State::Unknown,
        }
    }
}

impl Model {
    /// Fold a game into the snapshot: its speed and clock into the title,
    /// its board, history and players into their places.
    pub fn update_from_game(&mut self, game: crate::game::Game)
        ensures
            final(self).title.speed == Some(game.speed),
            final(self).title.clock_settings == game.clock_settings,
            final(self).board == game.board,
            final(self).move_history@ == game.move_history@,
            final(self).us == game.us,
            final(self).opponent == game.opponent,
            final(self).notice == old(self).notice,
            final(self).chat_commands == old(self).chat_commands,
            final(self).settings == old(self).settings,
            final(self).game_votes == old(self).game_votes,
            final(self).state == old(self).state,
    {
        self.title.speed = Some(game.speed);
        self.title.clock_settings = match &game.clock_settings {
            Some(c) => Some(*c),
            None => None,
        };
        self.board = game.board;
        self.move_history = game.move_history;
        self.opponent = game.opponent;
        self.us = game.us;
    }
}

} // verus!
