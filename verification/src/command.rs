//! Chat commands. A message holds a command when, anywhere in it, a `!`
//! is followed by one of the words `game`, `bullet`, `rapid`, `classical`,
//! then whitespace, then a word. The leftmost such occurrence decides; the
//! argument is the longest word at that spot. Word and whitespace
//! characters are the ASCII classes, deliberately: the grammar is this
//! crate's own, stated exactly by the spec functions below, and actions
//! (moves, delay, draw, resign) are ASCII anyway.

use vstd::prelude::*;

use crate::error::Error;

verus! {

/// A parsed chat command.
#[derive(Debug)]
pub enum Command {
    VoteGame { action: String },
    VoteSetting { setting: Setting, on: bool },
}

impl Clone for Command {
    fn clone(&self) -> (r: Command)
        ensures
            r == *self,
    {
        match self {
            Command::VoteGame { action } => Command::VoteGame { action: action.clone() },
            Command::VoteSetting { setting, on } => Command::VoteSetting {
                setting: *setting,
                on: *on,
            },
        }
    }
}

/// A setting a user can vote on.
#[derive(Clone, Copy, Debug, PartialEq, Eq, Structural)]
pub enum Setting {
    GameMode(GameMode),
}

/// The game modes open to settings votes.
#[derive(Clone, Copy, Debug, PartialEq, Eq, Structural)]
pub enum GameMode {
    Bullet,
    Rapid,
    Classical,
}

/// A command, with the user who sent it.
#[derive(Debug)]
pub struct ChatCommand {
    pub user: String,
    pub command: Command,
}

impl Clone for ChatCommand {
    fn clone(&self) -> (r: ChatCommand)
        ensures
            r == *self,
    {
        ChatCommand { user: self.user.clone(), command: self.command.clone() }
    }
}

/// A chat line that is not a command.
#[derive(Clone, Debug)]
pub struct ChatMessage {
    pub user: String,
    pub message: String,
}

/// Word characters: ASCII letters, digits and underscore.
pub open spec fn is_word(c: char) -> bool {
    ('a' <= c && c <= 'z') || ('A' <= c && c <= 'Z') || ('0' <= c && c <= '9') || c == '_'
}

/// Whitespace characters.
pub open spec fn is_space(c: char) -> bool {
    c == ' ' || c == '\t' || c == '\n' || c == '\r' || c == '\u{b}' || c == '\u{c}'
}

/// `p` occurs in `s` starting at `i`.
pub open spec fn has_prefix(s: Seq<char>, i: int, p: Seq<char>) -> bool {
    0 <= i && i + p.len() <= s.len() && s.subrange(i, i + p.len()) == p
}

/// The command keyword occurring at `i`, if any.
pub open spec fn keyword_at(s: Seq<char>, i: int) -> Option<Seq<char>> {
    if has_prefix(s, i, "game"@) {
        Some("game"@)
    } else if has_prefix(s, i, "bullet"@) {
        Some("bullet"@)
    } else if has_prefix(s, i, "rapid"@) {
        Some("rapid"@)
    } else if has_prefix(s, i, "classical"@) {
        Some("classical"@)
    } else {
        None
    }
}

/// The end of the whitespace run starting at `j`.
pub open spec fn space_end(s: Seq<char>, j: int) -> int
    decreases s.len() - j,
{
    if j < 0 || j >= s.len() {
        j
    } else if is_space(s[j]) {
        space_end(s, j + 1)
    } else {
        j
    }
}

/// The end of the word-character run starting at `j`.
pub open spec fn word_end(s: Seq<char>, j: int) -> int
    decreases s.len() - j,
{
    if j < 0 || j >= s.len() {
        j
    } else if is_word(s[j]) {
        word_end(s, j + 1)
    } else {
        j
    }
}

/// A whole command occurrence starts at `i`: a `!`, a keyword, whitespace,
/// then at least one word character.
pub open spec fn match_at(s: Seq<char>, i: int) -> bool {
    &&& 0 <= i < s.len()
    &&& s[i] == '!'
    &&& keyword_at(s, i + 1) is Some
    &&& {
        let kw = keyword_at(s, i + 1)->Some_0;
        let j0 = i + 1 + kw.len();
        &&& j0 < s.len()
        &&& is_space(s[j0])
        &&& {
            let j1 = space_end(s, j0);
            j1 < s.len() && is_word(s[j1])
        }
    }
}

/// The first position at or after `i` where a command occurs.
pub open spec fn spec_find(s: Seq<char>, i: int) -> Option<int>
    decreases s.len() - i,
{
    if i < 0 || i >= s.len() {
        None
    } else if match_at(s, i) {
        Some(i)
    } else {
        spec_find(s, i + 1)
    }
}

/// The parsed keyword and argument of the leftmost command occurrence.
pub open spec fn spec_parse(s: Seq<char>) -> Option<(Seq<char>, Seq<char>)> {
    match spec_find(s, 0) {
        None => None,
        Some(i) => {
            let kw = keyword_at(s, i + 1)->Some_0;
            let j1 = space_end(s, i + 1 + kw.len());
            let j2 = word_end(s, j1);
            Some((kw, s.subrange(j1, j2)))
        },
    }
}

/// What the parsed command must look like, given the keyword and argument.
pub open spec fn command_matches(cmd: Command, kw: Seq<char>, arg: Seq<char>) -> bool {
    if kw == "game"@ {
        cmd matches Command::VoteGame { action } && action@ == arg
    } else {
        cmd matches Command::VoteSetting { setting: Setting::GameMode(mode), on } && on == (arg
            == "on"@) && (kw == "bullet"@ ==> mode == GameMode::Bullet) && (kw == "rapid"@ ==> mode
            == GameMode::Rapid) && (kw == "classical"@ ==> mode == GameMode::Classical)
    }
}

fn exec_is_space(c: char) -> (r: bool)
    ensures
        r == is_space(c),
{
    c == ' ' || c == '\t' || c == '\n' || c == '\r' || c == '\u{b}' || c == '\u{c}'
}

fn exec_is_word(c: char) -> (r: bool)
    ensures
        r == is_word(c),
{
    ('a' <= c && c <= 'z') || ('A' <= c && c <= 'Z') || ('0' <= c && c <= '9') || c == '_'
}

fn prefix_matches(s: &str, s_len: usize, i: usize, p: &str) -> (r: bool)
    requires
        s_len == s@.len(),
        i <= s_len,
    ensures
        r == has_prefix(s@, i as int, p@),
{
    let p_len = p.unicode_len();
    if p_len > s_len - i {
        proof {
            assert(!has_prefix(s@, i as int, p@));
        }
        return false;
    }
    let mut k: usize = 0;
    while k < p_len
        invariant
            s_len == s@.len(),
            p_len == p@.len(),
            i + p_len <= s_len,
            k <= p_len,
            forall|m: int| 0 <= m < k ==> s@[i + m] == p@[m],
        decreases p_len - k,
    {
        if s.get_char(i + k) != p.get_char(k) {
            proof {
                assert(s@.subrange(i as int, i + p@.len())[k as int] != p@[k as int]);
            }
            return false;
        }
        k = k + 1;
    }
    proof {
        assert(s@.subrange(i as int, i + p@.len()) =~= p@);
    }
    true
}

/// The keyword at `i`, with its length.
fn keyword_len_at(s: &str, s_len: usize, i: usize) -> (r: Option<usize>)
    requires
        s_len == s@.len(),
        i <= s_len,
    ensures
        match r {
            Some(n) => keyword_at(s@, i as int) matches Some(kw) && kw.len() == n,
            None => keyword_at(s@, i as int) is None,
        },
{
    if prefix_matches(s, s_len, i, "game") {
        proof {
            reveal_strlit("game");
        }
        Some(4)
    } else if prefix_matches(s, s_len, i, "bullet") {
        proof {
            reveal_strlit("bullet");
        }
        Some(6)
    } else if prefix_matches(s, s_len, i, "rapid") {
        proof {
            reveal_strlit("rapid");
        }
        Some(5)
    } else if prefix_matches(s, s_len, i, "classical") {
        proof {
            reveal_strlit("classical");
        }
        Some(9)
    } else {
        None
    }
}

fn scan_spaces(s: &str, s_len: usize, j: usize) -> (r: usize)
    requires
        s_len == s@.len(),
        j <= s_len,
    ensures
        r == space_end(s@, j as int),
        j <= r <= s_len,
{
    let mut j1 = j;
    while j1 < s_len && exec_is_space(s.get_char(j1))
        invariant
            s_len == s@.len(),
            j <= j1 <= s_len,
            space_end(s@, j as int) == space_end(s@, j1 as int),
        decreases s_len - j1,
    {
        j1 = j1 + 1;
    }
    j1
}

fn scan_word(s: &str, s_len: usize, j: usize) -> (r: usize)
    requires
        s_len == s@.len(),
        j <= s_len,
    ensures
        r == word_end(s@, j as int),
        j <= r <= s_len,
{
    let mut j1 = j;
    while j1 < s_len && exec_is_word(s.get_char(j1))
        invariant
            s_len == s@.len(),
            j <= j1 <= s_len,
            word_end(s@, j as int) == word_end(s@, j1 as int),
        decreases s_len - j1,
    {
        j1 = j1 + 1;
    }
    j1
}

impl Command {
    /// Parse the leftmost command occurrence of `s`; `Err` when there is
    /// none.
    pub fn from_str(s: &str) -> (r: Result<Command, Error>)
        ensures
            match r {
                Ok(cmd) => spec_parse(s@) matches Some((kw, arg)) && command_matches(cmd, kw, arg),
                Err(e) => spec_parse(s@) is None && e matches Error::RegexError,
            },
    {
        let s_len = s.unicode_len();
        let mut i: usize = 0;
        while i < s_len
            invariant
                s_len == s@.len(),
                i <= s_len,
                spec_find(s@, 0) == spec_find(s@, i as int),
            decreases s_len - i,
        {
            if s.get_char(i) == '!' {
                if let Some(kw_len) = keyword_len_at(s, s_len, i + 1) {
                    let j0 = i + 1 + kw_len;
                    if j0 < s_len && exec_is_space(s.get_char(j0)) {
                        let j1 = scan_spaces(s, s_len, j0);
                        if j1 < s_len && exec_is_word(s.get_char(j1)) {
                            proof {
                                assert(match_at(s@, i as int));
                            }
                            let j2 = scan_word(s, s_len, j1);
                            let arg_slice = s.substring_char(j1, j2);
                            let arg = String::from_str(arg_slice);
                            // Which keyword matched is decided by its length:
                            // the four keywords have distinct lengths.
                            let cmd = if kw_len == 4 {
                                Command::VoteGame { action: arg }
                            } else {
                                let on = crate::text::str_eq(arg.as_str(), "on");
                                let mode = if kw_len == 6 {
                                    GameMode::Bullet
                                } else if kw_len == 5 {
                                    GameMode::Rapid
                                } else {
                                    GameMode::Classical
                                };
                                Command::VoteSetting { setting: Setting::GameMode(mode), on }
                            };
                            proof {
                                reveal_strlit("game");
                                reveal_strlit("bullet");
                                reveal_strlit("rapid");
                                reveal_strlit("classical");
                                reveal_strlit("on");
                                assert(spec_find(s@, i as int) == Some(i as int));
                                assert(spec_parse(s@) matches Some((kw, arg2)) && kw == keyword_at(
                                    s@,
                                    i + 1,
                                )->Some_0 && arg2 == s@.subrange(j1 as int, j2 as int));
                            }
                            return Ok(cmd);
                        }
                    }
                }
            }
            proof {
                assert(!match_at(s@, i as int));
                assert(spec_find(s@, i as int) == spec_find(s@, i + 1));
            }
            i = i + 1;
        }
        proof {
            assert(spec_find(s@, s_len as int) is None);
        }
        Err(Error::RegexError)
    }

    /// The command's display text: the action for a game vote, the setting
    /// and its switch for a settings vote.
    pub fn to_string(&self) -> (r: String)
        ensures
            self matches Command::VoteGame { action } ==> r@ == action@,
            self matches Command::VoteSetting { setting, on } ==> r@ == setting.spec_string() + (
            if *on {
                " on"@
            } else {
                " off"@
            }),
    {
        match self {
            Command::VoteGame { action } => action.clone(),
            Command::VoteSetting { setting, on } => {
                let mut r = setting.to_string();
                if *on {
                    r.append(" on");
                } else {
                    r.append(" off");
                }
                r
            },
        }
    }
}

impl Setting {
    pub open spec fn spec_string(&self) -> Seq<char> {
        match self {
            Setting::GameMode(mode) => mode.spec_string(),
        }
    }

    pub fn to_string(&self) -> (r: String)
        ensures
            r@ == self.spec_string(),
    {
        match self {
            Setting::GameMode(mode) => mode.to_string(),
        }
    }
}

impl GameMode {
    pub open spec fn spec_string(&self) -> Seq<char> {
        match self {
            GameMode::Bullet => "bullet"@,
            GameMode::Rapid => "rapid"@,
            GameMode::Classical => "classical"@,
        }
    }

    pub fn to_string(&self) -> (r: String)
        ensures
            r@ == self.spec_string(),
    {
        match self {
            GameMode::Bullet => String::from_str("bullet"),
            GameMode::Rapid => String::from_str("rapid"),
            GameMode::Classical => String::from_str("classical"),
        }
    }
}

} // verus!
