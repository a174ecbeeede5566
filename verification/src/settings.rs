//! Settings votes: per-user votes on which game modes the engine may pick.
//! A mode is on when at least half of the voters back it; the denominator
//! is the number of distinct voters over all three modes, so one user
//! voting for every mode counts once.

use vstd::prelude::*;

use crate::collections::StrSet;
use crate::command::GameMode;
use crate::command::Setting;
use crate::text::concat2;
use crate::text::push_char;
use crate::text::spec_decimal;
use crate::text::u64_to_string;

verus! {

/// Which game modes are open for the next challenge.
#[derive(Clone, Copy, Debug, PartialEq, Eq, Structural)]
pub struct GameModes {
    pub bullet: bool,
    pub rapid: bool,
    pub classical: bool,
}

impl Default for GameModes {
    /// Every mode starts enabled.
    fn default() -> (r: GameModes)
        ensures
            r.bullet && r.rapid && r.classical,
    {
        GameModes { bullet: true, rapid: true, classical: true }
    }
}

/// The derived settings: the enabled modes and the counts behind them.
#[derive(Clone, Copy, Debug, PartialEq, Eq, Structural)]
pub struct Settings {
    pub game_modes: GameModes,
    pub bullet: usize,
    pub rapid: usize,
    pub classical: usize,
    pub total: usize,
}

impl Settings {
    /// Counts never pass the number of distinct voters.
    pub open spec fn wf(&self) -> bool {
        self.bullet <= self.total && self.rapid <= self.total && self.classical <= self.total
    }
}

/// A mode is enabled when there are voters and at least half back it.
pub open spec fn spec_enabled(count: int, total: int) -> bool {
    total > 0 && 2 * count >= total
}

/// The per-user game-mode votes.
#[derive(Clone, Debug)]
pub struct SettingsVotes {
    pub bullet: StrSet,
    pub rapid: StrSet,
    pub classical: StrSet,
}

impl SettingsVotes {
    pub open spec fn wf(&self) -> bool {
        self.bullet.wf() && self.rapid.wf() && self.classical.wf()
    }

    /// The distinct voters over all three modes.
    pub open spec fn spec_voters(&self) -> Set<Seq<char>> {
        self.bullet.view().union(self.rapid.view()).union(self.classical.view())
    }

    pub fn new() -> (r: SettingsVotes)
        ensures
            r.wf(),
            r.bullet.view() =~= Set::<Seq<char>>::empty(),
            r.rapid.view() =~= Set::<Seq<char>>::empty(),
            r.classical.view() =~= Set::<Seq<char>>::empty(),
    {
        SettingsVotes { bullet: StrSet::new(), rapid: StrSet::new(), classical: StrSet::new() }
    }

    /// Record one user's vote for one mode: membership in that mode's set
    /// follows `on`; the other sets are untouched.
    pub fn add_game_mode_vote(&mut self, user: String, game_mode: GameMode, on: bool)
        requires
            old(self).wf(),
        ensures
            final(self).wf(),
            ({
                let target = match game_mode {
                    GameMode::Bullet => old(self).bullet.view(),
                    GameMode::Rapid => old(self).rapid.view(),
                    GameMode::Classical => old(self).classical.view(),
                };
                let updated = if on {
                    target.insert(user@)
                } else {
                    target.remove(user@)
                };
                match game_mode {
                    GameMode::Bullet => final(self).bullet.view() =~= updated && final(self).rapid
                        == old(self).rapid && final(self).classical == old(self).classical,
                    GameMode::Rapid => final(self).rapid.view() =~= updated && final(self).bullet
                        == old(self).bullet && final(self).classical == old(self).classical,
                    GameMode::Classical => final(self).classical.view() =~= updated
                        && final(self).bullet == old(self).bullet && final(self).rapid == old(
                        self,
                    ).rapid,
                }
            }),
    {
        let set = match game_mode {
            GameMode::Bullet => &mut self.bullet,
            GameMode::Rapid => &mut self.rapid,
            GameMode::Classical => &mut self.classical,
        };
        if on {
            set.insert(user);
        } else {
            set.remove(user.as_str());
        }
    }

    /// Record one user's settings vote: the named mode's membership
    /// follows the switch, the other modes stand.
    pub fn add_vote(&mut self, user: String, setting: Setting, on: bool)
        requires
            old(self).wf(),
        ensures
            final(self).wf(),
            ({
                let Setting::GameMode(game_mode) = setting;
                let target = match game_mode {
                    GameMode::Bullet => old(self).bullet.view(),
                    GameMode::Rapid => old(self).rapid.view(),
                    GameMode::Classical => old(self).classical.view(),
                };
                let updated = if on {
                    target.insert(user@)
                } else {
                    target.remove(user@)
                };
                match game_mode {
                    GameMode::Bullet => final(self).bullet.view() =~= updated && final(self).rapid
                        == old(self).rapid && final(self).classical == old(self).classical,
                    GameMode::Rapid => final(self).rapid.view() =~= updated && final(self).bullet
                        == old(self).bullet && final(self).classical == old(self).classical,
                    GameMode::Classical => final(self).classical.view() =~= updated
                        && final(self).bullet == old(self).bullet && final(self).rapid == old(
                        self,
                    ).rapid,
                }
            }),
    {
        match setting {
            Setting::GameMode(game_mode) => self.add_game_mode_vote(user, game_mode, on),
        }
    }

    /// Forget a user's votes in every mode.
    pub fn remove_user(&mut self, user: &String)
        requires
            old(self).wf(),
        ensures
            final(self).wf(),
            final(self).bullet.view() =~= old(self).bullet.view().remove(user@),
            final(self).rapid.view() =~= old(self).rapid.view().remove(user@),
            final(self).classical.view() =~= old(self).classical.view().remove(user@),
    {
        self.bullet.remove(user.as_str());
        self.rapid.remove(user.as_str());
        self.classical.remove(user.as_str());
    }

    /// The derived settings: each mode's voter count, the distinct-voter
    /// total, and each mode's switch by the half-of-voters rule.
    pub fn get_settings(&self) -> (r: Settings)
        requires
            self.wf(),
        ensures
            r.bullet == self.bullet.view().len(),
            r.rapid == self.rapid.view().len(),
            r.classical == self.classical.view().len(),
            r.total == self.spec_voters().len(),
            r.game_modes.bullet == spec_enabled(r.bullet as int, r.total as int),
            r.game_modes.rapid == spec_enabled(r.rapid as int, r.total as int),
            r.game_modes.classical == spec_enabled(r.classical as int, r.total as int),
            r.wf(),
    {
        proof {
            self.bullet.lemma_card();
            self.rapid.lemma_card();
            self.classical.lemma_card();
        }
        let bullet = self.bullet.len();
        let rapid = self.rapid.len();
        let classical = self.classical.len();

        let mut all = StrSet::new();
        union_into(&mut all, &self.bullet);
        union_into(&mut all, &self.rapid);
        union_into(&mut all, &self.classical);
        proof {
            all.lemma_card();
            assert(all.view() =~= self.spec_voters());
            vstd::set_lib::lemma_len_subset(self.bullet.view(), self.spec_voters());
            vstd::set_lib::lemma_len_subset(self.rapid.view(), self.spec_voters());
            vstd::set_lib::lemma_len_subset(self.classical.view(), self.spec_voters());
        }
        let total = all.len();

        let game_modes = GameModes {
            bullet: is_enabled(bullet, total),
            rapid: is_enabled(rapid, total),
            classical: is_enabled(classical, total),
        };
        Settings { game_modes, bullet, rapid, classical, total }
    }
}

fn is_enabled(count: usize, total: usize) -> (r: bool)
    ensures
        r == spec_enabled(count as int, total as int),
{
    if total == 0 {
        false
    } else {
        (count as u128) * 2 >= (total as u128)
    }
}

/// Add every member of `other` to `acc`.
fn union_into(acc: &mut StrSet, other: &StrSet)
    requires
        old(acc).wf(),
    ensures
        final(acc).wf(),
        final(acc).view() =~= old(acc).view().union(other.view()),
{
    let ghost acc0 = *acc;
    let items = other.as_vec();
    let n = items.len();
    let mut i: usize = 0;
    while i < n
        invariant
            acc.wf(),
            n == items@.len(),
            items@.map_values(|s: String| s@) == other.keys(),
            i <= n,
            acc.view() =~= acc0.view().union(other.keys().subrange(0, i as int).to_set()),
        decreases n - i,
    {
        acc.insert(items[i].clone());
        proof {
            let short = other.keys().subrange(0, i as int);
            let long = other.keys().subrange(0, i + 1);
            let k = other.keys()[i as int];
            assert(long =~= short.push(k));
            assert forall|y: Seq<char>| #[trigger]
                long.to_set().contains(y) implies (short.to_set().contains(y) || y == k) by {
                let j = choose|j: int| 0 <= j < long.len() && long[j] == y;
                if j < i {
                    assert(short[j] == y);
                }
            }
            assert forall|y: Seq<char>| (short.to_set().contains(y) || y == k) implies #[trigger]
                long.to_set().contains(y) by {
                if y == k {
                    assert(long[i as int] == y);
                } else {
                    let j = choose|j: int| 0 <= j < short.len() && short[j] == y;
                    assert(long[j] == y);
                }
            }
            assert(acc.view() =~= acc0.view().union(long.to_set()));
        }
        i = i + 1;
    }
    proof {
        assert(other.keys().subrange(0, n as int) =~= other.keys());
    }
}

/// One settings line: "off: no votes" without votes for the mode, else the
/// switch and the mode's share of the voters as a percentage with three
/// decimal places, rounded half up.
pub open spec fn spec_description(on: bool, count: int, total: int) -> Seq<char> {
    if total == 0 || count == 0 {
        "off: no votes"@
    } else {
        let milli = (100000 * count + total / 2) / total;
        let state: Seq<char> = if on {
            "on"@
        } else {
            "off"@
        };
        state + " ("@ + spec_decimal((milli / 1000) as nat) + seq!['.'] + spec_pad3(
            (milli % 1000) as nat,
        ) + "%)"@
    }
}

/// Three digits, zero-padded.
pub open spec fn spec_pad3(n: nat) -> Seq<char> {
    if n < 10 {
        seq!['0', '0'] + spec_decimal(n)
    } else if n < 100 {
        seq!['0'] + spec_decimal(n)
    } else {
        spec_decimal(n)
    }
}

fn pad3(n: u64) -> (r: String)
    requires
        n < 1000,
    ensures
        r@ == spec_pad3(n as nat),
{
    if n < 10 {
        let mut r = String::from_str("00");
        let d = u64_to_string(n);
        r.append(d.as_str());
        proof {
            reveal_strlit("00");
            assert(r@ =~= spec_pad3(n as nat));
        }
        r
    } else if n < 100 {
        let mut r = String::from_str("0");
        let d = u64_to_string(n);
        r.append(d.as_str());
        proof {
            reveal_strlit("0");
            assert(r@ =~= spec_pad3(n as nat));
        }
        r
    } else {
        u64_to_string(n)
    }
}

fn description(on: bool, count: usize, total: usize) -> (r: String)
    requires
        count <= total,
    ensures
        r@ == spec_description(on, count as int, total as int),
{
    if total == 0 || count == 0 {
        String::from_str("off: no votes")
    } else {
        let milli_wide: u128 = (100000u128 * (count as u128) + (total as u128) / 2) / (
        total as u128);
        proof {
            assert(100000 * (count as int) + (total as int) / 2 <= 100000 * (total as int) + (
            total as int) / 2);
            assert((100000 * (count as int) + (total as int) / 2) / (total as int) <= (100000 * (
            total as int) + (total as int) / 2) / (total as int)) by {
                vstd::arithmetic::div_mod::lemma_div_is_ordered(
                    100000 * (count as int) + (total as int) / 2,
                    100000 * (total as int) + (total as int) / 2,
                    total as int,
                );
            }
            assert((100000 * (total as int) + (total as int) / 2) / (total as int) < 100001) by {
                let t = total as int;
                assert(100000 * t + t / 2 < t * 100001) by (nonlinear_arith)
                    requires
                        t >= 1,
                ;
                vstd::arithmetic::div_mod::lemma_multiply_divide_lt(
                    100000 * t + t / 2,
                    t,
                    100001,
                );
            }
        }
        let milli: u64 = milli_wide as u64;
        let mut r = if on {
            String::from_str("on")
        } else {
            String::from_str("off")
        };
        r.append(" (");
        let whole = u64_to_string(milli / 1000);
        r.append(whole.as_str());
        push_char(&mut r, '.');
        let frac = pad3(milli % 1000);
        r.append(frac.as_str());
        r.append("%)");
        proof {
            assert(r@ =~= spec_description(on, count as int, total as int));
        }
        r
    }
}

impl Settings {
    /// The four settings lines, one per mode; blitz is always on and not
    /// voted on.
    pub fn lines(&self) -> (r: Vec<String>)
        requires
            self.wf(),
        ensures
            r@.len() == 4,
            r@[0]@ == "Bullet: "@ + spec_description(
                self.game_modes.bullet,
                self.bullet as int,
                self.total as int,
            ),
            r@[1]@ == "Blitz: always on"@,
            r@[2]@ == "Rapid: "@ + spec_description(
                self.game_modes.rapid,
                self.rapid as int,
                self.total as int,
            ),
            r@[3]@ == "Classical: "@ + spec_description(
                self.game_modes.classical,
                self.classical as int,
                self.total as int,
            ),
    {
        let bullet = description(self.game_modes.bullet, self.bullet, self.total);
        let rapid = description(self.game_modes.rapid, self.rapid, self.total);
        let classical = description(self.game_modes.classical, self.classical, self.total);

        let mut r: Vec<String> = Vec::new();
        r.push(concat2("Bullet: ", bullet.as_str()));
        r.push(String::from_str("Blitz: always on"));
        r.push(concat2("Rapid: ", rapid.as_str()));
        r.push(concat2("Classical: ", classical.as_str()));
        r
    }
}

} // verus!
