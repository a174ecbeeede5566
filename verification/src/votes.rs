//! Game votes: one vote per user inside a bounded window, a capped delay
//! mechanism, and the tally that elects the action to commit.

use vstd::prelude::*;

use crate::collections::StrMap;
use crate::model::Delays;
use crate::model::Speed;
use crate::model::VoteStats;
use crate::model::spec_max_delays;
use crate::model::spec_vote_seconds;
use crate::model::vote_parameters;

verus! {

/// One user's vote: defer the commit, offer a draw, resign, or play the
/// move written in canonical UCI.
#[derive(Debug, Eq, Hash)]
pub enum Vote {
    Delay,
    Draw,
    Resign,
    Move(String),
}

/// Vote equality: same variant, and for moves the same text.
pub open spec fn vote_eq(a: Vote, b: Vote) -> bool {
    match (a, b) {
        (Vote::Delay, Vote::Delay) => true,
        (Vote::Draw, Vote::Draw) => true,
        (Vote::Resign, Vote::Resign) => true,
        (Vote::Move(x), Vote::Move(y)) => x@ == y@,
        _ => false,
    }
}

impl Clone for Vote {
    fn clone(&self) -> (r: Vote)
        ensures
            r == *self,
    {
        match self {
            Vote::Delay => Vote::Delay,
            Vote::Draw => Vote::Draw,
            Vote::Resign => Vote::Resign,
            Vote::Move(m) => Vote::Move(m.clone()),
        }
    }
}

impl PartialEq for Vote {
    fn eq(&self, other: &Vote) -> (r: bool) {
        match (self, other) {
            (Vote::Delay, Vote::Delay) => true,
            (Vote::Draw, Vote::Draw) => true,
            (Vote::Resign, Vote::Resign) => true,
            (Vote::Move(x), Vote::Move(y)) => crate::text::str_eq(x.as_str(), y.as_str()),
            _ => false,
        }
    }
}

impl vstd::std_specs::cmp::PartialEqSpecImpl for Vote {
    open spec fn obeys_eq_spec() -> bool {
        true
    }

    open spec fn eq_spec(&self, other: &Vote) -> bool {
        vote_eq(*self, *other)
    }
}

impl Vote {
    /// The vote's display text; a move shows its UCI.
    pub open spec fn spec_string(&self) -> Seq<char> {
        match self {
            Vote::Delay => "delay"@,
            Vote::Draw => "draw"@,
            Vote::Resign => "resign"@,
            Vote::Move(m) => m@,
        }
    }

    pub fn to_string(&self) -> (r: String)
        ensures
            r@ == self.spec_string(),
    {
        match self {
            Vote::Delay => String::from_str("delay"),
            Vote::Draw => String::from_str("draw"),
            Vote::Resign => String::from_str("resign"),
            Vote::Move(m) => m.clone(),
        }
    }
}

/// How many entries of `entries` hold the vote `v`.
pub open spec fn spec_count(entries: Seq<(String, Vote)>, v: Vote) -> nat
    decreases entries.len(),
{
    if entries.len() == 0 {
        0
    } else {
        spec_count(entries.drop_last(), v) + if vote_eq(entries.last().1, v) {
            1nat
        } else {
            0nat
        }
    }
}

/// The running winner of the tally from entry `i` on, starting from
/// `best`: a later vote displaces the winner only with a strictly greater
/// count, so ties fall to the vote seen first.
pub open spec fn spec_top_from(entries: Seq<(String, Vote)>, i: int, best: Vote) -> Vote
    decreases entries.len() - i,
{
    if i < 0 || i >= entries.len() {
        best
    } else if spec_count(entries, entries[i].1) > spec_count(entries, best) {
        spec_top_from(entries, i + 1, entries[i].1)
    } else {
        spec_top_from(entries, i + 1, best)
    }
}

/// The tally's winner: the first-seen vote of greatest count, or nothing
/// without votes.
pub open spec fn spec_top_vote(entries: Seq<(String, Vote)>) -> Option<Vote> {
    if entries.len() == 0 {
        None
    } else {
        Some(spec_top_from(entries, 1, entries[0].1))
    }
}

/// Vote equality is reflexive.
pub proof fn lemma_vote_eq_refl(v: Vote)
    ensures
        vote_eq(v, v),
{
}

/// How many entries of `entries` belong to the user `u`.
pub open spec fn spec_user_entries(entries: Seq<(String, Vote)>, u: Seq<char>) -> nat
    decreases entries.len(),
{
    if entries.len() == 0 {
        0
    } else {
        spec_user_entries(entries.drop_last(), u) + if entries.last().0@ == u {
            1nat
        } else {
            0nat
        }
    }
}

/// One ballot per user: in a well-formed vote map a user owns at most one
/// entry, one exactly when the user has voted. However often a user
/// resubmits, the tally sees one ballot.
pub proof fn lemma_one_ballot_per_user(m: StrMap<Vote>, u: Seq<char>)
    requires
        m.wf(),
    ensures
        spec_user_entries(m.entries(), u) == if m.spec_contains(u) {
            1nat
        } else {
            0nat
        },
{
    lemma_user_entries_rec(m.entries(), u);
}

proof fn lemma_user_entries_rec(entries: Seq<(String, Vote)>, u: Seq<char>)
    requires
        forall|i: int, j: int| 0 <= i < j < entries.len() ==> entries[i].0@ != entries[j].0@,
    ensures
        spec_user_entries(entries, u) == if exists|i: int|
            0 <= i < entries.len() && entries[i].0@ == u {
            1nat
        } else {
            0nat
        },
    decreases entries.len(),
{
    if entries.len() > 0 {
        let pre = entries.drop_last();
        lemma_user_entries_rec(pre, u);
        let n = entries.len() - 1;
        if entries.last().0@ == u {
            assert(!(exists|i: int| 0 <= i < pre.len() && pre[i].0@ == u)) by {
                if exists|i: int| 0 <= i < pre.len() && pre[i].0@ == u {
                    let i = choose|i: int| 0 <= i < pre.len() && pre[i].0@ == u;
                    assert(entries[i].0@ != entries[n].0@);
                }
            }
            assert(exists|i: int| 0 <= i < entries.len() && entries[i].0@ == u) by {
                assert(entries[n].0@ == u);
            }
        } else {
            if exists|i: int| 0 <= i < entries.len() && entries[i].0@ == u {
                let i = choose|i: int| 0 <= i < entries.len() && entries[i].0@ == u;
                assert(pre[i].0@ == u);
            }
        }
    }
}

/// The vote tracker: admissions while the window is open, the delay
/// budget, and the countdown the presentation layer shows.
#[derive(Debug)]
pub struct VoteTracker {
    pub enabled: bool,
    pub delays: Delays,
    pub votes: StrMap<Vote>,
    pub vote_seconds: u64,
    pub seconds_remaining: u64,
    pub window_open: bool,
}

impl VoteTracker {
    pub open spec fn wf(&self) -> bool {
        self.delays.wf() && self.votes.wf()
    }

    /// A fresh tracker for a game of the given speed: disabled, no votes,
    /// no delays spent, window parameters from the speed table.
    pub fn new(speed: &Speed) -> (r: VoteTracker)
        ensures
            r.wf(),
            !r.enabled,
            r.delays.current == 0,
            r.delays.max == spec_max_delays(*speed),
            r.votes.entries().len() == 0,
            r.vote_seconds == spec_vote_seconds(*speed),
            r.seconds_remaining == 0,
            !r.window_open,
    {
        let (max_delays, vote_seconds) = vote_parameters(speed);
        VoteTracker {
            enabled: false,
            delays: Delays::new(max_delays),
            votes: StrMap::new(),
            vote_seconds,
            seconds_remaining: 0,
            window_open: false,
        }
    }

    /// Whether a vote would be admitted right now.
    pub open spec fn spec_admits(&self, vote: Vote) -> bool {
        self.enabled && (!(vote is Delay) || self.delays.current < self.delays.max)
    }

    /// Admit one user's vote. Ignored while disabled; a delay vote is also
    /// ignored once the delay budget is spent. An admitted vote replaces
    /// the user's earlier one. True exactly when admitted.
    pub fn add_vote(&mut self, user: String, vote: Vote) -> (admitted: bool)
        requires
            old(self).wf(),
        ensures
            final(self).wf(),
            admitted == old(self).spec_admits(vote),
            !admitted ==> *final(self) == *old(self),
            admitted ==> {
                &&& forall|k: Seq<char>|
                    final(self).votes.spec_get(k) == if k == user@ {
                        Some(vote)
                    } else {
                        old(self).votes.spec_get(k)
                    }
                &&& final(self).votes.entries().len() == old(self).votes.entries().len() + (
                if old(self).votes.spec_contains(user@) {
                    0int
                } else {
                    1int
                })
                &&& final(self).delays == old(self).delays
                &&& final(self).enabled == old(self).enabled
                &&& final(self).vote_seconds == old(self).vote_seconds
                &&& final(self).seconds_remaining == old(self).seconds_remaining
                &&& final(self).window_open == old(self).window_open
            },
    {
        if !self.enabled {
            return false;
        }
        let is_delay = match &vote {
            Vote::Delay => true,
            _ => false,
        };
        if is_delay && !self.delays.can_delay() {
            return false;
        }
        self.votes.insert(user, vote);
        true
    }

    /// Spend one delay; the counter stays within its cap.
    pub fn add_delay(&mut self)
        requires
            old(self).wf(),
        ensures
            final(self).wf(),
            final(self).delays.current == if old(self).delays.current < old(self).delays.max {
                old(self).delays.current + 1
            } else {
                old(self).delays.current as int
            },
            final(self).delays.max == old(self).delays.max,
            final(self).votes == old(self).votes,
            final(self).enabled == old(self).enabled,
            final(self).vote_seconds == old(self).vote_seconds,
            final(self).seconds_remaining == old(self).seconds_remaining,
            final(self).window_open == old(self).window_open,
    {
        self.delays.add_delay();
    }

    pub fn enable(&mut self)
        ensures
            *final(self) == (VoteTracker { enabled: true, ..*old(self) }),
    {
        self.enabled = true;
    }

    pub fn disable(&mut self)
        ensures
            *final(self) == (VoteTracker { enabled: false, ..*old(self) }),
    {
        self.enabled = false;
    }

    /// Open a fresh vote window: the countdown restarts at the speed's
    /// window length. Votes and delays stay as they are.
    pub fn schedule_action_vote(&mut self)
        ensures
            *final(self) == (VoteTracker {
                window_open: true,
                seconds_remaining: old(self).vote_seconds,
                ..*old(self)
            }),
    {
        self.window_open = true;
        self.seconds_remaining = self.vote_seconds;
    }

    /// One second of the window passed.
    pub fn tick(&mut self)
        ensures
            *final(self) == (VoteTracker {
                seconds_remaining: if old(self).seconds_remaining > 0 {
                    (old(self).seconds_remaining - 1) as u64
                } else {
                    0u64
                },
                ..*old(self)
            }),
    {
        if self.seconds_remaining > 0 {
            self.seconds_remaining = self.seconds_remaining - 1;
        }
    }

    /// Forget the votes and close the window; the delay counter stays.
    pub fn reset_voting(&mut self)
        requires
            old(self).wf(),
        ensures
            final(self).wf(),
            final(self).votes.entries().len() == 0,
            final(self).delays == old(self).delays,
            final(self).enabled == old(self).enabled,
            final(self).vote_seconds == old(self).vote_seconds,
            final(self).seconds_remaining == 0,
            !final(self).window_open,
    {
        self.votes.clear();
        self.window_open = false;
        self.seconds_remaining = 0;
    }

    /// A new turn: forget the votes and the delays both.
    pub fn reset(&mut self)
        requires
            old(self).wf(),
        ensures
            final(self).wf(),
            final(self).votes.entries().len() == 0,
            final(self).delays.current == 0,
            final(self).delays.max == old(self).delays.max,
            final(self).enabled == old(self).enabled,
            final(self).vote_seconds == old(self).vote_seconds,
            final(self).seconds_remaining == 0,
            !final(self).window_open,
    {
        self.delays = Delays::new(self.delays.max);
        self.reset_voting();
    }

    /// The winning vote: one with the greatest tally, or nothing when no
    /// votes came in. Ties fall to the vote seen first.
    pub fn get_top_vote(&self) -> (r: Option<Vote>)
        requires
            self.wf(),
        ensures
            r is None <==> self.votes.entries().len() == 0,
            (match r {
                Some(v) => spec_top_vote(self.votes.entries()) matches Some(tv) && vote_eq(v, tv),
                None => spec_top_vote(self.votes.entries()) is None,
            }),
            r matches Some(v) ==> spec_count(self.votes.entries(), v) >= 1 && (forall|w: Vote|
                spec_count(self.votes.entries(), w) <= spec_count(self.votes.entries(), v)),
    {
        let entries = self.votes.as_vec();
        let n = entries.len();
        if n == 0 {
            return None;
        }
        let mut best: Vote = entries[0].1.clone();
        let mut best_count: u64 = count_vote(entries, &best);
        proof {
            lemma_count_all_bounded(entries@, best);
        }
        let mut i: usize = 1;
        while i < n
            invariant
                n == entries@.len(),
                n >= 1,
                i <= n,
                best_count == spec_count(entries@, best),
                best_count >= 1 || spec_count(entries@, best) >= 1,
                spec_count(entries@, best) >= 1,
                spec_top_from(entries@, i as int, best) == spec_top_vote(entries@)->Some_0,
                forall|j: int|
                    0 <= j < i ==> spec_count(entries@, entries@[j].1) <= best_count,
            decreases n - i,
        {
            let candidate = entries[i].1.clone();
            let c = count_vote(entries, &candidate);
            if c > best_count {
                best = candidate;
                best_count = c;
            }
            i = i + 1;
        }
        proof {
            assert(vote_eq(best, spec_top_vote(entries@)->Some_0)) by {
                lemma_vote_eq_refl(best);
            }
        }
        proof {
            assert forall|w: Vote|
                spec_count(self.votes.entries(), w) <= spec_count(
                    self.votes.entries(),
                    best,
                ) by {
                lemma_count_witness(entries@, w);
                if spec_count(entries@, w) > 0 {
                    let j = choose|j: int|
                        0 <= j < entries@.len() && vote_eq(entries@[j].1, w);
                    lemma_count_eq(entries@, entries@[j].1, w);
                }
            }
        }
        Some(best)
    }
}

/// Count the entries holding `v`.
fn count_vote(entries: &Vec<(String, Vote)>, v: &Vote) -> (r: u64)
    requires
        entries@.len() <= u64::MAX,
    ensures
        r == spec_count(entries@, *v),
{
    let n = entries.len();
    let mut i: usize = 0;
    let mut r: u64 = 0;
    while i < n
        invariant
            n == entries@.len(),
            i <= n,
            n <= u64::MAX,
            r == spec_count(entries@.subrange(0, i as int), *v),
            r <= i,
        decreases n - i,
    {
        proof {
            assert(entries@.subrange(0, i + 1).drop_last() =~= entries@.subrange(0, i as int));
            assert(entries@.subrange(0, i + 1).last() == entries@[i as int]);
        }
        if entries[i].1.eq(v) {
            r = r + 1;
        }
        i = i + 1;
    }
    proof {
        assert(entries@.subrange(0, n as int) =~= entries@);
    }
    r
}

/// A positive tally has a witness entry.
proof fn lemma_count_witness(entries: Seq<(String, Vote)>, v: Vote)
    ensures
        spec_count(entries, v) > 0 ==> exists|j: int|
            0 <= j < entries.len() && vote_eq(entries[j].1, v),
    decreases entries.len(),
{
    if entries.len() > 0 {
        lemma_count_witness(entries.drop_last(), v);
        if spec_count(entries, v) > 0 {
            if vote_eq(entries.last().1, v) {
                assert(vote_eq(entries[entries.len() - 1].1, v));
            } else {
                let j = choose|j: int|
                    0 <= j < entries.drop_last().len() && vote_eq(entries.drop_last()[j].1, v);
                assert(vote_eq(entries[j].1, v));
            }
        }
    }
}

/// Votes equal under `vote_eq` tally alike.
proof fn lemma_count_eq(entries: Seq<(String, Vote)>, a: Vote, b: Vote)
    requires
        vote_eq(a, b),
    ensures
        spec_count(entries, a) == spec_count(entries, b),
    decreases entries.len(),
{
    if entries.len() > 0 {
        lemma_count_eq(entries.drop_last(), a, b);
    }
}

/// An entry's own vote tallies at least one.
proof fn lemma_count_all_bounded(entries: Seq<(String, Vote)>, v: Vote)
    ensures
        entries.len() > 0 && vote_eq(entries[0].1, v) ==> spec_count(entries, v) >= 1,
    decreases entries.len(),
{
    if entries.len() > 1 {
        lemma_count_all_bounded(entries.drop_last(), v);
    }
}

/// The tally as shown on stream: counts grouped by each vote's display
/// text.
pub open spec fn spec_string_count(entries: Seq<(String, Vote)>, key: Seq<char>) -> nat
    decreases entries.len(),
{
    if entries.len() == 0 {
        0
    } else {
        spec_string_count(entries.drop_last(), key) + if entries.last().1.spec_string() == key {
            1nat
        } else {
            0nat
        }
    }
}

impl VoteTracker {
    /// The display tally: one entry per distinct vote text, counting its
    /// backers; delays and the window countdown go along.
    pub fn tally_by_string(&self) -> (r: StrMap<VoteStats>)
        requires
            self.wf(),
            self.votes.entries().len() <= u32::MAX,
        ensures
            r.wf(),
            forall|k: Seq<char>|
                #![trigger r.spec_get(k)]
                match r.spec_get(k) {
                    Some(stats) => stats.total_votes == spec_string_count(
                        self.votes.entries(),
                        k,
                    ) && stats.total_votes >= 1 && stats.vote_changes == 0,
                    None => spec_string_count(self.votes.entries(), k) == 0,
                },
    {
        let entries = self.votes.as_vec();
        let n = entries.len();
        let mut r: StrMap<VoteStats> = StrMap::new();
        let mut i: usize = 0;
        proof {
            assert forall|k: Seq<char>|
                spec_string_count(entries@.subrange(0, 0), k) == 0 by {
                assert(entries@.subrange(0, 0).len() == 0);
            }
        }
        while i < n
            invariant
                n == entries@.len(),
                n <= u32::MAX,
                i <= n,
                r.wf(),
                forall|k: Seq<char>|
                    #![trigger r.spec_get(k)]
                    match r.spec_get(k) {
                        Some(stats) => stats.total_votes == spec_string_count(
                            entries@.subrange(0, i as int),
                            k,
                        ) && stats.total_votes >= 1 && stats.vote_changes == 0,
                        None => spec_string_count(entries@.subrange(0, i as int), k) == 0,
                    },
            decreases n - i,
        {
            proof {
                assert(entries@.subrange(0, i + 1).drop_last() =~= entries@.subrange(0, i as int));
                assert(entries@.subrange(0, i + 1).last() == entries@[i as int]);
            }
            let key = entries[i].1.to_string();
            let updated = match r.get(key.as_str()) {
                Some(stats) => {
                    let mut s = *stats;
                    proof {
                        lemma_string_count_bound(entries@.subrange(0, i as int), key@);
                        assert(s.total_votes <= i);
                    }
                    s.total_votes = s.total_votes + 1;
                    s
                },
                None => VoteStats { vote_changes: 0, total_votes: 1 },
            };
            r.insert(key, updated);
            i = i + 1;
        }
        proof {
            assert(entries@.subrange(0, n as int) =~= entries@);
        }
        r
    }
}

/// A display tally never passes the number of entries.
proof fn lemma_string_count_bound(entries: Seq<(String, Vote)>, key: Seq<char>)
    ensures
        spec_string_count(entries, key) <= entries.len(),
    decreases entries.len(),
{
    if entries.len() > 0 {
        lemma_string_count_bound(entries.drop_last(), key);
    }
}


/// Window monotonicity: a disabled tracker admits nothing, so once the end
/// of voting has disabled it, no admission mutates the tally.
pub proof fn lemma_no_admission_when_disabled(t: VoteTracker, v: Vote)
    ensures
        !t.enabled ==> !t.spec_admits(v),
{
}

/// Delay cap: once the delay budget is spent, a delay vote is not
/// admitted, so no further delay can win a turn.
pub proof fn lemma_delay_cap(t: VoteTracker)
    requires
        t.wf(),
        t.delays.current == t.delays.max,
    ensures
        !t.spec_admits(Vote::Delay),
{
}

} // verus!
