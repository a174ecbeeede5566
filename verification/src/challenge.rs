//! The challenge manager: at most one outbound challenge, a timeout that
//! cancels it, and the translation of remote status transitions into
//! internal effects.

use vstd::prelude::*;

use crate::effects::Effect;
use crate::events::EventQueue;
use crate::events::Notification;

verus! {

/// How long an outbound challenge may wait before it is cancelled, in
/// seconds.
pub const MAX_OUTBOUND_CHALLENGE_WAIT_SECS: u64 = 20;

/// The status of a challenge on the chess service.
#[derive(Clone, Copy, Debug, PartialEq, Eq, Structural)]
pub enum ChallengeStatus {
    Created,
    Offline,
    Canceled,
    Declined,
    Accepted,
}

/// What a challenge event carries, as plain values.
#[derive(Clone, Debug)]
pub struct ChallengeInfo {
    pub id: String,
    pub status: ChallengeStatus,
    pub challenger_id: String,
    pub variant: String,
}

/// A challenge, with the moment it was recorded.
#[derive(Clone, Debug)]
pub struct Challenge {
    pub challenge: ChallengeInfo,
    pub timestamp: u64,
}

/// The outbound challenge; the cancel timer itself runs outside and is
/// spoken to through effects.
#[derive(Clone, Debug)]
pub struct OutboundChallenge {
    pub challenge: Challenge,
}

/// Owns the at-most-one outbound challenge.
#[derive(Debug)]
pub struct ChallengeManager {
    pub our_id: String,
    pub outbound: Option<OutboundChallenge>,
}

/// How many outbound challenges a manager holds.
pub open spec fn outbound_count(m: ChallengeManager) -> int {
    if m.outbound is Some {
        1
    } else {
        0
    }
}

/// At most one outbound challenge exists at any moment: the manager holds
/// them in an optional slot, never a collection.
pub proof fn lemma_at_most_one_outbound(m: ChallengeManager)
    ensures
        outbound_count(m) <= 1,
{
}

impl ChallengeManager {
    pub fn new(our_id: String) -> (r: ChallengeManager)
        ensures
            r.our_id == our_id,
            r.outbound is None,
    {
        ChallengeManager { our_id, outbound: None }
    }

    pub fn outbound(&self) -> (r: &Option<OutboundChallenge>)
        ensures
            *r == self.outbound,
    {
        &self.outbound
    }

    /// Drop the outbound challenge and stop its cancel timer. No remote
    /// cancel goes out: the caller either sent one already, or the
    /// challenge is known gone.
    pub fn cancel_outbound(&mut self, effects: &mut Vec<Effect>)
        ensures
            final(self).outbound is None,
            final(self).our_id == old(self).our_id,
            (if old(self).outbound is Some {
                final(effects)@ == old(effects)@.push(Effect::CancelChallengeTimer)
            } else {
                final(effects)@ == old(effects)@
            }),
    {
        if self.outbound.is_some() {
            effects.push(Effect::CancelChallengeTimer);
        }
        self.outbound = None;
    }

    /// Dispatch a challenge event by its status.
    pub fn process_challenge(
        &mut self,
        challenge: ChallengeInfo,
        now: u64,
        queue: &mut EventQueue,
        effects: &mut Vec<Effect>,
    )
        ensures
            final(self).our_id == old(self).our_id,
            (match challenge.status {
                ChallengeStatus::Created => created_applied(
                    *old(self),
                    *final(self),
                    challenge,
                    now,
                    old(queue).events@,
                    final(queue).events@,
                    old(effects)@,
                    final(effects)@,
                ),
                _ => nullify_applied(
                    *old(self),
                    *final(self),
                    challenge,
                    old(queue).events@,
                    final(queue).events@,
                    old(effects)@,
                    final(effects)@,
                ),
            }),
    {
        match challenge.status {
            ChallengeStatus::Created => self.process_challenge_created(challenge, now, effects),
            ChallengeStatus::Offline => self.nullify_challenge(challenge, queue, effects),
            ChallengeStatus::Canceled => self.process_challenge_canceled(challenge, queue, effects),
            ChallengeStatus::Declined => self.process_challenge_declined(challenge, queue, effects),
            ChallengeStatus::Accepted => self.nullify_challenge(challenge, queue, effects),
        }
    }

    /// A challenge we created becomes the outbound challenge, with its
    /// cancel timer started. Anyone else's challenge is left to the
    /// engine's policy and changes nothing here.
    pub fn process_challenge_created(
        &mut self,
        challenge: ChallengeInfo,
        now: u64,
        effects: &mut Vec<Effect>,
    )
        ensures
            final(self).our_id == old(self).our_id,
            created_applied(
                *old(self),
                *final(self),
                challenge,
                now,
                Seq::<crate::events::Event>::empty(),
                Seq::<crate::events::Event>::empty(),
                old(effects)@,
                final(effects)@,
            ),
    {
        if !crate::text::str_eq(challenge.challenger_id.as_str(), self.our_id.as_str()) {
            return ;
        }
        let id = challenge.id.clone();
        self.outbound = Some(
            OutboundChallenge { challenge: Challenge { challenge, timestamp: now } },
        );
        effects.push(
            Effect::ScheduleChallengeCancel {
                challenge_id: id,
                seconds: MAX_OUTBOUND_CHALLENGE_WAIT_SECS,
            },
        );
        proof {
            assert(effects@.subrange(0, old(effects)@.len() as int) =~= old(effects)@);
        }
    }

    pub fn process_challenge_canceled(
        &mut self,
        challenge: ChallengeInfo,
        queue: &mut EventQueue,
        effects: &mut Vec<Effect>,
    )
        ensures
            final(self).our_id == old(self).our_id,
            nullify_applied(
                *old(self),
                *final(self),
                challenge,
                old(queue).events@,
                final(queue).events@,
                old(effects)@,
                final(effects)@,
            ),
    {
        self.nullify_challenge(challenge, queue, effects);
    }

    pub fn process_challenge_declined(
        &mut self,
        challenge: ChallengeInfo,
        queue: &mut EventQueue,
        effects: &mut Vec<Effect>,
    )
        ensures
            final(self).our_id == old(self).our_id,
            nullify_applied(
                *old(self),
                *final(self),
                challenge,
                old(queue).events@,
                final(queue).events@,
                old(effects)@,
                final(effects)@,
            ),
    {
        self.nullify_challenge(challenge, queue, effects);
    }

    /// A status transition for the outbound challenge clears it, stops its
    /// cancel timer and announces the nullification. Any other challenge
    /// changes nothing.
    pub fn nullify_challenge(
        &mut self,
        challenge: ChallengeInfo,
        queue: &mut EventQueue,
        effects: &mut Vec<Effect>,
    )
        ensures
            final(self).our_id == old(self).our_id,
            nullify_applied(
                *old(self),
                *final(self),
                challenge,
                old(queue).events@,
                final(queue).events@,
                old(effects)@,
                final(effects)@,
            ),
    {
        let is_outbound = match &self.outbound {
            Some(outbound) => crate::text::str_eq(
                challenge.id.as_str(),
                outbound.challenge.challenge.id.as_str(),
            ),
            None => false,
        };
        if is_outbound {
            queue.push_notification(Notification::OutboundChallengeNullified);
            effects.push(Effect::CancelChallengeTimer);
            self.outbound = None;
        }
    }
}

/// What recording a created challenge does.
pub open spec fn created_applied(
    old_m: ChallengeManager,
    new_m: ChallengeManager,
    challenge: ChallengeInfo,
    now: u64,
    old_q: Seq<crate::events::Event>,
    new_q: Seq<crate::events::Event>,
    old_e: Seq<Effect>,
    new_e: Seq<Effect>,
) -> bool {
    &&& new_q == old_q
    &&& (if challenge.challenger_id@ == old_m.our_id@ {
        &&& (new_m.outbound matches Some(o) && o.challenge.challenge == challenge
            && o.challenge.timestamp == now)
        &&& new_e.len() == old_e.len() + 1
        &&& new_e.subrange(0, old_e.len() as int) == old_e
        &&& (new_e.last() matches Effect::ScheduleChallengeCancel { challenge_id, seconds }
            && challenge_id@ == challenge.id@ && seconds == MAX_OUTBOUND_CHALLENGE_WAIT_SECS)
    } else {
        new_m.outbound == old_m.outbound && new_e == old_e
    })
}

/// What a nullifying status transition does.
pub open spec fn nullify_applied(
    old_m: ChallengeManager,
    new_m: ChallengeManager,
    challenge: ChallengeInfo,
    old_q: Seq<crate::events::Event>,
    new_q: Seq<crate::events::Event>,
    old_e: Seq<Effect>,
    new_e: Seq<Effect>,
) -> bool {
    if old_m.outbound matches Some(o) && o.challenge.challenge.id@ == challenge.id@ {
        &&& new_m.outbound is None
        &&& new_q == old_q.push(
            crate::events::Event::Notification(Notification::OutboundChallengeNullified),
        )
        &&& new_e == old_e.push(Effect::CancelChallengeTimer)
    } else {
        new_m.outbound == old_m.outbound && new_q == old_q && new_e == old_e
    }
}

} // verus!
