//! Per-participant overlay state: identity, voice flags, speaking and talk time.

use vstd::prelude::*;
use crate::discord::{Participant, UserId};

verus! {

/// Nanoseconds in a second; the overlay's clock counts nanoseconds.
pub const NANOS_PER_SEC: u64 = 1_000_000_000;

/// How long the speaking ring stays after the last "speaking" notice (1.5 s).
pub const SPEAKING_HOLD_NANOS: u64 = 1_500_000_000;

/// Time from `since` to `now`, or zero when `now` is earlier.
pub open spec fn elapsed(now: u64, since: u64) -> nat {
    if now >= since { (now - since) as nat } else { 0 }
}

/// One participant as the overlay tracks it. Times are readings of a monotonic
/// clock in nanoseconds.
pub struct ParticipantState {
    pub user_id: UserId,
    pub display_name: String,
    pub muted: bool,
    pub deafened: bool,
    /// The speaking ring shows until this time.
    pub speaking_until: Option<u64>,
    /// True when this participant is animating out before removal.
    pub leaving: bool,
    /// Accumulated talk time from all completed speaking segments.
    pub talk_time_ns: u64,
    /// When the current speaking segment started (`None` if not speaking).
    pub speaking_started_at: Option<u64>,
    /// The whole seconds of talk time the participant's talk-time label shows.
    pub shown_talk_secs: Option<u64>,
}

impl ParticipantState {
    /// Total talk time in whole seconds, including any active segment.
    pub open spec fn talk_secs_at(self, now: u64) -> nat {
        (self.talk_time_ns / NANOS_PER_SEC) as nat + match self.speaking_started_at {
            Some(t) => elapsed(now, t) / (NANOS_PER_SEC as nat),
            None => 0,
        }
    }

    /// Total talk time including any currently-active speaking segment.
    pub fn current_talk_secs(&self, now: u64) -> (r: u64)
        ensures
            r == self.talk_secs_at(now),
    {
        let base = self.talk_time_ns / NANOS_PER_SEC;
        let current = match self.speaking_started_at {
            Some(t) => now.saturating_sub(t) / NANOS_PER_SEC,
            None => 0,
        };
        base + current
    }
}

impl Clone for ParticipantState {
    fn clone(&self) -> (r: Self)
        ensures
            r == *self,
    {
        ParticipantState {
            user_id: self.user_id.clone(),
            display_name: self.display_name.clone(),
            muted: self.muted,
            deafened: self.deafened,
            speaking_until: self.speaking_until,
            leaving: self.leaving,
            talk_time_ns: self.talk_time_ns,
            speaking_started_at: self.speaking_started_at,
            shown_talk_secs: self.shown_talk_secs,
        }
    }
}

/// The name the overlay shows for a participant: the nickname when there is one.
pub open spec fn display_name_of(p: Participant) -> String {
    match p.nick {
        Some(n) => n,
        None => p.username,
    }
}

/// A fresh participant state: not speaking, not leaving, no talk time.
pub open spec fn fresh_state(user_id: UserId, display_name: String, muted: bool, deafened: bool) -> ParticipantState {
    ParticipantState {
        user_id,
        display_name,
        muted,
        deafened,
        speaking_until: None,
        leaving: false,
        talk_time_ns: 0,
        speaking_started_at: None,
        shown_talk_secs: None,
    }
}

/// The state a Discord participant starts with.
pub open spec fn state_of(p: Participant) -> ParticipantState {
    fresh_state(p.user_id, display_name_of(p), p.muted, p.deafened)
}

/// Builder for ParticipantState with sensible defaults.
pub struct ParticipantStateBuilder {
    user_id: UserId,
    display_name: String,
    muted: bool,
    deafened: bool,
    leaving: bool,
}

impl ParticipantStateBuilder {
    /// The state `build` will produce.
    pub closed spec fn spec_result(self) -> ParticipantState {
        ParticipantState {
            leaving: self.leaving,
            ..fresh_state(self.user_id, self.display_name, self.muted, self.deafened)
        }
    }

    /// Create a new builder from a discord participant.
    pub fn from_discord(p: &Participant) -> (r: Self)
        ensures
            r.spec_result() == state_of(*p),
    {
        let display_name = match &p.nick {
            Some(n) => n.clone(),
            None => p.username.clone(),
        };
        ParticipantStateBuilder {
            user_id: p.user_id.clone(),
            display_name,
            muted: p.muted,
            deafened: p.deafened,
            leaving: false,
        }
    }

    /// Create a new builder with minimal required fields.
    pub fn new(user_id: &str, display_name: &str) -> (r: Self)
        ensures
            r.spec_result().user_id.0@ == user_id@,
            r.spec_result().display_name@ == display_name@,
            r.spec_result() == fresh_state(r.spec_result().user_id, r.spec_result().display_name, false, false),
    {
        ParticipantStateBuilder {
            user_id: UserId(user_id.to_owned()),
            display_name: display_name.to_owned(),
            muted: false,
            deafened: false,
            leaving: false,
        }
    }

    pub fn muted(self, muted: bool) -> (r: Self)
        ensures
            r.spec_result() == (ParticipantState { muted, ..self.spec_result() }),
    {
        ParticipantStateBuilder { muted, ..self }
    }

    pub fn deafened(self, deafened: bool) -> (r: Self)
        ensures
            r.spec_result() == (ParticipantState { deafened, ..self.spec_result() }),
    {
        ParticipantStateBuilder { deafened, ..self }
    }

    pub fn leaving(self, leaving: bool) -> (r: Self)
        ensures
            r.spec_result() == (ParticipantState { leaving, ..self.spec_result() }),
    {
        ParticipantStateBuilder { leaving, ..self }
    }

    pub fn build(self) -> (r: ParticipantState)
        ensures
            r == self.spec_result(),
    {
        ParticipantState {
            user_id: self.user_id,
            display_name: self.display_name,
            muted: self.muted,
            deafened: self.deafened,
            speaking_until: None,
            leaving: self.leaving,
            talk_time_ns: 0,
            speaking_started_at: None,
            shown_talk_secs: None,
        }
    }
}

} // verus!
