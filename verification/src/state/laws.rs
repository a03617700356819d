//! Properties of the overlay state machine that hold across operations.

use vstd::prelude::*;
use crate::discord::{DiscordEvent, Participant, UserId};
use super::participant::{ParticipantState, SPEAKING_HOLD_NANOS, state_of};
use super::{
    AppV, event_fits, first_index, index_from, layout_fits, spec_handle_event, speaking_updated,
    segment_finished, ring_cleared, min_nat,
};
use super::draw::visible_window;
use super::ticks::lemma_index_in_range;

verus! {

/// The invariant survives every Discord event.
pub proof fn lemma_event_keeps_wf(s: AppV, e: DiscordEvent, now: u64)
    requires
        s.wf(),
        event_fits(s, e, now),
    ensures
        spec_handle_event(s, e, now).0.wf(),
{
    reveal(layout_fits);
    match e {
        DiscordEvent::UserLeft { user_id } => {
            lemma_index_in_range(s.participants, user_id.0@, 0);
        },
        DiscordEvent::ParticipantStateUpdate { user_id, muted, deafened } => {
            lemma_index_in_range(s.participants, user_id.0@, 0);
        },
        DiscordEvent::SpeakingUpdate { user_id, speaking } => {
            lemma_index_in_range(s.participants, user_id.0@, 0);
        },
        _ => {},
    }
}

/// No two participants share an id.
pub open spec fn unique_ids(ps: Seq<ParticipantState>) -> bool {
    forall|i: int, j: int| 0 <= i < j < ps.len() ==> ps[i].user_id.0@ != ps[j].user_id.0@
}

proof fn lemma_index_none(s: Seq<ParticipantState>, id: Seq<char>, start: int)
    requires
        0 <= start,
        index_from(s, id, start) is None,
    ensures
        forall|i: int| start <= i < s.len() ==> s[i].user_id.0@ != id,
    decreases s.len() - start,
{
    if start < s.len() {
        lemma_index_none(s, id, start + 1);
    }
}

proof fn lemma_index_found(s: Seq<ParticipantState>, id: Seq<char>, start: int, k: int)
    requires
        0 <= start <= k < s.len(),
        s[k].user_id.0@ == id,
    ensures
        index_from(s, id, start) is Some,
    decreases k - start,
{
    if s[start].user_id.0@ != id {
        lemma_index_found(s, id, start + 1, k);
    }
}

/// A repeated join event changes nothing: the participant is already listed.
pub proof fn lemma_join_idempotent(s: AppV, p: Participant, now: u64)
    requires
        s.wf(),
        event_fits(s, DiscordEvent::UserJoined(p), now),
    ensures
        ({
            let s1 = spec_handle_event(s, DiscordEvent::UserJoined(p), now).0;
            spec_handle_event(s1, DiscordEvent::UserJoined(p), now) == (s1, false)
        }),
{
    let s1 = spec_handle_event(s, DiscordEvent::UserJoined(p), now).0;
    match first_index(s.participants, p.user_id.0@) {
        Some(i) => {},
        None => {
            let ps = s.participants.push(state_of(p));
            assert(s1.participants == ps);
            lemma_index_found(ps, p.user_id.0@, 0, ps.len() - 1);
        },
    }
}

/// Joins never list anyone twice: ids that were unique stay unique, and the
/// join of someone already listed changes nothing and asks for no redraw.
pub proof fn lemma_join_keeps_ids_unique(s: AppV, p: Participant, now: u64)
    requires
        s.wf(),
        event_fits(s, DiscordEvent::UserJoined(p), now),
        unique_ids(s.participants),
    ensures
        unique_ids(spec_handle_event(s, DiscordEvent::UserJoined(p), now).0.participants),
        (exists|i: int| 0 <= i < s.participants.len() && #[trigger] s.participants[i].user_id.0@ == p.user_id.0@)
            ==> spec_handle_event(s, DiscordEvent::UserJoined(p), now) == (s, false),
{
    if exists|i: int| 0 <= i < s.participants.len() && #[trigger] s.participants[i].user_id.0@ == p.user_id.0@ {
        let k = choose|i: int| 0 <= i < s.participants.len() && #[trigger] s.participants[i].user_id.0@ == p.user_id.0@;
        lemma_index_found(s.participants, p.user_id.0@, 0, k);
    }
    match first_index(s.participants, p.user_id.0@) {
        Some(i) => {},
        None => {
            lemma_index_none(s.participants, p.user_id.0@, 0);
            let ps = s.participants.push(state_of(p));
            assert(spec_handle_event(s, DiscordEvent::UserJoined(p), now).0.participants == ps);
            assert forall|i: int, j: int| 0 <= i < j < ps.len() implies ps[i].user_id.0@ != ps[j].user_id.0@ by {
                if j == ps.len() - 1 {
                    assert(ps[j] == state_of(p));
                }
            }
        },
    }
}

/// Losing the connection always ends in the idle state: nobody listed, no
/// channel or guild, not muted or deafened, hidden, and 64 px tall.
pub proof fn lemma_disconnect_idles(s: AppV, now: u64)
    ensures
        ({
            let (t, redraw) = spec_handle_event(s, DiscordEvent::Disconnected, now);
            &&& redraw
            &&& t.participants.len() == 0
            &&& !t.in_channel
            &&& t.channel_name is None
            &&& t.guild_name is None
            &&& !t.discord_mute && !t.discord_deaf
            &&& t.scroll_offset == 0
            &&& t.height == 64
            &&& t.effects.contains(super::EffectV::HideNow)
        }),
{
    let t = spec_handle_event(s, DiscordEvent::Disconnected, now).0;
    let k: int = s.effects.len() as int + 11;
    assert(t.effects[k] == super::EffectV::HideNow);
}

/// A speaking notice keeps the ring up for 1.5 s from its arrival; a silence
/// notice takes it down. Talk time never decreases either way.
pub proof fn lemma_speaking_ring(p: ParticipantState, speaking: bool, now: u64)
    requires
        now + SPEAKING_HOLD_NANOS <= u64::MAX,
    ensures
        speaking ==> speaking_updated(p, speaking, now).speaking_until == Some((now + SPEAKING_HOLD_NANOS) as u64),
        !speaking ==> speaking_updated(p, speaking, now).speaking_until is None,
        speaking_updated(p, speaking, now).talk_time_ns >= p.talk_time_ns,
{
}

/// A ring clears exactly once its time is up, and clearing it keeps the talk
/// time that was accumulated.
pub proof fn lemma_ring_expiry(p: ParticipantState, now: u64)
    ensures
        (p.speaking_until matches Some(t) && t <= now) ==> ring_cleared(p, now).speaking_until is None,
        !(p.speaking_until matches Some(t) && t <= now) ==> ring_cleared(p, now) == p,
        ring_cleared(p, now).talk_time_ns >= p.talk_time_ns,
{
}

proof fn lemma_index_first(s: Seq<ParticipantState>, id: Seq<char>, start: int, k: int)
    requires
        0 <= start <= k < s.len(),
        s[k].user_id.0@ == id,
        forall|j: int| start <= j < k ==> s[j].user_id.0@ != id,
    ensures
        index_from(s, id, start) == Some(k),
    decreases k - start,
{
    if start < k {
        lemma_index_first(s, id, start + 1, k);
    }
}

/// A mute/deafen update for a listed user sets exactly the flags the event
/// carries on the first participant with that id; every other participant
/// and every other field of that participant stay as they were, and a
/// redraw is asked for exactly when a flag changed.
pub proof fn lemma_state_update_sets_flags(s: AppV, user_id: UserId, muted: bool, deafened: bool, now: u64, i: int)
    requires
        0 <= i < s.participants.len(),
        s.participants[i].user_id.0@ == user_id.0@,
        forall|j: int| 0 <= j < i ==> s.participants[j].user_id.0@ != user_id.0@,
    ensures
        ({
            let (s1, r) = spec_handle_event(s, DiscordEvent::ParticipantStateUpdate { user_id, muted, deafened }, now);
            &&& s1.participants.len() == s.participants.len()
            &&& s1.participants[i].muted == muted
            &&& s1.participants[i].deafened == deafened
            &&& s1.participants[i].user_id == s.participants[i].user_id
            &&& s1.participants[i].display_name == s.participants[i].display_name
            &&& s1.participants[i].speaking_until == s.participants[i].speaking_until
            &&& s1.participants[i].talk_time_ns == s.participants[i].talk_time_ns
            &&& forall|j: int| 0 <= j < s.participants.len() && j != i ==> s1.participants[j] == s.participants[j]
            &&& s1.in_channel == s.in_channel
            &&& s1.width == s.width && s1.height == s.height
            &&& r == (s.participants[i].muted != muted || s.participants[i].deafened != deafened)
        }),
{
    lemma_index_first(s.participants, user_id.0@, 0, i);
}

/// Each visible row shows the participant at its position in the list,
/// counted from the scroll offset, with that participant's own mute and
/// deafen flags.
pub proof fn lemma_rows_carry_flags(s: AppV, now: u64)
    requires
        s.scroll_offset <= s.participants.len(),
    ensures
        visible_window(s, now).len() == min_nat((s.participants.len() - s.scroll_offset) as nat, s.max_visible_rows as nat),
        forall|k: int| 0 <= k < visible_window(s, now).len() ==> {
            let row = #[trigger] visible_window(s, now)[k];
            let p = s.participants[s.scroll_offset + k];
            &&& row.user_id == p.user_id
            &&& row.muted == p.muted
            &&& row.deafened == p.deafened
        },
{
    assert forall|k: int| 0 <= k < visible_window(s, now).len() implies {
        let row = #[trigger] visible_window(s, now)[k];
        let p = s.participants[s.scroll_offset + k];
        &&& row.user_id == p.user_id
        &&& row.muted == p.muted
        &&& row.deafened == p.deafened
    } by {
        assert(visible_window(s, now)[k] == super::draw::row_at(s, s.scroll_offset + k, now));
    }
}

/// In compact mode the surface holds one 48 px slot per shown avatar, plus
/// one slot for the "+N" badge when not everyone fits, and 16 px of padding;
/// it is never narrower than 120 px, and it is 48 px tall.
pub proof fn lemma_compact_slots(s: AppV)
    requires
        s.compact,
        layout_fits(s.participants.len(), s.max_visible_rows as nat, s.compact_max_rows as nat),
    ensures
        s.participants.len() > s.compact_max_rows ==> s.compact_resized().width as int == {
            let w = (s.compact_max_rows + 1) * 48 + 16;
            if w < 120 { 120 } else { w }
        },
        s.participants.len() <= s.compact_max_rows ==> s.compact_resized().width as int == {
            let n: int = if s.participants.len() == 0 { 1 } else { s.participants.len() as int };
            if n * 48 + 16 < 120 { 120 } else { n * 48 + 16 }
        },
        s.compact_resized().height == 48,
{
    reveal(layout_fits);
}

/// A participant list received in compact mode resizes the surface to one
/// slot per shown avatar plus one for the "+N" badge when the list is longer
/// than the compact row limit.
pub proof fn lemma_compact_list_width(s: AppV, participants: Vec<Participant>, channel_name: Option<String>, now: u64)
    requires
        s.compact,
        event_fits(s, DiscordEvent::VoiceParticipants { participants, channel_name }, now),
        participants@.len() > s.compact_max_rows,
    ensures
        ({
            let s1 = spec_handle_event(s, DiscordEvent::VoiceParticipants { participants, channel_name }, now).0;
            let w = (s.compact_max_rows + 1) * 48 + 16;
            &&& s1.width as int == if w < 120 { 120 } else { w }
            &&& s1.height == 48
        }),
{
    reveal(layout_fits);
}

} // verus!
