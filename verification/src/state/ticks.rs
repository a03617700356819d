//! The periodic updates: speaking rings that expire, the push-to-talk
//! indicator, the session timer, talk-time labels, removing participants
//! whose leave animation finished, and a reloaded configuration.

use vstd::prelude::*;
use crate::discord::UserId;
use crate::text::{clock_text, dec, initial_for_name, initial_text, talk_time_label, timer_label};
use super::participant::{NANOS_PER_SEC, ParticipantState, elapsed};
use super::{
    App, AppV, Effect, EffectV, effects_view, index_from, Label, UserTexture, first_index, layout_fits, segment_finished,
};
use super::app::{find_index, finish_segment};

verus! {

/// Whether a participant's speaking ring has run out at `now`.
pub open spec fn ring_expired(p: ParticipantState, now: u64) -> bool {
    p.speaking_until matches Some(t) && t <= now
}

/// A participant whose expired ring is cleared, ending the speaking segment.
pub open spec fn ring_cleared(p: ParticipantState, now: u64) -> ParticipantState {
    if ring_expired(p, now) {
        ParticipantState { speaking_until: None, ..segment_finished(p, now) }
    } else {
        p
    }
}

/// Whether the local user's ring shows at `now`.
pub open spec fn self_speaking(s: AppV, now: u64) -> bool {
    exists|i: int| 0 <= i < s.participants.len()
        && #[trigger] s.participants[i].user_id.0@ == s.self_user_id.0@
        && (s.participants[i].speaking_until matches Some(t) && t > now)
}

/// The session timer at `now`: whole seconds since joining, as a 32-bit count.
pub open spec fn timer_secs(joined: u64, now: u64) -> u32 {
    (elapsed(now, joined) / (NANOS_PER_SEC as nat)) as u32
}

pub open spec fn spec_tick_timer(s: AppV, now: u64) -> (AppV, bool) {
    match s.channel_joined_at {
        None => (s, false),
        Some(j) => {
            let e = timer_secs(j, now);
            if e == s.last_timer_secs {
                (s, false)
            } else {
                (
                    AppV { last_timer_secs: e, ..s }
                        .with_effect(EffectV::DeleteLabel(Label::Timer))
                        .with_effect(EffectV::RenderLabel(Label::Timer, seq!['\u{2022}', ' '] + clock_text(e as nat))),
                    true,
                )
            }
        },
    }
}

/// One participant's talk-time label at `now`: dropped while there is no
/// talk time, re-rendered when the whole seconds shown change.
pub open spec fn talk_step(p: ParticipantState, now: u64) -> (ParticipantState, Seq<EffectV>, bool) {
    let secs = p.talk_secs_at(now);
    if secs == 0 {
        if p.shown_talk_secs is Some {
            (
                ParticipantState { shown_talk_secs: None, ..p },
                seq![EffectV::DeleteUserTexture(UserTexture::TalkTime, p.user_id.0@)],
                true,
            )
        } else {
            (p, Seq::empty(), false)
        }
    } else {
        let last = match p.shown_talk_secs { Some(x) => x as nat, None => u64::MAX as nat };
        if secs == last {
            (p, Seq::empty(), false)
        } else {
            (
                ParticipantState { shown_talk_secs: Some(secs as u64), ..p },
                seq![EffectV::RenderTalkTime(p.user_id.0@, clock_text(secs))],
                true,
            )
        }
    }
}

/// `talk_step` applied to every participant in order.
pub open spec fn talk_steps(ps: Seq<ParticipantState>, now: u64) -> (Seq<ParticipantState>, Seq<EffectV>, bool)
    decreases ps.len(),
{
    if ps.len() == 0 {
        (Seq::empty(), Seq::empty(), false)
    } else {
        let (rest, effs, changed) = talk_steps(ps.drop_last(), now);
        let (p, e, c) = talk_step(ps.last(), now);
        (rest.push(p), effs + e, changed || c)
    }
}

/// The state after removing the first participant with id `id`, together
/// with its textures (nothing changes when there is none).
pub open spec fn removed_one(s: AppV, id: Seq<char>) -> AppV {
    match first_index(s.participants, id) {
        Some(i) => AppV { participants: s.participants.remove(i), ..s }
            .with_effect(EffectV::DeleteUserTexture(UserTexture::Name, id))
            .with_effect(EffectV::DeleteUserTexture(UserTexture::Initial, id))
            .with_effect(EffectV::DeleteUserTexture(UserTexture::Avatar, id))
            .with_effect(EffectV::DeleteUserTexture(UserTexture::TalkTime, id)),
        None => s,
    }
}

/// The state after removing, for each id in turn, the first participant
/// with that id, together with its textures.
pub open spec fn removed(s: AppV, ids: Seq<Seq<char>>) -> AppV
    decreases ids.len(),
{
    if ids.len() == 0 {
        s
    } else {
        removed_one(removed(s, ids.drop_last()), ids.last())
    }
}

/// The scroll offset pulled back so the last page is full, then the size
/// updated for the new participant count.
pub open spec fn settled(s: AppV) -> AppV {
    let len = s.participants.len();
    let max_offset: nat = if len >= s.max_visible_rows { (len - s.max_visible_rows) as nat } else { 0 };
    AppV {
        scroll_offset: if s.scroll_offset <= max_offset { s.scroll_offset } else { max_offset as usize },
        ..s
    }.after_count_change()
}

/// After participants finished animating out: they are removed, the scroll
/// offset is pulled back into range and the overlay resized.
pub open spec fn spec_finish_leaving(s: AppV, ids: Seq<Seq<char>>) -> (AppV, bool) {
    if ids.len() == 0 {
        (s, false)
    } else {
        (settled(removed(s, ids)), true)
    }
}

/// Texture refreshes after the font size may have changed: every
/// participant's name and initial, in list order.
pub open spec fn refresh_effects(ps: Seq<ParticipantState>) -> Seq<EffectV>
    decreases ps.len(),
{
    if ps.len() == 0 {
        Seq::empty()
    } else {
        let p = ps.last();
        refresh_effects(ps.drop_last()) + seq![
            EffectV::DeleteUserTexture(UserTexture::Name, p.user_id.0@),
            EffectV::RenderName(p.user_id.0@, p.display_name@),
            EffectV::DeleteUserTexture(UserTexture::Initial, p.user_id.0@),
            EffectV::EnsureInitial(p.user_id.0@, initial_text(p.display_name@)),
        ]
    }
}

/// The new row limit, with every participant's name and initial re-rendered.
pub open spec fn with_row_limit(s: AppV, max_rows: usize) -> AppV {
    AppV {
        max_visible_rows: max_rows,
        compact_max_rows: max_rows,
        effects: s.effects + refresh_effects(s.participants),
        ..s
    }
}

/// The channel label re-rendered (or dropped when there is no channel).
pub open spec fn channel_label_refreshed(s: AppV) -> AppV {
    let s1 = s.with_effect(EffectV::DeleteLabel(Label::ChannelName));
    match s1.channel_name {
        Some(n) => s1.with_effect(EffectV::RenderLabel(Label::ChannelName, seq!['#', ' '] + n@)),
        None => s1,
    }
}

/// The guild label re-rendered (or dropped when there is no guild name).
pub open spec fn guild_label_refreshed(s: AppV) -> AppV {
    let s1 = s.with_effect(EffectV::DeleteLabel(Label::GuildName));
    match s1.guild_name {
        Some(g) => s1.with_effect(EffectV::RenderLabel(Label::GuildName, g@)),
        None => s1,
    }
}

/// The channel, guild, timer and overflow labels re-rendered or dropped, and
/// the cached label states forgotten.
pub open spec fn labels_refreshed(s: AppV) -> AppV {
    let s3 = guild_label_refreshed(channel_label_refreshed(s));
    AppV {
        last_timer_secs: u32::MAX,
        last_participant_count: usize::MAX,
        last_scroll_state: (usize::MAX, usize::MAX),
        last_overflow_count: usize::MAX,
        ..s3.with_effect(EffectV::DeleteLabel(Label::Timer)).with_effect(EffectV::DeleteLabel(Label::OverflowBadge))
    }
}

/// The state after the configuration was reloaded with a new row limit:
/// every text texture is regenerated and the cached label states forgotten.
pub open spec fn spec_reload(s: AppV, max_rows: usize) -> AppV {
    labels_refreshed(with_row_limit(s, max_rows))
}

pub open spec fn opt_effect_seq(e: Option<Effect>) -> Seq<EffectV> {
    match e {
        Some(x) => seq![x@],
        None => Seq::empty(),
    }
}

/// One participant's talk-time label update at `now`.
fn talk_update(p: &mut ParticipantState, now: u64) -> (r: (Option<Effect>, bool))
    ensures
        (*final(p), opt_effect_seq(r.0), r.1) == talk_step(*old(p), now),
{
    let secs = p.current_talk_secs(now);
    if secs == 0 {
        if p.shown_talk_secs.is_some() {
            p.shown_talk_secs = None;
            (Some(Effect::DeleteUserTexture(UserTexture::TalkTime, p.user_id.clone())), true)
        } else {
            (None, false)
        }
    } else {
        let last = match p.shown_talk_secs {
            Some(x) => x,
            None => u64::MAX,
        };
        if secs != last {
            p.shown_talk_secs = Some(secs);
            (Some(Effect::RenderTalkTime(p.user_id.clone(), talk_time_label(secs))), true)
        } else {
            (None, false)
        }
    }
}

impl App {
    /// Clear expired speaking rings. Returns true if any ring was cleared.
    pub fn tick_speaking_expiry(&mut self, now: u64) -> (r: bool)
        ensures
            r == exists|i: int| 0 <= i < old(self)@.participants.len() && #[trigger] ring_expired(old(self)@.participants[i], now),
            final(self)@ == (AppV {
                participants: old(self)@.participants.map_values(|p: ParticipantState| ring_cleared(p, now)),
                ..old(self)@
            }),
            old(self)@.wf() ==> final(self)@.wf(),
    {
        let ghost s0 = self@;
        let mut any = false;
        let mut i: usize = 0;
        while i < self.participants.len()
            invariant
                i <= self.participants@.len(),
                self.participants@.len() == s0.participants.len(),
                forall|j: int| 0 <= j < i ==> self.participants@[j] == ring_cleared(s0.participants[j], now),
                forall|j: int| i <= j < s0.participants.len() ==> self.participants@[j] == s0.participants[j],
                self@ == (AppV { participants: self@.participants, ..s0 }),
                any == exists|j: int| 0 <= j < i && #[trigger] ring_expired(s0.participants[j], now),
            decreases self.participants.len() - i,
        {
            let mut p = self.participants[i].clone();
            let expired = match p.speaking_until {
                Some(t) => t <= now,
                None => false,
            };
            if expired {
                any = true;
                p.speaking_until = None;
                finish_segment(&mut p, now);
            }
            self.participants.set(i, p);
            i += 1;
        }
        proof {
            assert(self.participants@ =~= s0.participants.map_values(|p: ParticipantState| ring_cleared(p, now)));
        }
        any
    }

    /// Update push-to-talk active state. Returns true if the state changed.
    pub fn tick_ptt(&mut self, now: u64) -> (r: bool)
        ensures
            !old(self).ptt_mode ==> final(self)@ == old(self)@ && !r,
            old(self).ptt_mode ==> final(self)@ == (AppV { ptt_active: self_speaking(old(self)@, now), ..old(self)@ })
                && r == (old(self).ptt_active != self_speaking(old(self)@, now)),
    {
        if !self.ptt_mode {
            return false;
        }
        let mut speaking = false;
        let mut i: usize = 0;
        while i < self.participants.len()
            invariant
                i <= self.participants@.len(),
                speaking == exists|j: int| 0 <= j < i
                    && #[trigger] self@.participants[j].user_id.0@ == self@.self_user_id.0@
                    && (self@.participants[j].speaking_until matches Some(t) && t > now),
            decreases self.participants.len() - i,
        {
            let p = &self.participants[i];
            if crate::text::str_eq(p.user_id.as_str(), self.self_user_id.as_str()) {
                match p.speaking_until {
                    Some(t) => {
                        if t > now {
                            speaking = true;
                        }
                    },
                    None => {},
                }
            }
            i += 1;
        }
        if self.ptt_active != speaking {
            self.ptt_active = speaking;
            true
        } else {
            false
        }
    }

    /// Update the session timer label when the elapsed second changes.
    /// Returns true if the label changed (redraw needed).
    pub fn tick_timer(&mut self, now: u64) -> (r: bool)
        ensures
            (final(self)@, r) == spec_tick_timer(old(self)@, now),
    {
        let joined_at = match self.channel_joined_at {
            Some(t) => t,
            None => return false,
        };
        let elapsed_secs = (now.saturating_sub(joined_at) / NANOS_PER_SEC) as u32;
        if elapsed_secs == self.last_timer_secs {
            return false;
        }
        self.last_timer_secs = elapsed_secs;
        self.emit(Effect::DeleteLabel(Label::Timer));
        self.emit(Effect::RenderLabel(Label::Timer, timer_label(elapsed_secs as u64)));
        true
    }

    /// Update per-participant talk-time labels when their displayed second
    /// changes. Returns true if any label changed (redraw needed).
    pub fn tick_talk_time_textures(&mut self, now: u64) -> (r: bool)
        ensures
            final(self)@ == (AppV {
                participants: talk_steps(old(self)@.participants, now).0,
                effects: old(self)@.effects + talk_steps(old(self)@.participants, now).1,
                ..old(self)@
            }),
            r == talk_steps(old(self)@.participants, now).2,
            old(self)@.wf() ==> final(self)@.wf(),
    {
        proof { lemma_talk_steps_len(self@.participants, now); }
        let ghost s0 = self@;
        let mut ps: Vec<ParticipantState> = Vec::new();
        let mut effs: Vec<Effect> = Vec::new();
        let mut changed = false;
        let mut i: usize = 0;
        assert(self.participants@.take(0) =~= Seq::<ParticipantState>::empty());
        while i < self.participants.len()
            invariant
                i <= self.participants@.len(),
                self@ == s0,
                ps@ == talk_steps(self.participants@.take(i as int), now).0,
                effects_view(effs@) == talk_steps(self.participants@.take(i as int), now).1,
                changed == talk_steps(self.participants@.take(i as int), now).2,
            decreases self.participants.len() - i,
        {
            proof {
                assert(self.participants@.take(i + 1).drop_last() =~= self.participants@.take(i as int));
            }
            let mut p = self.participants[i].clone();
            let (eff, c) = talk_update(&mut p, now);
            let ghost old_effs = effs@;
            match eff {
                Some(e) => {
                    effs.push(e);
                },
                None => {},
            }
            proof {
                assert(effects_view(effs@) =~= effects_view(old_effs) + opt_effect_seq(eff));
            }
            ps.push(p);
            changed = changed || c;
            i += 1;
        }
        proof {
            assert(self.participants@.take(i as int) =~= self.participants@);
        }
        let ghost effs_v = effects_view(effs@);
        let ghost old_effects = self.effects@;
        self.participants = ps;
        self.effects.append(&mut effs);
        proof {
            assert(effects_view(self.effects@) =~= effects_view(old_effects) + effs_v);
        }
        changed
    }

    fn remove_first(&mut self, id: &UserId)
        ensures
            final(self)@ == removed_one(old(self)@, id.0@),
    {
        match find_index(&self.participants, id.as_str()) {
            Some(i) => {
                self.participants.remove(i);
                self.emit(Effect::DeleteUserTexture(UserTexture::Name, id.clone()));
                self.emit(Effect::DeleteUserTexture(UserTexture::Initial, id.clone()));
                self.emit(Effect::DeleteUserTexture(UserTexture::Avatar, id.clone()));
                self.emit(Effect::DeleteUserTexture(UserTexture::TalkTime, id.clone()));
            },
            None => {},
        }
    }

    fn settle(&mut self)
        requires
            layout_fits(old(self).participants@.len(), old(self).max_visible_rows as nat, old(self).compact_max_rows as nat),
        ensures
            final(self)@ == settled(old(self)@),
    {
        let len = self.participants.len();
        let max_offset = len.saturating_sub(self.max_visible_rows);
        if self.scroll_offset > max_offset {
            self.scroll_offset = max_offset;
        }
        self.after_count_change();
    }

    /// Removes, for each id in turn, the first participant with that id
    /// (those whose leave animation finished) with its textures; then pulls
    /// the scroll offset back into range and resizes. True when `ids` is not empty.
    pub fn finish_leaving(&mut self, ids: &Vec<UserId>) -> (r: bool)
        requires
            old(self)@.wf(),
        ensures
            (final(self)@, r) == spec_finish_leaving(old(self)@, ids@.map_values(|u: UserId| u.0@)),
            final(self)@.wf(),
    {
        let ghost s0 = self@;
        let ghost idv = ids@.map_values(|u: UserId| u.0@);
        let mut k: usize = 0;
        assert(idv.take(0) =~= Seq::<Seq<char>>::empty());
        while k < ids.len()
            invariant
                k <= ids@.len(),
                idv == ids@.map_values(|u: UserId| u.0@),
                self@ == removed(s0, idv.take(k as int)),
            decreases ids.len() - k,
        {
            proof {
                assert(idv.take(k + 1).drop_last() =~= idv.take(k as int));
                assert(idv.take(k + 1).last() == ids@[k as int].0@);
            }
            self.remove_first(&ids[k]);
            k += 1;
        }
        if ids.len() == 0 {
            return false;
        }
        proof {
            assert(idv.take(k as int) =~= idv);
            lemma_removed_shrinks(s0, idv);
            lemma_layout_fits_mono(self@.participants.len(), s0.participants.len(), s0.max_visible_rows as nat, s0.compact_max_rows as nat);
        }
        let ghost before = self@;
        self.settle();
        proof { lemma_settled_wf(before); }
        true
    }

    fn queue_refresh(&mut self)
        ensures
            final(self)@ == (AppV { effects: old(self)@.effects + refresh_effects(old(self)@.participants), ..old(self)@ }),
    {
        let ghost s1 = self@;
        let mut effs: Vec<Effect> = Vec::new();
        let mut i: usize = 0;
        assert(self.participants@.take(0) =~= Seq::<ParticipantState>::empty());
        while i < self.participants.len()
            invariant
                i <= self.participants@.len(),
                self@ == s1,
                effects_view(effs@) == refresh_effects(self.participants@.take(i as int)),
            decreases self.participants.len() - i,
        {
            proof {
                assert(self.participants@.take(i + 1).drop_last() =~= self.participants@.take(i as int));
            }
            let p = &self.participants[i];
            let ghost old_effs = effs@;
            effs.push(Effect::DeleteUserTexture(UserTexture::Name, p.user_id.clone()));
            effs.push(Effect::RenderName(p.user_id.clone(), p.display_name.clone()));
            effs.push(Effect::DeleteUserTexture(UserTexture::Initial, p.user_id.clone()));
            effs.push(Effect::EnsureInitial(p.user_id.clone(), initial_for_name(p.display_name.as_str())));
            proof {
                assert(effects_view(effs@) =~= refresh_effects(self.participants@.take(i + 1)));
            }
            i += 1;
        }
        proof {
            assert(self.participants@.take(i as int) =~= self.participants@);
        }
        let ghost old_effects = self.effects@;
        let ghost effs_v = effects_view(effs@);
        self.effects.append(&mut effs);
        proof {
            assert(effects_view(self.effects@) =~= effects_view(old_effects) + effs_v);
        }
    }

    fn refresh_channel_label(&mut self)
        ensures
            final(self)@ == channel_label_refreshed(old(self)@),
    {
        self.emit(Effect::DeleteLabel(Label::ChannelName));
        let label = match &self.channel_name {
            Some(n) => {
                let mut t = "# ".to_owned();
                t.append(n.as_str());
                proof { reveal_strlit("# "); }
                assert(t@ =~= seq!['#', ' '] + n@);
                Some(t)
            },
            None => None,
        };
        match label {
            Some(t) => self.emit(Effect::RenderLabel(Label::ChannelName, t)),
            None => {},
        }
    }

    fn refresh_guild_label(&mut self)
        ensures
            final(self)@ == guild_label_refreshed(old(self)@),
    {
        self.emit(Effect::DeleteLabel(Label::GuildName));
        let label = match &self.guild_name {
            Some(g) => Some(g.clone()),
            None => None,
        };
        match label {
            Some(t) => self.emit(Effect::RenderLabel(Label::GuildName, t)),
            None => {},
        }
    }

    fn refresh_labels(&mut self)
        ensures
            final(self)@ == labels_refreshed(old(self)@),
    {
        self.refresh_channel_label();
        self.refresh_guild_label();
        self.emit(Effect::DeleteLabel(Label::Timer));
        self.emit(Effect::DeleteLabel(Label::OverflowBadge));
        self.last_timer_secs = u32::MAX;
        self.last_participant_count = usize::MAX;
        self.last_scroll_state = (usize::MAX, usize::MAX);
        self.last_overflow_count = usize::MAX;
    }

    /// Applies a reloaded configuration's row limit and regenerates every text
    /// texture (the font size may have changed).
    pub fn reload_config(&mut self, max_visible_rows: usize)
        ensures
            final(self)@ == spec_reload(old(self)@, max_visible_rows),
    {
        self.max_visible_rows = max_visible_rows;
        self.compact_max_rows = max_visible_rows;
        self.queue_refresh();
        self.refresh_labels();
    }
}

/// Settling after removals leaves a valid state.
proof fn lemma_settled_wf(s: AppV)
    requires
        layout_fits(s.participants.len(), s.max_visible_rows as nat, s.compact_max_rows as nat),
    ensures
        settled(s).wf(),
{
    let len = s.participants.len();
    let max_offset: nat = if len >= s.max_visible_rows { (len - s.max_visible_rows) as nat } else { 0 };
    let s1 = AppV {
        scroll_offset: if s.scroll_offset <= max_offset { s.scroll_offset } else { max_offset as usize },
        ..s
    };
    assert(s1.wf());
    let t = s1.resized_to(super::normal_height(len, s.max_visible_rows as nat) as u32);
    assert(t.participants == s1.participants && t.scroll_offset == s1.scroll_offset);
    assert(t.compact_resized().participants == t.participants);
}

/// `talk_steps` keeps one entry per participant.
pub proof fn lemma_talk_steps_len(ps: Seq<ParticipantState>, now: u64)
    ensures
        talk_steps(ps, now).0.len() == ps.len(),
    decreases ps.len(),
{
    if ps.len() > 0 {
        lemma_talk_steps_len(ps.drop_last(), now);
    }
}

/// Fewer participants never need more room than more participants.
pub proof fn lemma_layout_fits_mono(a: nat, b: nat, max: nat, cmax: nat)
    requires
        a <= b,
        layout_fits(b, max, cmax),
    ensures
        layout_fits(a, max, cmax),
{
    reveal(layout_fits);
    assert(super::visible_rows(a, max) * 48 <= super::visible_rows(b, max) * 48) by (nonlinear_arith)
        requires super::visible_rows(a, max) <= super::visible_rows(b, max);
    assert((super::min_nat(a, cmax) + 1) * 48 <= (super::min_nat(b, cmax) + 1) * 48) by (nonlinear_arith)
        requires super::min_nat(a, cmax) <= super::min_nat(b, cmax);
}

/// Removing participants never makes the list longer, and keeps the row limits.
proof fn lemma_removed_shrinks(s: AppV, ids: Seq<Seq<char>>)
    ensures
        removed(s, ids).participants.len() <= s.participants.len(),
        removed(s, ids).max_visible_rows == s.max_visible_rows,
        removed(s, ids).compact_max_rows == s.compact_max_rows,
        removed(s, ids).compact == s.compact,
    decreases ids.len(),
{
    if ids.len() > 0 {
        lemma_removed_shrinks(s, ids.drop_last());
        let s0 = removed(s, ids.drop_last());
        assert(removed(s, ids) == removed_one(s0, ids.last()));
        match first_index(s0.participants, ids.last()) {
            Some(i) => { lemma_index_in_range(s0.participants, ids.last(), 0); },
            None => {},
        }
    }
}

/// A found position lies in the list.
pub proof fn lemma_index_in_range(s: Seq<ParticipantState>, id: Seq<char>, start: int)
    ensures
        index_from(s, id, start) matches Some(i) ==> start <= i < s.len() && s[i].user_id.0@ == id,
    decreases s.len() - start,
{
    if 0 <= start < s.len() && s[start].user_id.0@ != id {
        lemma_index_in_range(s, id, start + 1);
    }
}

} // verus!
