//! How the overlay state reacts to Discord events, and its layout updates.

use vstd::prelude::*;
use crate::discord::{DiscordEvent, Participant, UserId};
use crate::json::opt_string_view;
use crate::text::{initial_for_name, initial_text, ping_label};
use super::participant::{ParticipantState, ParticipantStateBuilder, SPEAKING_HOLD_NANOS, state_of};
use super::{
    Anchor, App, AppV, Effect, EffectV, Label, UserTexture, effects_view, event_fits, first_index,
    index_from, layout_fits, name_effects, normal_height, spec_handle_event, speaking_updated,
    top_left, visible_rows,
};

verus! {

/// Whether two optional strings hold the same text.
fn opt_string_eq(a: &Option<String>, b: &Option<String>) -> (r: bool)
    ensures
        r == (opt_string_view(*a) == opt_string_view(*b)),
{
    match (a, b) {
        (Some(x), Some(y)) => crate::text::str_eq(x.as_str(), y.as_str()),
        (None, None) => true,
        _ => false,
    }
}

/// The first position of a participant with id `id`.
pub fn find_index(ps: &Vec<ParticipantState>, id: &str) -> (r: Option<usize>)
    ensures
        match r {
            Some(i) => first_index(ps@, id@) == Some(i as int) && i < ps@.len(),
            None => first_index(ps@, id@) is None,
        },
{
    let mut i: usize = 0;
    while i < ps.len()
        invariant
            i <= ps@.len(),
            first_index(ps@, id@) == index_from(ps@, id@, i as int),
        decreases ps.len() - i,
    {
        if crate::text::str_eq(ps[i].user_id.as_str(), id) {
            return Some(i);
        }
        i += 1;
    }
    None
}

impl App {
    /// The initial state: a 360 x 64 control bar anchored top-left at
    /// (`initial_x`, `initial_y`), not in a channel.
    pub fn new(initial_x: i32, initial_y: i32, max_visible_rows: usize, compact: bool) -> (r: Self)
        ensures
            r@ == (AppV {
                width: 360,
                height: 64,
                dragging: false,
                last_pointer: (0, 0),
                drag_base_pos: (initial_x, initial_y),
                margins: (initial_y, 0, 0, initial_x),
                anchor: top_left(),
                discord_mute: false,
                discord_deaf: false,
                participants: Seq::empty(),
                channel_name: None,
                guild_name: None,
                in_channel: false,
                channel_joined_at: None,
                last_timer_secs: u32::MAX,
                scroll_offset: 0,
                max_visible_rows,
                compact_max_rows: max_visible_rows,
                last_scroll_state: (usize::MAX, usize::MAX),
                scroll_label_shown: false,
                compact,
                last_click_time: None,
                ptt_mode: false,
                ptt_active: false,
                self_user_id: r.self_user_id,
                last_participant_count: usize::MAX,
                last_overflow_count: usize::MAX,
                ping_ms: None,
                mute_held: false,
                deaf_held: false,
                effects: Seq::empty(),
            }),
            r.self_user_id.0@ == Seq::<char>::empty(),
            r@.wf(),
    {
        let r = App {
            width: 360,
            height: 64,
            dragging: false,
            last_pointer: (0, 0),
            drag_base_pos: (initial_x, initial_y),
            margins: (initial_y, 0, 0, initial_x),
            anchor: Anchor { top: true, bottom: false, left: true, right: false },
            discord_mute: false,
            discord_deaf: false,
            participants: Vec::new(),
            channel_name: None,
            guild_name: None,
            in_channel: false,
            channel_joined_at: None,
            last_timer_secs: u32::MAX,
            scroll_offset: 0,
            max_visible_rows,
            compact_max_rows: max_visible_rows,
            last_scroll_state: (usize::MAX, usize::MAX),
            scroll_label_shown: false,
            compact,
            last_click_time: None,
            ptt_mode: false,
            ptt_active: false,
            self_user_id: UserId(String::new()),
            last_participant_count: usize::MAX,
            last_overflow_count: usize::MAX,
            ping_ms: None,
            mute_held: false,
            deaf_held: false,
            effects: Vec::new(),
        };
        assert(effects_view(r.effects@) =~= Seq::empty());
        proof { reveal(layout_fits); }
        r
    }

    /// Whether the state invariant holds.
    pub fn is_consistent(&self) -> (r: bool)
        ensures
            r == self@.wf(),
    {
        self.scroll_offset <= self.participants.len()
            && super::fits_layout(self.participants.len(), self.max_visible_rows, self.compact_max_rows)
    }

    /// Whether an event can be handled at `now` (the condition
    /// `handle_discord_event` needs besides the invariant).
    pub fn accepts_event(&self, event: &DiscordEvent, now: u64) -> (r: bool)
        ensures
            r == event_fits(self@, *event, now),
    {
        match event {
            DiscordEvent::VoiceParticipants { participants, channel_name: _ } => {
                let r = super::fits_layout(participants.len(), self.max_visible_rows, self.compact_max_rows);
                assert(r == layout_fits(participants@.len(), self@.max_visible_rows as nat, self@.compact_max_rows as nat));
                r
            },
            DiscordEvent::UserJoined(p) => {
                if find_index(&self.participants, p.user_id.as_str()).is_some() {
                    return true;
                }
                let len = self.participants.len();
                proof { reveal(layout_fits); }
                if len < usize::MAX {
                    super::fits_layout(len + 1, self.max_visible_rows, self.compact_max_rows)
                } else {
                    super::fits_layout(len, self.max_visible_rows, self.compact_max_rows)
                }
            },
            DiscordEvent::SpeakingUpdate { user_id: _, speaking } => !*speaking || now <= u64::MAX - SPEAKING_HOLD_NANOS,
            _ => true,
        }
    }

    /// Queues an effect.
    pub fn emit(&mut self, e: Effect)
        ensures
            final(self)@ == old(self)@.with_effect(e@),
    {
        let ghost ev = e@;
        self.effects.push(e);
        assert(effects_view(self.effects@) =~= effects_view(old(self).effects@).push(ev));
    }

    /// Hands over the queued effects, oldest first.
    pub fn take_effects(&mut self) -> (r: Vec<Effect>)
        ensures
            effects_view(r@) == old(self)@.effects,
            final(self)@ == (AppV { effects: Seq::empty(), ..old(self)@ }),
    {
        let mut out: Vec<Effect> = Vec::new();
        std::mem::swap(&mut out, &mut self.effects);
        assert(effects_view(self.effects@) =~= Seq::empty());
        out
    }

    pub fn visible_row_count(&self) -> (r: usize)
        ensures
            r == visible_rows(self.participants@.len(), self.max_visible_rows as nat),
    {
        super::visible_row_count_len(self.participants.len(), self.max_visible_rows)
    }

    /// Height: control bar (64px) + rows (48px each) + scroll indicator (20px if needed).
    pub fn compute_overlay_height(&self) -> (r: u32)
        requires
            visible_rows(self.participants@.len(), self.max_visible_rows as nat) * 48 + 84 <= u32::MAX,
        ensures
            r == normal_height(self.participants@.len(), self.max_visible_rows as nat),
    {
        super::compute_normal_height(self.participants.len(), self.max_visible_rows)
    }

    pub fn resize_overlay(&mut self, new_h: u32)
        ensures
            final(self)@ == old(self)@.resized_to(new_h),
    {
        if self.height == new_h {
            return;
        }
        self.height = new_h;
        self.emit(Effect::Resize { width: self.width, height: new_h });
    }

    /// Resize for compact/normal mode and pin the top-left corner at
    /// `drag_base_pos`. Call after toggling `compact` or after participant
    /// count changes while in compact mode.
    pub fn apply_compact_resize(&mut self)
        requires
            layout_fits(old(self).participants@.len(), old(self).max_visible_rows as nat, old(self).compact_max_rows as nat),
        ensures
            final(self)@ == old(self)@.compact_resized(),
    {
        proof { reveal(layout_fits); }
        let (w, h) = if self.compact {
            let total = self.participants.len();
            let max_compact = self.compact_max_rows;
            let visible = if total <= max_compact { total } else { max_compact };
            let slot_count = if total > max_compact { visible + 1 } else { visible };
            let n = if slot_count == 0 { 1 } else { slot_count };
            let w0 = (n as u32) * 48 + 16;
            (if w0 < 120 { 120 } else { w0 }, 48u32)
        } else {
            (360u32, self.compute_overlay_height())
        };
        self.width = w;
        self.height = h;
        self.emit(Effect::Resize { width: w, height: h });
        let (x, y) = self.drag_base_pos;
        self.anchor = Anchor { top: true, bottom: false, left: true, right: false };
        self.margins = (y, 0, 0, x);
        self.emit(Effect::PlaceAt { top: y, left: x });
    }

    pub fn after_count_change(&mut self)
        requires
            layout_fits(old(self).participants@.len(), old(self).max_visible_rows as nat, old(self).compact_max_rows as nat),
        ensures
            final(self)@ == old(self)@.after_count_change(),
    {
        proof { reveal(layout_fits); }
        let h = self.compute_overlay_height();
        self.resize_overlay(h);
        if self.compact {
            self.apply_compact_resize();
        }
    }

    fn on_channel_presence(&mut self, channel_name: &Option<String>, now: u64)
        ensures
            final(self)@ == old(self)@.with_channel_presence(*channel_name, now),
    {
        let in_ch = channel_name.is_some();
        if in_ch && !self.in_channel {
            self.in_channel = in_ch;
            self.channel_joined_at = Some(now);
            self.last_timer_secs = u32::MAX;
        } else if !in_ch {
            self.in_channel = in_ch;
            self.channel_joined_at = None;
            self.emit(Effect::DeleteLabel(Label::Timer));
        } else {
            self.in_channel = in_ch;
        }
    }

    fn on_channel_name(&mut self, channel_name: Option<String>)
        ensures
            final(self)@ == old(self)@.with_channel_name(channel_name),
    {
        if opt_string_eq(&self.channel_name, &channel_name) {
            return;
        }
        let ghost s0 = self@;
        let label: Option<String> = match &channel_name {
            Some(n) => {
                let mut t = "# ".to_owned();
                t.append(n.as_str());
                proof { reveal_strlit("# "); }
                assert(t@ =~= seq!['#', ' '] + n@);
                Some(t)
            },
            None => None,
        };
        self.channel_name = channel_name;
        self.emit(Effect::DeleteLabel(Label::ChannelName));
        assert(self@ == (AppV { channel_name, ..s0.with_effect(EffectV::DeleteLabel(Label::ChannelName)) }));
        match label {
            Some(t) => {
                self.emit(Effect::RenderLabel(Label::ChannelName, t));
            },
            None => {},
        }
    }

    fn on_listed(&mut self, parts: Vec<Participant>)
        ensures
            final(self)@ == old(self)@.with_listed(parts@),
    {
        self.emit(Effect::ClearUserTextures(UserTexture::Name));
        self.emit(Effect::ClearUserTextures(UserTexture::Initial));
        self.emit(Effect::ClearUserTextures(UserTexture::TalkTime));
        let ghost s3 = self@;
        let mut ps: Vec<ParticipantState> = Vec::new();
        let mut i: usize = 0;
        assert(name_effects(ps@) =~= Seq::empty());
        assert(s3.effects + Seq::<EffectV>::empty() =~= s3.effects);
        assert(parts@.take(0).map_values(|p: Participant| state_of(p)) =~= ps@);
        while i < parts.len()
            invariant
                i <= parts@.len(),
                ps@ == parts@.take(i as int).map_values(|p: Participant| state_of(p)),
                self@ == (AppV { effects: s3.effects + name_effects(ps@), ..s3 }),
            decreases parts.len() - i,
        {
            let st = ParticipantStateBuilder::from_discord(&parts[i]).build();
            let initial = initial_for_name(st.display_name.as_str());
            self.emit(Effect::RenderName(st.user_id.clone(), st.display_name.clone()));
            self.emit(Effect::EnsureInitial(st.user_id.clone(), initial));
            let ghost old_ps = ps@;
            ps.push(st);
            proof {
                assert(ps@.drop_last() =~= old_ps);
                assert(parts@.take(i + 1).map_values(|p: Participant| state_of(p))
                    =~= parts@.take(i as int).map_values(|p: Participant| state_of(p)).push(state_of(parts@[i as int])));
                assert(s3.effects + name_effects(ps@) =~= (s3.effects + name_effects(old_ps)).push(
                    EffectV::RenderName(st.user_id.0@, st.display_name@)).push(
                    EffectV::EnsureInitial(st.user_id.0@, initial_text(st.display_name@))));
            }
            i += 1;
        }
        assert(parts@.take(i as int) =~= parts@);
        self.participants = ps;
    }

    fn on_scroll_reset(&mut self)
        ensures
            final(self)@ == old(self)@.with_scroll_reset(),
    {
        self.scroll_offset = 0;
        self.last_scroll_state = (usize::MAX, usize::MAX);
        self.scroll_label_shown = false;
        self.emit(Effect::DeleteLabel(Label::ScrollIndicator));
    }

    fn on_participant_list(&mut self, parts: Vec<Participant>, channel_name: Option<String>, now: u64)
        requires
            layout_fits(parts@.len(), old(self).max_visible_rows as nat, old(self).compact_max_rows as nat),
        ensures
            final(self)@ == old(self)@.with_participant_list(parts@, channel_name, now),
    {
        self.on_channel_presence(&channel_name, now);
        self.on_channel_name(channel_name);
        self.on_listed(parts);
        self.on_scroll_reset();
        self.after_count_change();
    }

    fn on_joined(&mut self, p: Participant)
        requires
            layout_fits(old(self).participants@.len() + 1, old(self).max_visible_rows as nat, old(self).compact_max_rows as nat),
        ensures
            final(self)@ == old(self)@.with_joined(p),
    {
        let st = ParticipantStateBuilder::from_discord(&p).build();
        let uid = st.user_id.clone();
        let name = st.display_name.clone();
        let initial = initial_for_name(name.as_str());
        self.participants.push(st);
        self.in_channel = true;
        self.emit(Effect::RenderName(uid.clone(), name));
        self.emit(Effect::EnsureInitial(uid, initial));
        self.after_count_change();
    }

    fn on_guild_name(&mut self, name: String)
        ensures
            final(self)@ == old(self)@.with_guild_name(name),
    {
        self.emit(Effect::DeleteLabel(Label::GuildName));
        if name.as_str().is_empty() {
            self.guild_name = None;
        } else {
            self.emit(Effect::RenderLabel(Label::GuildName, name.clone()));
            self.guild_name = Some(name);
        }
    }

    fn on_disconnected(&mut self)
        ensures
            final(self)@ == old(self)@.disconnected(),
    {
        let ghost s0 = self@;
        self.in_channel = false;
        self.channel_name = None;
        self.emit(Effect::DeleteLabel(Label::ChannelName));
        self.emit(Effect::DeleteLabel(Label::ParticipantCount));
        self.last_participant_count = usize::MAX;
        self.emit(Effect::DeleteLabel(Label::OverflowBadge));
        self.last_overflow_count = usize::MAX;
        self.guild_name = None;
        self.emit(Effect::DeleteLabel(Label::GuildName));
        self.channel_joined_at = None;
        self.emit(Effect::DeleteLabel(Label::Timer));
        self.emit(Effect::DeleteLabel(Label::Ping));
        self.emit(Effect::DeleteLabel(Label::ScrollIndicator));
        self.scroll_offset = 0;
        self.last_scroll_state = (usize::MAX, usize::MAX);
        self.scroll_label_shown = false;
        self.emit(Effect::ClearUserTextures(UserTexture::Avatar));
        self.emit(Effect::ClearUserTextures(UserTexture::Name));
        self.emit(Effect::ClearUserTextures(UserTexture::Initial));
        self.emit(Effect::ClearUserTextures(UserTexture::TalkTime));
        self.participants = Vec::new();
        self.discord_mute = false;
        self.discord_deaf = false;
        self.emit(Effect::HideNow);
        assert(self@.effects =~= s0.effects + seq![
            EffectV::DeleteLabel(Label::ChannelName),
            EffectV::DeleteLabel(Label::ParticipantCount),
            EffectV::DeleteLabel(Label::OverflowBadge),
            EffectV::DeleteLabel(Label::GuildName),
            EffectV::DeleteLabel(Label::Timer),
            EffectV::DeleteLabel(Label::Ping),
            EffectV::DeleteLabel(Label::ScrollIndicator),
            EffectV::ClearUserTextures(UserTexture::Avatar),
            EffectV::ClearUserTextures(UserTexture::Name),
            EffectV::ClearUserTextures(UserTexture::Initial),
            EffectV::ClearUserTextures(UserTexture::TalkTime),
            EffectV::HideNow,
        ]);
        assert(self@.participants =~= Seq::<ParticipantState>::empty());
        self.resize_overlay(64);
    }

    fn on_user_left(&mut self, user_id: &UserId) -> (r: bool)
        ensures
            (final(self)@, r) == super::spec_user_left(old(self)@, user_id.0@),
    {
        match find_index(&self.participants, user_id.as_str()) {
            Some(i) => {
                if !self.participants[i].leaving {
                    let mut p = self.participants[i].clone();
                    p.leaving = true;
                    self.participants.set(i, p);
                    true
                } else {
                    false
                }
            },
            None => false,
        }
    }

    fn on_state_update(&mut self, user_id: &UserId, muted: bool, deafened: bool) -> (r: bool)
        ensures
            (final(self)@, r) == super::spec_state_update(old(self)@, user_id.0@, muted, deafened),
    {
        match find_index(&self.participants, user_id.as_str()) {
            Some(i) => {
                let mut p = self.participants[i].clone();
                let changed = p.muted != muted || p.deafened != deafened;
                p.muted = muted;
                p.deafened = deafened;
                self.participants.set(i, p);
                changed
            },
            None => false,
        }
    }

    #[verifier::rlimit(30)]
    fn on_speaking(&mut self, user_id: &UserId, speaking: bool, now: u64) -> (r: bool)
        requires
            speaking ==> now + SPEAKING_HOLD_NANOS <= u64::MAX,
        ensures
            (final(self)@, r) == super::spec_speaking(old(self)@, user_id.0@, speaking, now),
    {
        match find_index(&self.participants, user_id.as_str()) {
            Some(i) => {
                let mut p = self.participants[i].clone();
                if speaking {
                    p.speaking_until = Some(now + SPEAKING_HOLD_NANOS);
                    if p.speaking_started_at.is_none() {
                        p.speaking_started_at = Some(now);
                    }
                } else {
                    p.speaking_until = None;
                    finish_segment(&mut p, now);
                }
                self.participants.set(i, p);
                true
            },
            None => false,
        }
    }

    /// Applies a Discord event received at `now`; true when the overlay needs a redraw.
    pub fn handle_discord_event(&mut self, event: DiscordEvent, now: u64) -> (r: bool)
        requires
            old(self)@.wf(),
            event_fits(old(self)@, event, now),
        ensures
            (final(self)@, r) == spec_handle_event(old(self)@, event, now),
            final(self)@.wf(),
    {
        proof { super::laws::lemma_event_keeps_wf(old(self)@, event, now); }
        self.apply_event(event, now)
    }

    fn apply_event(&mut self, event: DiscordEvent, now: u64) -> (r: bool)
        requires
            event_fits(old(self)@, event, now),
        ensures
            (final(self)@, r) == spec_handle_event(old(self)@, event, now),
    {
        match event {
            DiscordEvent::Ready { username: _, user_id } => {
                self.self_user_id = user_id;
                false
            },
            DiscordEvent::VoiceSettings { mute, deaf } => {
                let changed = self.discord_mute != mute || self.discord_deaf != deaf;
                self.discord_mute = mute;
                self.discord_deaf = deaf;
                changed
            },
            DiscordEvent::VoiceMode { ptt } => {
                self.ptt_mode = ptt;
                true
            },
            DiscordEvent::VoiceParticipants { participants, channel_name } => {
                self.on_participant_list(participants, channel_name, now);
                true
            },
            DiscordEvent::UserJoined(p) => {
                match find_index(&self.participants, p.user_id.as_str()) {
                    Some(_) => false,
                    None => {
                        self.on_joined(p);
                        true
                    },
                }
            },
            DiscordEvent::UserLeft { user_id } => self.on_user_left(&user_id),
            DiscordEvent::ParticipantStateUpdate { user_id, muted, deafened } =>
                self.on_state_update(&user_id, muted, deafened),
            DiscordEvent::SpeakingUpdate { user_id, speaking } => self.on_speaking(&user_id, speaking, now),
            DiscordEvent::AvatarLoaded { user_id, rgba, size } => {
                self.emit(Effect::UploadAvatar { user_id, rgba, size });
                true
            },
            DiscordEvent::GuildName { name } => {
                self.on_guild_name(name);
                true
            },
            DiscordEvent::PingResult { latency_ms } => {
                self.ping_ms = Some(latency_ms);
                self.emit(Effect::DeleteLabel(Label::Ping));
                self.emit(Effect::RenderLabel(Label::Ping, ping_label(latency_ms)));
                true
            },
            DiscordEvent::Disconnected => {
                self.on_disconnected();
                true
            },
        }
    }
}

/// Ends the participant's current speaking segment at `now`, adding its
/// length to the talk time (saturating).
pub fn finish_segment(p: &mut ParticipantState, now: u64)
    ensures
        *final(p) == super::segment_finished(*old(p), now),
{
    match p.speaking_started_at {
        Some(t) => {
            p.speaking_started_at = None;
            p.talk_time_ns = p.talk_time_ns.saturating_add(now.saturating_sub(t));
        },
        None => {},
    }
}

} // verus!
