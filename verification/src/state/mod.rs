//! The overlay's state machine: what each Discord event, timer tick and
//! pointer event does to the overlay, and what it asks the renderer and the
//! compositor to do ([`Effect`]s, queued in order).

mod app;
mod ticks;
mod draw;
mod laws;

pub use laws::{
    lemma_event_keeps_wf, unique_ids, lemma_join_idempotent, lemma_join_keeps_ids_unique,
    lemma_disconnect_idles, lemma_speaking_ring, lemma_ring_expiry, lemma_state_update_sets_flags,
    lemma_rows_carry_flags, lemma_compact_slots, lemma_compact_list_width,
};

pub use draw::{RowInfo, rows_below, with_scroll_label, with_count_label, row_at, visible_window, with_overflow_label};
pub mod participant;

pub use app::{find_index, finish_segment};
pub use ticks::{
    ring_cleared, ring_expired, self_speaking, timer_secs, spec_tick_timer, talk_step, talk_steps,
    removed, removed_one, settled, spec_finish_leaving, refresh_effects, with_row_limit,
    labels_refreshed, channel_label_refreshed, guild_label_refreshed, spec_reload, lemma_index_in_range,
};

pub use participant::{ParticipantState, ParticipantStateBuilder};

use vstd::prelude::*;
use crate::discord::{DiscordEvent, Participant, UserId};
use crate::json::opt_string_view;
use crate::text::{
    clock_text, dec, initial_for_name, initial_text, ping_label, scroll_label, scroll_text,
    talk_time_label, timer_label, count_label, overflow_label,
};
use participant::{NANOS_PER_SEC, SPEAKING_HOLD_NANOS, elapsed, state_of};

verus! {

/// The single-instance text textures of the overlay.
#[derive(Debug, Clone, Copy, PartialEq, Eq, Structural)]
pub enum Label {
    ChannelName,
    GuildName,
    Timer,
    Ping,
    ScrollIndicator,
    ParticipantCount,
    OverflowBadge,
}

/// The per-participant textures.
#[derive(Debug, Clone, Copy, PartialEq, Eq, Structural)]
pub enum UserTexture {
    Name,
    Initial,
    TalkTime,
    Avatar,
}

/// Which edges of the output the overlay is anchored to.
#[derive(Debug, Clone, Copy, PartialEq, Eq, Structural)]
pub struct Anchor {
    pub top: bool,
    pub bottom: bool,
    pub left: bool,
    pub right: bool,
}

pub open spec fn top_left() -> Anchor {
    Anchor { top: true, bottom: false, left: true, right: false }
}

/// Something the renderer or the compositor has to do.
#[derive(Debug)]
pub enum Effect {
    /// Resize the surface and the GL viewport.
    Resize { width: u32, height: u32 },
    /// Anchor the surface to the top-left corner with these margins.
    PlaceAt { top: i32, left: i32 },
    /// Delete the label's texture, if there is one.
    DeleteLabel(Label),
    /// Render `text` into the label's texture.
    RenderLabel(Label, String),
    /// Delete every participant texture of this kind.
    ClearUserTextures(UserTexture),
    /// Render a participant's name texture (replacing any previous one).
    RenderName(UserId, String),
    /// Render a participant's initial, unless one is already there.
    EnsureInitial(UserId, String),
    /// Render a participant's talk-time texture (replacing any previous one).
    RenderTalkTime(UserId, String),
    /// Delete a participant's texture of this kind, if there is one.
    DeleteUserTexture(UserTexture, UserId),
    /// Upload a decoded avatar as the participant's avatar texture.
    UploadAvatar { user_id: UserId, rgba: Vec<u8>, size: u32 },
    /// Make the whole overlay click-through.
    ClearInputRegion,
    /// Drop the idle fade to fully transparent at once.
    HideNow,
}

/// The mathematical form of an [`Effect`].
pub enum EffectV {
    Resize { width: u32, height: u32 },
    PlaceAt { top: i32, left: i32 },
    DeleteLabel(Label),
    RenderLabel(Label, Seq<char>),
    ClearUserTextures(UserTexture),
    RenderName(Seq<char>, Seq<char>),
    EnsureInitial(Seq<char>, Seq<char>),
    RenderTalkTime(Seq<char>, Seq<char>),
    DeleteUserTexture(UserTexture, Seq<char>),
    UploadAvatar { user_id: Seq<char>, rgba: Seq<u8>, size: u32 },
    ClearInputRegion,
    HideNow,
}

impl View for Effect {
    type V = EffectV;

    open spec fn view(&self) -> EffectV {
        match *self {
            Effect::Resize { width, height } => EffectV::Resize { width, height },
            Effect::PlaceAt { top, left } => EffectV::PlaceAt { top, left },
            Effect::DeleteLabel(l) => EffectV::DeleteLabel(l),
            Effect::RenderLabel(l, t) => EffectV::RenderLabel(l, t@),
            Effect::ClearUserTextures(k) => EffectV::ClearUserTextures(k),
            Effect::RenderName(u, t) => EffectV::RenderName(u.0@, t@),
            Effect::EnsureInitial(u, t) => EffectV::EnsureInitial(u.0@, t@),
            Effect::RenderTalkTime(u, t) => EffectV::RenderTalkTime(u.0@, t@),
            Effect::DeleteUserTexture(k, u) => EffectV::DeleteUserTexture(k, u.0@),
            Effect::UploadAvatar { user_id, rgba, size } =>
                EffectV::UploadAvatar { user_id: user_id.0@, rgba: rgba@, size },
            Effect::ClearInputRegion => EffectV::ClearInputRegion,
            Effect::HideNow => EffectV::HideNow,
        }
    }
}

pub open spec fn effects_view(es: Seq<Effect>) -> Seq<EffectV> {
    es.map_values(|e: Effect| e@)
}

/// The overlay's state, without what only the renderer and the compositor
/// hold (textures, animation progress, opacity). Times are readings of a
/// monotonic clock in nanoseconds.
pub struct App {
    pub width: u32,
    pub height: u32,
    pub dragging: bool,
    /// Where the pointer grabbed the surface, in surface coordinates.
    pub last_pointer: (i32, i32),
    /// The surface's top-left corner in output pixels while dragging.
    pub drag_base_pos: (i32, i32),
    /// Margins (top, right, bottom, left).
    pub margins: (i32, i32, i32, i32),
    pub anchor: Anchor,
    pub discord_mute: bool,
    pub discord_deaf: bool,
    pub participants: Vec<ParticipantState>,
    pub channel_name: Option<String>,
    pub guild_name: Option<String>,
    pub in_channel: bool,
    pub channel_joined_at: Option<u64>,
    pub last_timer_secs: u32,
    pub scroll_offset: usize,
    /// Rows shown before the list scrolls.
    pub max_visible_rows: usize,
    /// Avatars shown in compact mode before the overflow badge.
    pub compact_max_rows: usize,
    pub last_scroll_state: (usize, usize),
    /// Whether a scroll-indicator label was requested and not deleted since.
    pub scroll_label_shown: bool,
    pub compact: bool,
    pub last_click_time: Option<u64>,
    pub ptt_mode: bool,
    pub ptt_active: bool,
    pub self_user_id: UserId,
    pub last_participant_count: usize,
    pub last_overflow_count: usize,
    pub ping_ms: Option<u32>,
    pub mute_held: bool,
    pub deaf_held: bool,
    /// What the renderer and compositor still have to do, oldest first.
    pub effects: Vec<Effect>,
}

/// The mathematical form of [`App`].
pub struct AppV {
    pub width: u32,
    pub height: u32,
    pub dragging: bool,
    pub last_pointer: (i32, i32),
    pub drag_base_pos: (i32, i32),
    pub margins: (i32, i32, i32, i32),
    pub anchor: Anchor,
    pub discord_mute: bool,
    pub discord_deaf: bool,
    pub participants: Seq<ParticipantState>,
    pub channel_name: Option<String>,
    pub guild_name: Option<String>,
    pub in_channel: bool,
    pub channel_joined_at: Option<u64>,
    pub last_timer_secs: u32,
    pub scroll_offset: usize,
    pub max_visible_rows: usize,
    pub compact_max_rows: usize,
    pub last_scroll_state: (usize, usize),
    pub scroll_label_shown: bool,
    pub compact: bool,
    pub last_click_time: Option<u64>,
    pub ptt_mode: bool,
    pub ptt_active: bool,
    pub self_user_id: UserId,
    pub last_participant_count: usize,
    pub last_overflow_count: usize,
    pub ping_ms: Option<u32>,
    pub mute_held: bool,
    pub deaf_held: bool,
    pub effects: Seq<EffectV>,
}

impl View for App {
    type V = AppV;

    open spec fn view(&self) -> AppV {
        AppV {
            width: self.width,
            height: self.height,
            dragging: self.dragging,
            last_pointer: self.last_pointer,
            drag_base_pos: self.drag_base_pos,
            margins: self.margins,
            anchor: self.anchor,
            discord_mute: self.discord_mute,
            discord_deaf: self.discord_deaf,
            participants: self.participants@,
            channel_name: self.channel_name,
            guild_name: self.guild_name,
            in_channel: self.in_channel,
            channel_joined_at: self.channel_joined_at,
            last_timer_secs: self.last_timer_secs,
            scroll_offset: self.scroll_offset,
            max_visible_rows: self.max_visible_rows,
            compact_max_rows: self.compact_max_rows,
            last_scroll_state: self.last_scroll_state,
            scroll_label_shown: self.scroll_label_shown,
            compact: self.compact,
            last_click_time: self.last_click_time,
            ptt_mode: self.ptt_mode,
            ptt_active: self.ptt_active,
            self_user_id: self.self_user_id,
            last_participant_count: self.last_participant_count,
            last_overflow_count: self.last_overflow_count,
            ping_ms: self.ping_ms,
            mute_held: self.mute_held,
            deaf_held: self.deaf_held,
            effects: effects_view(self.effects@),
        }
    }
}

// ─── Layout ──────────────────────────────────────────────────────────────────

pub open spec fn min_nat(a: nat, b: nat) -> nat {
    if a <= b { a } else { b }
}

/// Rows shown: every participant, up to `max`.
pub open spec fn visible_rows(len: nat, max: nat) -> nat {
    min_nat(len, max)
}

/// Normal-mode height: the 64 px control bar, 48 px per visible row, and a
/// 20 px scroll indicator when not everyone fits.
pub open spec fn normal_height(len: nat, max: nat) -> nat {
    64 + visible_rows(len, max) * 48 + if len > max { 20nat } else { 0nat }
}

/// Compact-mode width: 48 px per avatar slot (plus one for the overflow
/// badge), 16 px of padding, at least one slot and at least 120 px.
pub open spec fn compact_width(len: nat, cmax: nat) -> nat {
    let visible = min_nat(len, cmax);
    let slots = if len > cmax { visible + 1 } else { visible };
    let n = if slots == 0 { 1nat } else { slots };
    if n * 48 + 16 < 120 { 120nat } else { n * 48 + 16 }
}

/// The layout arithmetic for `len` participants fits in 32 bits.
#[verifier::opaque]
pub open spec fn layout_fits(len: nat, max: nat, cmax: nat) -> bool {
    visible_rows(len, max) * 48 + 84 <= u32::MAX && (min_nat(len, cmax) + 1) * 48 + 16 <= u32::MAX
}

/// Whether the layout arithmetic for `len` participants fits in 32 bits.
pub fn fits_layout(len: usize, max: usize, cmax: usize) -> (r: bool)
    ensures
        r == layout_fits(len as nat, max as nat, cmax as nat),
{
    proof { reveal(layout_fits); }
    let v: u64 = if len <= max { len as u64 } else { max as u64 };
    let c: u64 = if len <= cmax { len as u64 } else { cmax as u64 };
    v <= (u32::MAX as u64 - 84) / 48 && c <= (u32::MAX as u64 - 16) / 48 - 1
}

/// The number of participants that fit, given the list length and the row limit.
pub fn visible_row_count_len(participants_len: usize, max_visible_rows: usize) -> (r: usize)
    ensures
        r == visible_rows(participants_len as nat, max_visible_rows as nat),
{
    if participants_len <= max_visible_rows { participants_len } else { max_visible_rows }
}

/// Compact-mode size for `participants_len` avatars without an overflow badge.
pub fn compute_compact_dimensions(participants_len: usize) -> (r: (u32, u32))
    requires
        participants_len * 48 + 16 <= u32::MAX,
    ensures
        r.0 == compact_width(participants_len as nat, participants_len as nat),
        r.1 == 48,
{
    let n: u32 = if participants_len == 0 { 1 } else { participants_len as u32 };
    let w = n * 48 + 16;
    (if w < 120 { 120 } else { w }, 48)
}

/// Normal-mode height for `participants_len` participants and a row limit.
pub fn compute_normal_height(participants_len: usize, max_visible_rows: usize) -> (r: u32)
    requires
        visible_rows(participants_len as nat, max_visible_rows as nat) * 48 + 84 <= u32::MAX,
    ensures
        r == normal_height(participants_len as nat, max_visible_rows as nat),
{
    let n = visible_row_count_len(participants_len, max_visible_rows) as u32;
    let extra: u32 = if participants_len > max_visible_rows { 20 } else { 0 };
    64 + n * 48 + extra
}

// ─── Abstract transitions ────────────────────────────────────────────────────

/// The first position of a participant with id `id`, searching from `start`.
pub open spec fn index_from(s: Seq<ParticipantState>, id: Seq<char>, start: int) -> Option<int>
    decreases s.len() - start,
{
    if start < 0 || start >= s.len() {
        None
    } else if s[start].user_id.0@ == id {
        Some(start)
    } else {
        index_from(s, id, start + 1)
    }
}

/// The first position of a participant with id `id`.
pub open spec fn first_index(s: Seq<ParticipantState>, id: Seq<char>) -> Option<int> {
    index_from(s, id, 0)
}

/// Texture requests for freshly listed participants: each one's name, then its initial.
pub open spec fn name_effects(ps: Seq<ParticipantState>) -> Seq<EffectV>
    decreases ps.len(),
{
    if ps.len() == 0 {
        Seq::empty()
    } else {
        let p = ps.last();
        name_effects(ps.drop_last()) + seq![
            EffectV::RenderName(p.user_id.0@, p.display_name@),
            EffectV::EnsureInitial(p.user_id.0@, initial_text(p.display_name@)),
        ]
    }
}

/// A participant after a speaking notice at `now`: speaking starts (or goes
/// on) for another 1.5 s, or stops and the segment's time is added to the
/// talk time (saturating).
pub open spec fn speaking_updated(p: ParticipantState, speaking: bool, now: u64) -> ParticipantState {
    if speaking {
        ParticipantState {
            speaking_until: Some((now + SPEAKING_HOLD_NANOS) as u64),
            speaking_started_at: match p.speaking_started_at {
                Some(t) => Some(t),
                None => Some(now),
            },
            ..p
        }
    } else {
        ParticipantState { speaking_until: None, ..segment_finished(p, now) }
    }
}

/// A participant whose current speaking segment (if any) ends at `now`.
pub open spec fn segment_finished(p: ParticipantState, now: u64) -> ParticipantState {
    match p.speaking_started_at {
        Some(t) => ParticipantState {
            speaking_started_at: None,
            talk_time_ns: if p.talk_time_ns + elapsed(now, t) <= u64::MAX {
                (p.talk_time_ns + elapsed(now, t)) as u64
            } else {
                u64::MAX
            },
            ..p
        },
        None => p,
    }
}

impl AppV {
    /// The state invariant: the scroll offset never passes the end of the
    /// list, and the layout arithmetic fits in 32 bits.
    pub open spec fn wf(self) -> bool {
        &&& self.scroll_offset <= self.participants.len()
        &&& layout_fits(self.participants.len(), self.max_visible_rows as nat, self.compact_max_rows as nat)
    }

    pub open spec fn with_effect(self, e: EffectV) -> AppV {
        AppV { effects: self.effects.push(e), ..self }
    }

    pub open spec fn with_participant(self, i: int, p: ParticipantState) -> AppV {
        AppV { participants: self.participants.update(i, p), ..self }
    }

    /// The state after resizing to height `h` (nothing changes when it already has that height).
    pub open spec fn resized_to(self, h: u32) -> AppV {
        if self.height == h {
            self
        } else {
            AppV { height: h, ..self }.with_effect(EffectV::Resize { width: self.width, height: h })
        }
    }

    /// The size for the current mode and participant count, with the top-left
    /// corner pinned at `drag_base_pos`.
    pub open spec fn compact_resized(self) -> AppV {
        let len = self.participants.len();
        let (w, h) = if self.compact {
            (compact_width(len, self.compact_max_rows as nat) as u32, 48u32)
        } else {
            (360u32, normal_height(len, self.max_visible_rows as nat) as u32)
        };
        let (x, y) = self.drag_base_pos;
        AppV { width: w, height: h, anchor: top_left(), margins: (y, 0, 0, x), ..self }
            .with_effect(EffectV::Resize { width: w, height: h })
            .with_effect(EffectV::PlaceAt { top: y, left: x })
    }

    /// After the participant count changed: resize to the normal height, then
    /// to the compact size when in compact mode.
    pub open spec fn after_count_change(self) -> AppV {
        let s = self.resized_to(normal_height(self.participants.len(), self.max_visible_rows as nat) as u32);
        if s.compact { s.compact_resized() } else { s }
    }

    /// Entering or leaving a channel: the session timer starts when a channel
    /// is newly joined and stops when there is none.
    pub open spec fn with_channel_presence(self, channel_name: Option<String>, now: u64) -> AppV {
        let in_ch = channel_name is Some;
        if in_ch && !self.in_channel {
            AppV { in_channel: in_ch, channel_joined_at: Some(now), last_timer_secs: u32::MAX, ..self }
        } else if !in_ch {
            AppV { in_channel: in_ch, channel_joined_at: None, ..self }.with_effect(EffectV::DeleteLabel(Label::Timer))
        } else {
            AppV { in_channel: in_ch, ..self }
        }
    }

    /// A changed channel name replaces the channel label ("# name").
    pub open spec fn with_channel_name(self, channel_name: Option<String>) -> AppV {
        if opt_string_view(self.channel_name) != opt_string_view(channel_name) {
            let t = AppV { channel_name, ..self.with_effect(EffectV::DeleteLabel(Label::ChannelName)) };
            match channel_name {
                Some(n) => t.with_effect(EffectV::RenderLabel(Label::ChannelName, seq!['#', ' '] + n@)),
                None => t,
            }
        } else {
            self
        }
    }

    /// The listed participants replace the current ones, with fresh name
    /// and initial textures.
    pub open spec fn with_listed(self, parts: Seq<Participant>) -> AppV {
        let s = self.with_effect(EffectV::ClearUserTextures(UserTexture::Name))
            .with_effect(EffectV::ClearUserTextures(UserTexture::Initial))
            .with_effect(EffectV::ClearUserTextures(UserTexture::TalkTime));
        let ps = parts.map_values(|p: Participant| state_of(p));
        AppV { participants: ps, effects: s.effects + name_effects(ps), ..s }
    }

    /// The list scrolls back to the top.
    pub open spec fn with_scroll_reset(self) -> AppV {
        AppV {
            scroll_offset: 0,
            last_scroll_state: (usize::MAX, usize::MAX),
            scroll_label_shown: false,
            ..self.with_effect(EffectV::DeleteLabel(Label::ScrollIndicator))
        }
    }

    /// The state after a full participant list (and channel name) arrived at `now`.
    pub open spec fn with_participant_list(self, parts: Seq<Participant>, channel_name: Option<String>, now: u64) -> AppV {
        self.with_channel_presence(channel_name, now)
            .with_channel_name(channel_name)
            .with_listed(parts)
            .with_scroll_reset()
            .after_count_change()
    }

    /// The state after `p` joined (when nobody with that id is listed yet).
    pub open spec fn with_joined(self, p: Participant) -> AppV {
        let st = state_of(p);
        AppV { participants: self.participants.push(st), in_channel: true, ..self }
            .with_effect(EffectV::RenderName(st.user_id.0@, st.display_name@))
            .with_effect(EffectV::EnsureInitial(st.user_id.0@, initial_text(st.display_name@)))
            .after_count_change()
    }

    /// The state after the guild name arrived (an empty name clears it).
    pub open spec fn with_guild_name(self, name: String) -> AppV {
        let s = self.with_effect(EffectV::DeleteLabel(Label::GuildName));
        if name@.len() == 0 {
            AppV { guild_name: None, ..s }
        } else {
            AppV { guild_name: Some(name), ..s.with_effect(EffectV::RenderLabel(Label::GuildName, name@)) }
        }
    }

    /// The idle state after the connection to Discord was lost.
    pub open spec fn disconnected(self) -> AppV {
        AppV {
            in_channel: false,
            channel_name: None,
            last_participant_count: usize::MAX,
            last_overflow_count: usize::MAX,
            guild_name: None,
            channel_joined_at: None,
            scroll_offset: 0,
            last_scroll_state: (usize::MAX, usize::MAX),
            scroll_label_shown: false,
            participants: Seq::empty(),
            discord_mute: false,
            discord_deaf: false,
            effects: self.effects + seq![
                EffectV::DeleteLabel(Label::ChannelName),
                EffectV::DeleteLabel(Label::ParticipantCount),
                EffectV::DeleteLabel(Label::OverflowBadge),
                EffectV::DeleteLabel(Label::GuildName),
                EffectV::DeleteLabel(Label::Timer),
                EffectV::DeleteLabel(Label::Ping),
                EffectV::DeleteLabel(Label::ScrollIndicator),
                EffectV::ClearUserTextures(UserTexture::Avatar),
                EffectV::ClearUserTextures(UserTexture::Name),
                EffectV::ClearUserTextures(UserTexture::Initial),
                EffectV::ClearUserTextures(UserTexture::TalkTime),
                EffectV::HideNow,
            ],
            ..self
        }.resized_to(64)
    }
}

/// A participant starts animating out (once).
pub open spec fn spec_user_left(s: AppV, id: Seq<char>) -> (AppV, bool) {
    match first_index(s.participants, id) {
        Some(i) => if !s.participants[i].leaving {
            (s.with_participant(i, ParticipantState { leaving: true, ..s.participants[i] }), true)
        } else {
            (s, false)
        },
        None => (s, false),
    }
}

/// A participant's mute and deafen flags change; a redraw only when they differ.
pub open spec fn spec_state_update(s: AppV, id: Seq<char>, muted: bool, deafened: bool) -> (AppV, bool) {
    match first_index(s.participants, id) {
        Some(i) => (
            s.with_participant(i, ParticipantState { muted, deafened, ..s.participants[i] }),
            s.participants[i].muted != muted || s.participants[i].deafened != deafened,
        ),
        None => (s, false),
    }
}

/// A participant starts or stops speaking.
pub open spec fn spec_speaking(s: AppV, id: Seq<char>, speaking: bool, now: u64) -> (AppV, bool) {
    match first_index(s.participants, id) {
        Some(i) => (s.with_participant(i, speaking_updated(s.participants[i], speaking, now)), true),
        None => (s, false),
    }
}

/// What an event does to the overlay at time `now`, and whether it needs a redraw.
pub open spec fn spec_handle_event(s: AppV, e: DiscordEvent, now: u64) -> (AppV, bool) {
    match e {
        DiscordEvent::Ready { username, user_id } => (AppV { self_user_id: user_id, ..s }, false),
        DiscordEvent::VoiceSettings { mute, deaf } =>
            (AppV { discord_mute: mute, discord_deaf: deaf, ..s }, s.discord_mute != mute || s.discord_deaf != deaf),
        DiscordEvent::VoiceMode { ptt } => (AppV { ptt_mode: ptt, ..s }, true),
        DiscordEvent::VoiceParticipants { participants, channel_name } =>
            (s.with_participant_list(participants@, channel_name, now), true),
        DiscordEvent::UserJoined(p) =>
            if first_index(s.participants, p.user_id.0@) is Some { (s, false) } else { (s.with_joined(p), true) },
        DiscordEvent::UserLeft { user_id } => spec_user_left(s, user_id.0@),
        DiscordEvent::ParticipantStateUpdate { user_id, muted, deafened } =>
            spec_state_update(s, user_id.0@, muted, deafened),
        DiscordEvent::SpeakingUpdate { user_id, speaking } => spec_speaking(s, user_id.0@, speaking, now),
        DiscordEvent::AvatarLoaded { user_id, rgba, size } =>
            (s.with_effect(EffectV::UploadAvatar { user_id: user_id.0@, rgba: rgba@, size }), true),
        DiscordEvent::GuildName { name } => (s.with_guild_name(name), true),
        DiscordEvent::PingResult { latency_ms } => (
            AppV { ping_ms: Some(latency_ms), ..s }
                .with_effect(EffectV::DeleteLabel(Label::Ping))
                .with_effect(EffectV::RenderLabel(Label::Ping, seq!['~'] + dec(latency_ms as nat) + "ms"@)),
            true,
        ),
        DiscordEvent::Disconnected => (s.disconnected(), true),
    }
}

/// The conditions an event needs on top of the invariant: the layout of the
/// resulting participant count fits in 32 bits (a join of someone already
/// listed adds no row), and the deadline a speaking start sets fits the clock.
pub open spec fn event_fits(s: AppV, e: DiscordEvent, now: u64) -> bool {
    match e {
        DiscordEvent::VoiceParticipants { participants, channel_name } =>
            layout_fits(participants@.len(), s.max_visible_rows as nat, s.compact_max_rows as nat),
        DiscordEvent::UserJoined(p) =>
            first_index(s.participants, p.user_id.0@) is Some
                || layout_fits(s.participants.len() + 1, s.max_visible_rows as nat, s.compact_max_rows as nat),
        DiscordEvent::SpeakingUpdate { user_id, speaking } => speaking ==> now + SPEAKING_HOLD_NANOS <= u64::MAX,
        _ => true,
    }
}

} // verus!
