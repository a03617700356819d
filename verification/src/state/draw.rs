//! What a redraw decides before anything is painted: the scroll indicator,
//! participant-count and overflow labels, and which rows are visible.

use vstd::prelude::*;
use crate::discord::UserId;
use crate::text::{count_label, dec, overflow_label, scroll_label, scroll_text};
use super::participant::ParticipantState;
use super::{App, AppV, Effect, EffectV, Label, min_nat};

verus! {

/// One visible participant row, as the painter needs it.
pub struct RowInfo {
    /// Position in the participant list.
    pub index: usize,
    pub user_id: UserId,
    pub display_name: String,
    pub muted: bool,
    pub deafened: bool,
    /// Whether the row shows the local user.
    pub is_self: bool,
    /// Talk time in whole seconds.
    pub talk_secs: u64,
}

/// Rows hidden below the visible window.
pub open spec fn rows_below(s: AppV) -> nat {
    let len = s.participants.len();
    if len >= s.scroll_offset + s.max_visible_rows { (len - s.scroll_offset - s.max_visible_rows) as nat } else { 0 }
}

/// The scroll indicator: regenerated when the scroll position or the list
/// length changed while not everyone fits; dropped once everyone fits again.
pub open spec fn with_scroll_label(s: AppV) -> AppV {
    let len = s.participants.len();
    let state = (s.scroll_offset, len as usize);
    if len > s.max_visible_rows {
        if state != s.last_scroll_state {
            let t = scroll_text(s.scroll_offset as nat, rows_below(s));
            let s1 = AppV { last_scroll_state: state, scroll_label_shown: false, ..s }
                .with_effect(EffectV::DeleteLabel(Label::ScrollIndicator));
            if t.len() > 0 {
                AppV { scroll_label_shown: true, ..s1.with_effect(EffectV::RenderLabel(Label::ScrollIndicator, t)) }
            } else {
                s1
            }
        } else {
            s
        }
    } else if s.scroll_label_shown {
        AppV { scroll_label_shown: false, last_scroll_state: (usize::MAX, usize::MAX), ..s }
            .with_effect(EffectV::DeleteLabel(Label::ScrollIndicator))
    } else {
        s
    }
}

/// The participant-count label, regenerated when the count changed (none for zero).
pub open spec fn with_count_label(s: AppV) -> AppV {
    let c = s.participants.len();
    if c != s.last_participant_count {
        let s1 = AppV { last_participant_count: c as usize, ..s }.with_effect(EffectV::DeleteLabel(Label::ParticipantCount));
        if c > 0 {
            s1.with_effect(EffectV::RenderLabel(Label::ParticipantCount, dec(c) + " in channel"@))
        } else {
            s1
        }
    } else {
        s
    }
}

/// The row for the participant at position `i`.
pub open spec fn row_at(s: AppV, i: int, now: u64) -> RowInfo {
    let p = s.participants[i];
    RowInfo {
        index: i as usize,
        user_id: p.user_id,
        display_name: p.display_name,
        muted: p.muted,
        deafened: p.deafened,
        is_self: p.user_id.0@ == s.self_user_id.0@,
        talk_secs: p.talk_secs_at(now) as u64,
    }
}

/// The visible rows: up to `max_visible_rows` participants from the scroll offset on.
pub open spec fn visible_window(s: AppV, now: u64) -> Seq<RowInfo> {
    let n = min_nat((s.participants.len() - s.scroll_offset) as nat, s.max_visible_rows as nat);
    Seq::new(n, |k: int| row_at(s, s.scroll_offset + k, now))
}

/// The compact-mode overflow badge ("+N"), regenerated when N changed (none for zero).
pub open spec fn with_overflow_label(s: AppV) -> AppV {
    let total = s.participants.len();
    let overflow: nat = if total > s.compact_max_rows { (total - s.compact_max_rows) as nat } else { 0 };
    if overflow != s.last_overflow_count {
        let s1 = AppV { last_overflow_count: overflow as usize, ..s }.with_effect(EffectV::DeleteLabel(Label::OverflowBadge));
        if overflow > 0 {
            s1.with_effect(EffectV::RenderLabel(Label::OverflowBadge, seq!['+'] + dec(overflow)))
        } else {
            s1
        }
    } else {
        s
    }
}

impl App {
    fn update_scroll_label(&mut self)
        requires
            old(self)@.scroll_offset <= old(self)@.participants.len(),
        ensures
            final(self)@ == with_scroll_label(old(self)@),
    {
        let len = self.participants.len();
        if len > self.max_visible_rows {
            if self.scroll_offset != self.last_scroll_state.0 || len != self.last_scroll_state.1 {
                self.last_scroll_state = (self.scroll_offset, len);
                self.scroll_label_shown = false;
                self.emit(Effect::DeleteLabel(Label::ScrollIndicator));
                let above = self.scroll_offset;
                let below = (len - self.scroll_offset).saturating_sub(self.max_visible_rows);
                let label = scroll_label(above, below);
                if !label.as_str().is_empty() {
                    self.emit(Effect::RenderLabel(Label::ScrollIndicator, label));
                    self.scroll_label_shown = true;
                }
            }
        } else if self.scroll_label_shown {
            self.scroll_label_shown = false;
            self.last_scroll_state = (usize::MAX, usize::MAX);
            self.emit(Effect::DeleteLabel(Label::ScrollIndicator));
        }
    }

    fn update_count_label(&mut self)
        ensures
            final(self)@ == with_count_label(old(self)@),
    {
        let count = self.participants.len();
        if count != self.last_participant_count {
            self.last_participant_count = count;
            self.emit(Effect::DeleteLabel(Label::ParticipantCount));
            if count > 0 {
                self.emit(Effect::RenderLabel(Label::ParticipantCount, count_label(count)));
            }
        }
    }

    /// Before a normal-mode redraw at `now`: refreshes the scroll indicator
    /// and count labels, and lists the visible rows.
    pub fn prepare_draw(&mut self, now: u64) -> (r: Vec<RowInfo>)
        requires
            old(self)@.scroll_offset <= old(self)@.participants.len(),
        ensures
            final(self)@ == with_count_label(with_scroll_label(old(self)@)),
            r@ == visible_window(old(self)@, now),
    {
        self.update_scroll_label();
        self.update_count_label();
        let ghost s = self@;
        let mut rows: Vec<RowInfo> = Vec::new();
        let mut i = self.scroll_offset;
        let end = if self.participants.len() - self.scroll_offset <= self.max_visible_rows {
            self.participants.len()
        } else {
            self.scroll_offset + self.max_visible_rows
        };
        while i < end
            invariant
                self@ == s,
                s.scroll_offset <= i <= end <= s.participants.len(),
                end - s.scroll_offset == min_nat((s.participants.len() - s.scroll_offset) as nat, s.max_visible_rows as nat),
                rows@.len() == i - s.scroll_offset,
                forall|k: int| 0 <= k < rows@.len() ==> rows@[k] == row_at(s, s.scroll_offset + k, now),
            decreases end - i,
        {
            let p = &self.participants[i];
            let is_self = crate::text::str_eq(p.user_id.as_str(), self.self_user_id.as_str());
            let row = RowInfo {
                index: i,
                user_id: p.user_id.clone(),
                display_name: p.display_name.clone(),
                muted: p.muted,
                deafened: p.deafened,
                is_self,
                talk_secs: p.current_talk_secs(now),
            };
            rows.push(row);
            i += 1;
        }
        proof {
            assert(rows@ =~= visible_window(s, now));
        }
        rows
    }

    /// Before a compact-mode redraw: refreshes the overflow badge and returns
    /// how many avatars are shown.
    pub fn prepare_compact_draw(&mut self) -> (r: usize)
        ensures
            final(self)@ == with_overflow_label(old(self)@),
            r == min_nat(old(self)@.participants.len(), old(self)@.compact_max_rows as nat),
    {
        let total = self.participants.len();
        let max_compact = self.compact_max_rows;
        let visible = if total <= max_compact { total } else { max_compact };
        let overflow = total.saturating_sub(max_compact);
        if overflow != self.last_overflow_count {
            self.last_overflow_count = overflow;
            self.emit(Effect::DeleteLabel(Label::OverflowBadge));
            if overflow > 0 {
                self.emit(Effect::RenderLabel(Label::OverflowBadge, overflow_label(overflow)));
            }
        }
        visible
    }
}

} // verus!
