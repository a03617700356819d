//! Control-bar layout and what pointer input does to the overlay: the
//! mute/deafen buttons, the drag handle, double-click to toggle compact mode,
//! dragging, and scrolling the participant list.

use vstd::prelude::*;
use crate::discord::DiscordCommand;
use crate::state::{App, AppV, Effect, EffectV, layout_fits, top_left};

verus! {

/// A `u32` reinterpreted as an `i32` (two's complement), as `x as i32` does.
pub open spec fn wrap_i32(x: u32) -> int {
    if x <= 0x7fff_ffff { x as int } else { x - 0x1_0000_0000 }
}

fn to_i32_wrapping(x: u32) -> (r: i32)
    ensures
        r == wrap_i32(x),
{
    let r = x as i32;
    assert(x <= 0x7fff_ffff ==> r == x) by (bit_vector)
        requires r == x as i32;
    assert(x > 0x7fff_ffff ==> r == x - 0x1_0000_0000) by (bit_vector)
        requires r == x as i32;
    r
}

/// Height of the buttons and the drag handle for a bar `h` pixels tall: 8 px
/// margins, at least 1 px.
pub open spec fn bar_item_height(h: u32) -> int {
    if wrap_i32(h) - 16 >= 1 { wrap_i32(h) - 16 } else { 1 }
}

/// The arithmetic of the layout fits in `i32` for a surface `w` by `h`.
pub open spec fn bar_fits(w: u32, h: u32) -> bool {
    wrap_i32(w) - 144 >= i32::MIN && wrap_i32(h) - 16 >= i32::MIN
}

fn bar_height(h: u32) -> (r: i32)
    requires
        wrap_i32(h) - 16 >= i32::MIN,
    ensures
        r == bar_item_height(h),
{
    let bh = to_i32_wrapping(h) - 16;
    if bh >= 1 { bh } else { 1 }
}

/// The deafen button: 64 px wide, 8 px from the right edge and the top.
pub fn button_rects(w: u32, h: u32) -> (r: (i32, i32, i32, i32))
    requires
        wrap_i32(w) - 72 >= i32::MIN,
        wrap_i32(h) - 16 >= i32::MIN,
    ensures
        r.0 == wrap_i32(w) - 72 && r.1 == 8 && r.2 == 64 && r.3 == bar_item_height(h),
{
    let bw: i32 = 64;
    (to_i32_wrapping(w) - bw - 8, 8, bw, bar_height(h))
}

/// The mute button: 64 px wide, 8 px left of the deafen button.
pub fn button2_rects(w: u32, h: u32) -> (r: (i32, i32, i32, i32))
    requires
        wrap_i32(w) - 144 >= i32::MIN,
        wrap_i32(h) - 16 >= i32::MIN,
    ensures
        r.0 == wrap_i32(w) - 144 && r.1 == 8 && r.2 == 64 && r.3 == bar_item_height(h),
{
    let bw: i32 = 64;
    (to_i32_wrapping(w) - bw - 8 - bw - 8, 8, bw, bar_height(h))
}

/// The drag handle: 24 px wide at the left, whatever the width.
pub fn drag_handle_rects(_w: u32, h: u32) -> (r: (i32, i32, i32, i32))
    requires
        wrap_i32(h) - 16 >= i32::MIN,
    ensures
        r.0 == 8 && r.1 == 8 && r.2 == 24 && r.3 == bar_item_height(h),
{
    (8, 8, 24, bar_height(h))
}

/// Whether `(x, y)` lies in the rectangle `(left, top, width, height)`.
pub open spec fn in_rect(x: int, y: int, r: (i32, i32, i32, i32)) -> bool {
    x >= r.0 && x < r.0 + r.2 && y >= r.1 && y < r.1 + r.3
}

pub fn point_in_rect(x: i32, y: i32, r: (i32, i32, i32, i32)) -> (b: bool)
    ensures
        b == in_rect(x as int, y as int, r),
{
    let (rx, ry, rw, rh) = r;
    (x as i64) >= (rx as i64) && (x as i64) < (rx as i64) + (rw as i64)
        && (y as i64) >= (ry as i64) && (y as i64) < (ry as i64) + (rh as i64)
}

/// Integer division rounding toward zero, as Rust's `/` on integers does.
pub open spec fn trunc_div(a: int, b: int) -> int {
    let q = (if a < 0 { -a } else { a }) / (if b < 0 { -b } else { b });
    if (a < 0) != (b < 0) { -q } else { q }
}

fn div_trunc(a: i32, b: i32) -> (r: i32)
    requires
        b != 0,
        !(a == i32::MIN && b == -1),
    ensures
        r == trunc_div(a as int, b as int),
{
    let ua: u64 = if a < 0 { (-(a as i64)) as u64 } else { a as u64 };
    let ub: u64 = if b < 0 { (-(b as i64)) as u64 } else { b as u64 };
    let q = ua / ub;
    assert(q <= 0x8000_0000) by (nonlinear_arith)
        requires q == ua / ub, ua <= 0x8000_0000, ub >= 1;
    if (a < 0) != (b < 0) {
        (-(q as i64)) as i32
    } else {
        assert(q <= 0x7fff_ffff) by (nonlinear_arith)
            requires q == ua / ub, ua <= 0x8000_0000, ub >= 1, ua == 0x8000_0000 ==> ub >= 2;
        q as i32
    }
}

/// What the compositor reports about the output the overlay is on.
pub struct OutputGeometry {
    /// The output's position in the global space, when known.
    pub logical_position: Option<(i32, i32)>,
    /// The output's size, when known.
    pub logical_size: Option<(i32, i32)>,
    /// The output's scale factor.
    pub scale_factor: i32,
    /// The surface's buffer scale, when known.
    pub surface_scale: Option<i32>,
}

pub open spec fn i32_ok(v: int) -> bool {
    i32::MIN <= v <= i32::MAX
}

/// The values a drag start computes from the surface's anchor, margins and
/// size on output `g`: the surface's absolute top-left corner and its new
/// top/left margins relative to the output. Unknown positions count as
/// (0, 0), unknown sizes as 1920 x 1080 and an unknown surface scale as 1.
#[verifier::opaque]
pub open spec fn drag_origin(s: AppV, g: OutputGeometry) -> (int, int, int, int) {
    let (px, py) = match g.logical_position { Some(p) => p, None => (0i32, 0i32) };
    let (sx, sy) = match g.logical_size { Some(z) => z, None => (1920i32, 1080i32) };
    let sc = g.scale_factor as int;
    let ss = match g.surface_scale { Some(v) => v as int, None => 1int };
    let (top, right, bottom, left) = s.margins;
    let surf_w = wrap_i32(s.width) * ss;
    let surf_h = wrap_i32(s.height) * ss;
    let (opx, opy) = (px * sc, py * sc);
    let (osx, osy) = (sx * sc, sy * sc);
    let abs_left = if s.anchor.right { opx + osx - right - surf_w } else { opx + left };
    let abs_top = if s.anchor.bottom { opy + osy - bottom - surf_h } else { opy + top };
    (abs_left, abs_top, trunc_div(abs_top - opy, sc), trunc_div(abs_left - opx, sc))
}

/// Every intermediate value of the drag-start arithmetic fits in `i32`, and
/// the scale can divide.
#[verifier::opaque]
pub open spec fn drag_fits(s: AppV, g: OutputGeometry) -> bool {
    let (px, py) = match g.logical_position { Some(p) => p, None => (0i32, 0i32) };
    let (sx, sy) = match g.logical_size { Some(z) => z, None => (1920i32, 1080i32) };
    let sc = g.scale_factor as int;
    let ss = match g.surface_scale { Some(v) => v as int, None => 1int };
    let (top, right, bottom, left) = s.margins;
    let surf_w = wrap_i32(s.width) * ss;
    let surf_h = wrap_i32(s.height) * ss;
    let (opx, opy) = (px * sc, py * sc);
    let (osx, osy) = (sx * sc, sy * sc);
    let o = drag_origin(s, g);
    &&& sc != 0
    &&& i32_ok(surf_w) && i32_ok(surf_h)
    &&& i32_ok(opx) && i32_ok(opy) && i32_ok(osx) && i32_ok(osy)
    &&& (s.anchor.right ==> i32_ok(opx + osx) && i32_ok(opx + osx - right))
    &&& (s.anchor.bottom ==> i32_ok(opy + osy) && i32_ok(opy + osy - bottom))
    &&& i32_ok(o.0) && i32_ok(o.1)
    &&& i32_ok(o.1 - opy) && i32_ok(o.0 - opx)
    &&& !(o.1 - opy == i32::MIN && sc == -1) && !(o.0 - opx == i32::MIN && sc == -1)
}

/// The drag-start arithmetic reads only the size, margins and anchor.
proof fn lemma_drag_frame(s: AppV, t: AppV, g: OutputGeometry)
    requires
        s.width == t.width,
        s.height == t.height,
        s.margins == t.margins,
        s.anchor == t.anchor,
    ensures
        drag_fits(s, g) == drag_fits(t, g),
        drag_origin(s, g) == drag_origin(t, g),
{
    reveal(drag_fits);
    reveal(drag_origin);
}

pub open spec fn i64_in_i32(v: i64) -> bool {
    i32::MIN <= v <= i32::MAX
}

/// Starting a drag with the pointer at `(x, y)`: when the output is known the
/// surface is re-anchored top-left at its current absolute position.
pub open spec fn spec_start_drag(s: AppV, x: i32, y: i32, g: Option<OutputGeometry>) -> AppV {
    let s1 = match g {
        Some(geo) => {
            let o = drag_origin(s, geo);
            AppV { anchor: top_left(), drag_base_pos: (o.0 as i32, o.1 as i32), ..s }
                .with_effect(EffectV::PlaceAt { top: o.2 as i32, left: o.3 as i32 })
        },
        None => s,
    };
    AppV { dragging: true, last_pointer: (x, y), ..s1 }
}

/// What a press does, and what it asks for: commands for Discord, whether
/// to redraw, and whether the rest of the pointer frame is dropped.
pub struct PressOutcome {
    pub commands: Vec<DiscordCommand>,
    pub redraw: bool,
    pub stop: bool,
}

/// The mute/deafen button hits at `(x, y)` in normal mode.
pub open spec fn spec_button_clicks(s: AppV, x: i32, y: i32) -> (AppV, Seq<DiscordCommand>) {
    let deaf_rect = ((wrap_i32(s.width) - 72) as i32, 8i32, 64i32, 48i32);
    let mute_rect = ((wrap_i32(s.width) - 144) as i32, 8i32, 64i32, 48i32);
    let hit_deaf = in_rect(x as int, y as int, deaf_rect);
    let hit_mute = in_rect(x as int, y as int, mute_rect);
    let s1 = if hit_deaf { AppV { deaf_held: true, ..s } } else { s };
    let s2 = if hit_mute { AppV { mute_held: true, ..s1 } } else { s1 };
    let c1 = if hit_deaf { seq![DiscordCommand::SetDeaf(!s.discord_deaf)] } else { Seq::empty() };
    let c2 = if hit_mute { seq![DiscordCommand::SetMute(!s.discord_mute)] } else { Seq::empty() };
    (s2, c1 + c2)
}

/// Presses within this many nanoseconds of the previous one on the drag
/// handle count as a double click (400 ms).
pub const DOUBLE_CLICK_NANOS: u64 = 400_000_000;

/// A press on the drag handle at time `now`: a second press within 400 ms
/// toggles compact mode (and ends the pointer frame); otherwise the press is
/// remembered for the next one, and a drag starts when Super (`logo`) is held.
pub open spec fn spec_handle_press(s: AppV, x: i32, y: i32, now: u64, g: Option<OutputGeometry>, logo: bool) -> (AppV, bool) {
    let double = match s.last_click_time {
        Some(t) => super::state::participant::elapsed(now, t) < DOUBLE_CLICK_NANOS,
        None => false,
    };
    if double {
        (AppV { compact: !s.compact, dragging: false, last_click_time: None, ..s }
            .compact_resized()
            .with_effect(EffectV::ClearInputRegion), true)
    } else {
        let s1 = AppV { last_click_time: Some(now), ..s };
        (if logo { spec_start_drag(s1, x, y, g) } else { s1 }, false)
    }
}

/// Whether a press at `(x, y)` grabs the drag handle: in compact mode the
/// whole surface is the handle.
pub open spec fn on_drag_handle(s: AppV, x: i32, y: i32, left: bool) -> bool {
    if s.compact { left } else { left && in_rect(x as int, y as int, (8i32, 8i32, 24i32, 48i32)) }
}

/// A press of a pointer button at `(x, y)` at time `now`, with Super held or
/// not (`logo`): the state after it, the commands for Discord, whether to
/// redraw, and whether the rest of the pointer frame is dropped.
pub open spec fn spec_press(s: AppV, x: i32, y: i32, left: bool, logo: bool, now: u64, g: Option<OutputGeometry>) -> (AppV, Seq<DiscordCommand>, bool, bool) {
    let (s1, cmds) = if !s.compact { spec_button_clicks(s, x, y) } else { (s, Seq::empty()) };
    if on_drag_handle(s, x, y, left) {
        let (s2, stop) = spec_handle_press(s1, x, y, now, g, logo);
        (s2, cmds, true, stop)
    } else {
        (s1, cmds, cmds.len() > 0, false)
    }
}

/// Pointer motion to `(x, y)` while dragging moves the surface so the grab
/// point stays under the pointer; margins follow when the output is known.
pub open spec fn spec_motion(s: AppV, x: i32, y: i32, g: Option<OutputGeometry>) -> (AppV, bool) {
    if !s.dragging {
        (s, false)
    } else {
        let new_x = s.drag_base_pos.0 + x - s.last_pointer.0;
        let new_y = s.drag_base_pos.1 + y - s.last_pointer.1;
        let s1 = AppV { drag_base_pos: (new_x as i32, new_y as i32), ..s };
        match g {
            Some(geo) => {
                let (px, py) = match geo.logical_position { Some(p) => p, None => (0i32, 0i32) };
                let sc: int = if geo.scale_factor >= 1 { geo.scale_factor as int } else { 1 };
                let left = trunc_div(new_x - px * sc, sc);
                let top = trunc_div(new_y - py * sc, sc);
                (AppV { margins: (top as i32, 0, 0, left as i32), ..s1 }
                    .with_effect(EffectV::PlaceAt { top: top as i32, left: left as i32 }), true)
            },
            None => (s1, false),
        }
    }
}

/// The motion arithmetic fits in `i32`.
pub open spec fn motion_fits(s: AppV, x: i32, y: i32, g: Option<OutputGeometry>) -> bool {
    s.dragging ==> {
        let new_x = s.drag_base_pos.0 + x - s.last_pointer.0;
        let new_y = s.drag_base_pos.1 + y - s.last_pointer.1;
        &&& i32_ok(s.drag_base_pos.0 + x) && i32_ok(new_x)
        &&& i32_ok(s.drag_base_pos.1 + y) && i32_ok(new_y)
        &&& (g matches Some(geo) ==> {
            let (px, py) = match geo.logical_position { Some(p) => p, None => (0i32, 0i32) };
            let sc: int = if geo.scale_factor >= 1 { geo.scale_factor as int } else { 1 };
            i32_ok(px * sc) && i32_ok(py * sc) && i32_ok(new_x - px * sc) && i32_ok(new_y - py * sc)
        })
    }
}

/// The scroll offset after one step: down moves one row further, at most
/// to where the last page is full; up moves one row back, at most to the top.
pub open spec fn scrolled(s: AppV, down: bool) -> usize {
    if down {
        let len = s.participants.len();
        let max_offset: int = if len >= s.max_visible_rows { len - s.max_visible_rows } else { 0 };
        if s.scroll_offset < max_offset { (s.scroll_offset + 1) as usize } else { max_offset as usize }
    } else if s.scroll_offset >= 1 {
        (s.scroll_offset - 1) as usize
    } else {
        0
    }
}

fn mul_wide(a: i32, b: i32) -> (r: i64)
    ensures
        r == a * b,
{
    assert(-0x4000_0000_0000_0000 <= (a as int) * (b as int) <= 0x4000_0000_0000_0000) by (nonlinear_arith)
        requires i32::MIN <= a <= i32::MAX, i32::MIN <= b <= i32::MAX;
    (a as i64) * (b as i64)
}

fn i64_ok(v: i64) -> (r: bool)
    ensures
        r == i32_ok(v as int),
{
    i32::MIN as i64 <= v && v <= i32::MAX as i64
}

/// Whether the control-bar layout of a surface `w` by `h` fits in `i32`.
pub fn bar_fits_check(w: u32, h: u32) -> (r: bool)
    ensures
        r == bar_fits(w, h),
{
    (to_i32_wrapping(w) as i64) - 144 >= i32::MIN as i64 && (to_i32_wrapping(h) as i64) - 16 >= i32::MIN as i64
}

impl App {
    /// Clicks on the mute/deafen buttons (normal mode only): each hit button
    /// is held down and asks Discord to flip its state (deafen first).
    pub fn handle_button_clicks(&mut self, x: i32, y: i32) -> (r: Vec<DiscordCommand>)
        requires
            bar_fits(old(self).width, 64),
        ensures
            (final(self)@, r@) == spec_button_clicks(old(self)@, x, y),
    {
        let mut cmds: Vec<DiscordCommand> = Vec::new();
        let deaf_rect = button_rects(self.width, 64);
        if point_in_rect(x, y, deaf_rect) {
            self.deaf_held = true;
            cmds.push(DiscordCommand::SetDeaf(!self.discord_deaf));
        }
        let mute_rect = button2_rects(self.width, 64);
        if point_in_rect(x, y, mute_rect) {
            self.mute_held = true;
            cmds.push(DiscordCommand::SetMute(!self.discord_mute));
        }
        proof {
            let (_, c) = spec_button_clicks(old(self)@, x, y);
            assert(cmds@ =~= c);
        }
        cmds
    }

    fn origin_on(&self, g: &OutputGeometry) -> (r: (i32, i32, i32, i32))
        requires
            drag_fits(self@, *g),
        ensures
            r.0 == drag_origin(self@, *g).0,
            r.1 == drag_origin(self@, *g).1,
            r.2 == drag_origin(self@, *g).2,
            r.3 == drag_origin(self@, *g).3,
    {
        proof {
            reveal(drag_fits);
            reveal(drag_origin);
        }
        let (px, py) = match g.logical_position { Some(p) => p, None => (0, 0) };
        let (sx, sy) = match g.logical_size { Some(z) => z, None => (1920, 1080) };
        let sc = g.scale_factor;
        let ss = match g.surface_scale { Some(v) => v, None => 1 };
        let (top, right, bottom, left) = self.margins;
        let surf_w = to_i32_wrapping(self.width) * ss;
        let surf_h = to_i32_wrapping(self.height) * ss;
        let opx = px * sc;
        let opy = py * sc;
        let osx = sx * sc;
        let osy = sy * sc;
        let abs_left = if self.anchor.right { opx + osx - right - surf_w } else { opx + left };
        let abs_top = if self.anchor.bottom { opy + osy - bottom - surf_h } else { opy + top };
        let top_m = div_trunc(abs_top - opy, sc);
        let left_m = div_trunc(abs_left - opx, sc);
        (abs_left, abs_top, top_m, left_m)
    }

    /// Begins a drag with the pointer at `(x, y)`; `output` describes the
    /// output the surface is on, when the compositor told.
    pub fn start_drag(&mut self, x: i32, y: i32, output: Option<OutputGeometry>)
        requires
            output matches Some(g) ==> drag_fits(old(self)@, g),
        ensures
            final(self)@ == spec_start_drag(old(self)@, x, y, output),
    {
        match output {
            Some(g) => {
                let (abs_left, abs_top, top_m, left_m) = self.origin_on(&g);
                self.anchor = crate::state::Anchor { top: true, bottom: false, left: true, right: false };
                self.emit(Effect::PlaceAt { top: top_m, left: left_m });
                self.drag_base_pos = (abs_left, abs_top);
            },
            None => {},
        }
        self.dragging = true;
        self.last_pointer = (x, y);
    }

    #[verifier::rlimit(40)]
    fn press_handle(&mut self, x: i32, y: i32, now: u64, output: Option<OutputGeometry>, logo: bool) -> (stop: bool)
        requires
            layout_fits(old(self)@.participants.len(), old(self).max_visible_rows as nat, old(self).compact_max_rows as nat),
            output matches Some(g) ==> drag_fits(AppV { last_click_time: Some(now), ..old(self)@ }, g),
        ensures
            (final(self)@, stop) == spec_handle_press(old(self)@, x, y, now, output, logo),
    {
        let double = match self.last_click_time {
            Some(t) => now.saturating_sub(t) < DOUBLE_CLICK_NANOS,
            None => false,
        };
        if double {
            self.compact = !self.compact;
            self.dragging = false;
            self.last_click_time = None;
            self.apply_compact_resize();
            self.emit(Effect::ClearInputRegion);
            true
        } else {
            self.last_click_time = Some(now);
            if logo {
                self.start_drag(x, y, output);
            }
            false
        }
    }

    /// A press at `(x, y)` at time `now` (`left` for the left button, `logo`
    /// while Super is held).
    #[verifier::rlimit(80)]
    pub fn pointer_press(&mut self, x: i32, y: i32, left: bool, logo: bool, now: u64, output: Option<OutputGeometry>) -> (r: PressOutcome)
        requires
            bar_fits(old(self).width, 64),
            old(self)@.wf(),
            output matches Some(g) ==> drag_fits(old(self)@, g),
        ensures
            (final(self)@, r.commands@, r.redraw, r.stop) == spec_press(old(self)@, x, y, left, logo, now, output),
    {
        let ghost s0 = self@;
        let commands = if !self.compact { self.handle_button_clicks(x, y) } else { Vec::new() };
        assert(commands@.len() == 0 ==> self.compact || commands@ =~= spec_button_clicks(s0, x, y).1);
        let on_handle = if self.compact {
            left
        } else {
            left && point_in_rect(x, y, drag_handle_rects(self.width, 64))
        };
        if on_handle {
            let ghost og = output;
            proof {
                match og {
                    Some(g) => { lemma_drag_frame(s0, AppV { last_click_time: Some(now), ..self@ }, g); },
                    None => {},
                }
            }
            let stop = self.press_handle(x, y, now, output, logo);
            PressOutcome { commands, redraw: true, stop }
        } else {
            let clicked = commands.len() > 0;
            PressOutcome { commands, redraw: clicked, stop: false }
        }
    }

    /// Pointer motion to `(x, y)`; `output` describes the output the drag
    /// started on, when known. True when the overlay moved (redraw needed).
    pub fn pointer_motion(&mut self, x: i32, y: i32, output: Option<OutputGeometry>) -> (r: bool)
        requires
            motion_fits(old(self)@, x, y, output),
        ensures
            (final(self)@, r) == spec_motion(old(self)@, x, y, output),
    {
        if !self.dragging {
            return false;
        }
        let new_x = self.drag_base_pos.0 + x - self.last_pointer.0;
        let new_y = self.drag_base_pos.1 + y - self.last_pointer.1;
        self.drag_base_pos = (new_x, new_y);
        match output {
            Some(g) => {
                let (px, py) = match g.logical_position { Some(p) => p, None => (0, 0) };
                let sc = if g.scale_factor >= 1 { g.scale_factor } else { 1 };
                let left = div_trunc(new_x - px * sc, sc);
                let top = div_trunc(new_y - py * sc, sc);
                self.margins = (top, 0, 0, left);
                self.emit(Effect::PlaceAt { top, left });
                true
            },
            None => false,
        }
    }

    /// A button release: the left button ends a drag and lets go of held
    /// buttons. True when a held button was let go (redraw needed).
    pub fn pointer_release(&mut self, left: bool) -> (r: bool)
        ensures
            !left ==> final(self)@ == old(self)@ && !r,
            left ==> final(self)@ == (AppV { dragging: false, mute_held: false, deaf_held: false, ..old(self)@ })
                && r == (old(self).mute_held || old(self).deaf_held),
    {
        if !left {
            return false;
        }
        self.dragging = false;
        if self.mute_held || self.deaf_held {
            self.mute_held = false;
            self.deaf_held = false;
            true
        } else {
            false
        }
    }

    /// Whether a drag can start on output `g` without overflowing `i32`
    /// (the condition `start_drag` and `pointer_press` need).
    pub fn drag_start_fits(&self, g: &OutputGeometry) -> (r: bool)
        ensures
            r == drag_fits(self@, *g),
    {
        proof {
            reveal(drag_fits);
            reveal(drag_origin);
        }
        let (px, py) = match g.logical_position { Some(p) => p, None => (0, 0) };
        let (sx, sy) = match g.logical_size { Some(z) => z, None => (1920, 1080) };
        let sc32 = g.scale_factor;
        let sc = sc32 as i64;
        let ss: i32 = match g.surface_scale { Some(v) => v, None => 1 };
        let (top, right, bottom, left) = self.margins;
        let surf_w = mul_wide(to_i32_wrapping(self.width), ss);
        let surf_h = mul_wide(to_i32_wrapping(self.height), ss);
        let opx = mul_wide(px, sc32);
        let opy = mul_wide(py, sc32);
        let osx = mul_wide(sx, sc32);
        let osy = mul_wide(sy, sc32);
        if sc == 0 || !i64_ok(surf_w) || !i64_ok(surf_h) || !i64_ok(opx) || !i64_ok(opy) || !i64_ok(osx) || !i64_ok(osy) {
            return false;
        }
        if self.anchor.right && (!i64_ok(opx + osx) || !i64_ok(opx + osx - right as i64)) {
            return false;
        }
        if self.anchor.bottom && (!i64_ok(opy + osy) || !i64_ok(opy + osy - bottom as i64)) {
            return false;
        }
        let abs_left = if self.anchor.right { opx + osx - right as i64 - surf_w } else { opx + left as i64 };
        let abs_top = if self.anchor.bottom { opy + osy - bottom as i64 - surf_h } else { opy + top as i64 };
        if !i64_ok(abs_left) || !i64_ok(abs_top) || !i64_ok(abs_top - opy) || !i64_ok(abs_left - opx) {
            return false;
        }
        !(abs_top - opy == i32::MIN as i64 && sc == -1) && !(abs_left - opx == i32::MIN as i64 && sc == -1)
    }

    /// Whether pointer motion to `(x, y)` stays within `i32` (the condition
    /// `pointer_motion` needs).
    pub fn motion_fits_check(&self, x: i32, y: i32, output: &Option<OutputGeometry>) -> (r: bool)
        ensures
            r == motion_fits(self@, x, y, *output),
    {
        if !self.dragging {
            return true;
        }
        let bx = self.drag_base_pos.0 as i64 + x as i64;
        let by = self.drag_base_pos.1 as i64 + y as i64;
        let new_x = bx - self.last_pointer.0 as i64;
        let new_y = by - self.last_pointer.1 as i64;
        if !i64_ok(bx) || !i64_ok(by) || !i64_ok(new_x) || !i64_ok(new_y) {
            return false;
        }
        match output {
            Some(geo) => {
                let (px, py) = match geo.logical_position { Some(p) => p, None => (0, 0) };
                let sc: i32 = if geo.scale_factor >= 1 { geo.scale_factor } else { 1 };
                let ox = mul_wide(px, sc);
                let oy = mul_wide(py, sc);
                i64_ok(ox) && i64_ok(oy) && i64_ok(new_x - ox) && i64_ok(new_y - oy)
            },
            None => true,
        }
    }

    /// A scroll step over the participant list (`over_list`): down shows rows
    /// further down, up goes back, within range. False when the step is not
    /// for the list (it adjusts the opacity instead).
    #[verifier::rlimit(30)]
    pub fn pointer_scroll(&mut self, scroll_down: bool, over_list: bool) -> (r: bool)
        ensures
            r == (over_list && old(self)@.participants.len() > 0),
            !r ==> final(self)@ == old(self)@,
            r ==> final(self)@ == (AppV { scroll_offset: scrolled(old(self)@, scroll_down), ..old(self)@ }),
            old(self)@.wf() ==> final(self)@.wf(),
    {
        if !(over_list && self.participants.len() > 0) {
            return false;
        }
        if scroll_down {
            let max_offset = self.participants.len().saturating_sub(self.max_visible_rows);
            self.scroll_offset = if self.scroll_offset < max_offset { self.scroll_offset + 1 } else { max_offset };
        } else {
            self.scroll_offset = self.scroll_offset.saturating_sub(1);
        }
        assert(self@.participants == old(self)@.participants);
        true
    }
}

} // verus!
