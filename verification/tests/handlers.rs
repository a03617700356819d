use hypr_overlay_wl::discord::{DiscordCommand, DiscordEvent, Participant, UserId};
use hypr_overlay_wl::handlers::{
    button2_rects, button_rects, drag_handle_rects, point_in_rect, OutputGeometry,
};
use hypr_overlay_wl::state::{App, Effect};

#[test]
fn button_rects_basic() {
    let (x, y, w, h) = button_rects(360, 64);
    assert_eq!(w, 64);
    assert_eq!(h, 48);
    assert_eq!(x, 360i32 - w - 8);
    assert_eq!(y, 8);
}

#[test]
fn button2_rects_basic() {
    let (x, _y, w, h) = button2_rects(360, 64);
    assert_eq!(w, 64);
    assert_eq!(h, 48);
    assert_eq!(x, 360i32 - w - 8 - w - 8);
}

#[test]
fn drag_handle() {
    let (x, y, w, h) = drag_handle_rects(360, 64);
    assert_eq!(x, 8);
    assert_eq!(y, 8);
    assert_eq!(w, 24);
    assert!(h > 0);
}

#[test]
fn small_height_button_rects() {
    let (_x, _y, _w, h) = button_rects(100, 10);
    assert_eq!(h, 1);
    let (_x2, _y2, _w2, h2) = button2_rects(100, 10);
    assert_eq!(h2, 1);
    let (_hx, _hy, _hw, hh) = drag_handle_rects(100, 10);
    assert_eq!(hh, 1);
}

#[test]
fn button_rects_preserves_width() {
    let (_, _, w, _) = button_rects(200, 100);
    assert_eq!(w, 64);

    let (_, _, w, _) = button_rects(500, 50);
    assert_eq!(w, 64);
}

#[test]
fn button2_rects_at_right_edge() {
    let (x1, _, _w1, _) = button_rects(360, 64);
    let (x2, _, w2, _) = button2_rects(360, 64);
    assert_eq!(x2, x1 - w2 - 8);
}

#[test]
fn drag_handle_ignores_width() {
    let (x, _, _, _) = drag_handle_rects(200, 64);
    assert_eq!(x, 8);

    let (x, _, _, _) = drag_handle_rects(800, 100);
    assert_eq!(x, 8);
}

#[test]
fn button_height_scales_with_window() {
    let (_, _, _, h) = button_rects(100, 100);
    assert_eq!(h, 84);

    let (_, _, _, h) = button_rects(100, 50);
    assert_eq!(h, 34);

    let (_, _, _, h) = button_rects(100, 20);
    assert_eq!(h, 4);

    let (_, _, _, h) = button_rects(100, 8);
    assert_eq!(h, 1);
}

#[test]
fn button_y_always_8() {
    let (_, y, _, _) = button_rects(100, 64);
    assert_eq!(y, 8);

    let (_, y, _, _) = button_rects(500, 200);
    assert_eq!(y, 8);
}

#[test]
fn huge_height_wraps_like_a_cast() {
    // 2^32 - 1 reads as -1 when reinterpreted as i32.
    let (_, _, _, h) = button_rects(100, u32::MAX);
    assert_eq!(h, 1);
}

#[test]
fn rect_hit_test() {
    let r = (10, 20, 5, 5);
    assert!(point_in_rect(10, 20, r));
    assert!(point_in_rect(14, 24, r));
    assert!(!point_in_rect(15, 20, r));
    assert!(!point_in_rect(10, 25, r));
}

fn participant(id: &str, name: &str) -> Participant {
    Participant {
        user_id: UserId(id.to_string()),
        username: name.to_string(),
        nick: None,
        avatar_hash: None,
        muted: false,
        deafened: false,
    }
}

#[test]
fn buttons_send_toggles_and_hold() {
    let mut app = App::new(20, 20, 5, false);
    app.discord_mute = true;
    // Deafen button spans x in [288, 352), mute button [216, 280).
    let out = app.pointer_press(300, 20, true, false, 0, None);
    assert_eq!(out.commands, vec![DiscordCommand::SetDeaf(true)]);
    assert!(out.redraw);
    assert!(app.deaf_held && !app.mute_held);
    let out = app.pointer_press(220, 20, true, false, 0, None);
    assert_eq!(out.commands, vec![DiscordCommand::SetMute(false)]);
    assert!(app.pointer_release(true));
    assert!(!app.deaf_held && !app.mute_held);
    assert!(!app.pointer_release(true));
}

#[test]
fn double_click_on_handle_toggles_compact() {
    let mut app = App::new(20, 20, 5, false);
    let first = app.pointer_press(10, 20, true, true, 1_000_000_000, None);
    assert!(first.redraw && !first.stop);
    assert!(app.dragging);
    let second = app.pointer_press(10, 20, true, true, 1_300_000_000, None);
    assert!(second.stop);
    assert!(app.compact);
    assert!(!app.dragging);
    assert_eq!(app.width, 120);
    assert_eq!(app.height, 48);
    let effects = app.take_effects();
    assert!(matches!(effects.last(), Some(Effect::ClearInputRegion)));
    // A slow second click only starts another drag.
    let mut slow = App::new(0, 0, 5, false);
    slow.pointer_press(10, 20, true, true, 0, None);
    let later = slow.pointer_press(10, 20, true, true, 400_000_000, None);
    assert!(!later.stop && !slow.compact);
}

#[test]
fn drag_needs_super_held() {
    let mut app = App::new(20, 20, 5, false);
    let out = app.pointer_press(10, 20, true, false, 0, None);
    assert!(!out.stop);
    assert!(!app.dragging);
    assert_eq!(app.last_click_time, Some(0));
    // A double click toggles compact mode with or without Super.
    let out = app.pointer_press(10, 20, true, false, 100_000_000, None);
    assert!(out.stop && app.compact);
    // In compact mode the whole surface is the handle; Super still decides the drag.
    app.pointer_press(200, 30, true, false, 2_000_000_000, None);
    assert!(!app.dragging);
    app.pointer_press(200, 30, true, true, 4_000_000_000, None);
    assert!(app.dragging);
}

#[test]
fn drag_moves_surface_and_margins() {
    let mut app = App::new(100, 50, 5, false);
    let geo = OutputGeometry { logical_position: Some((0, 0)), logical_size: None, scale_factor: 1, surface_scale: None };
    app.pointer_press(10, 20, true, true, 0, Some(geo));
    assert!(app.dragging);
    assert_eq!(app.drag_base_pos, (100, 50));
    let geo = OutputGeometry { logical_position: Some((0, 0)), logical_size: None, scale_factor: 1, surface_scale: None };
    assert!(app.pointer_motion(15, 30, Some(geo)));
    assert_eq!(app.drag_base_pos, (105, 60));
    assert_eq!(app.margins, (60, 0, 0, 105));
    assert!(!app.pointer_motion(1, 1, None));
    app.pointer_release(true);
    assert!(!app.dragging);
}

#[test]
fn drag_start_from_bottom_right_anchor() {
    let mut app = App::new(0, 0, 5, false);
    app.anchor.top = false;
    app.anchor.left = false;
    app.anchor.bottom = true;
    app.anchor.right = true;
    app.margins = (0, 10, 20, 0);
    let geo = OutputGeometry { logical_position: Some((100, 0)), logical_size: Some((800, 600)), scale_factor: 2, surface_scale: Some(1) };
    app.start_drag(3, 4, Some(geo));
    // abs_left = 200 + 1600 - 10 - 360, abs_top = 0 + 1200 - 20 - 64
    assert_eq!(app.drag_base_pos, (1430, 1116));
    assert!(app.anchor.top && app.anchor.left && !app.anchor.right && !app.anchor.bottom);
    match app.take_effects().last() {
        Some(Effect::PlaceAt { top, left }) => {
            assert_eq!(*top, 558);
            assert_eq!(*left, 615);
        }
        _ => panic!("expected PlaceAt"),
    }
}

#[test]
fn scrolling_stays_within_the_list() {
    let mut app = App::new(0, 0, 2, false);
    let parts = vec![participant("a", "A"), participant("b", "B"), participant("c", "C")];
    app.handle_discord_event(DiscordEvent::VoiceParticipants { participants: parts, channel_name: Some("R".to_string()) }, 0);
    assert!(app.pointer_scroll(true, true));
    assert_eq!(app.scroll_offset, 1);
    assert!(app.pointer_scroll(true, true));
    assert_eq!(app.scroll_offset, 1);
    assert!(app.pointer_scroll(false, true));
    assert_eq!(app.scroll_offset, 0);
    assert!(app.pointer_scroll(false, true));
    assert_eq!(app.scroll_offset, 0);
    assert!(!app.pointer_scroll(true, false));
}
