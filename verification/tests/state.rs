use hypr_overlay_wl::discord::{DiscordEvent, Participant, UserId};
use hypr_overlay_wl::state::participant::NANOS_PER_SEC;
use hypr_overlay_wl::state::{
    compute_compact_dimensions, compute_normal_height, visible_row_count_len, App, Effect, Label,
    finish_segment, ParticipantState, ParticipantStateBuilder, UserTexture,
};
use hypr_overlay_wl::text::{ping_label, scroll_label};

fn participant(id: &str, name: &str, nick: Option<&str>) -> Participant {
    Participant {
        user_id: UserId(id.to_string()),
        username: name.to_string(),
        nick: nick.map(|n| n.to_string()),
        avatar_hash: None,
        muted: false,
        deafened: false,
    }
}

fn check_visible_row_count_len() {
    assert_eq!(visible_row_count_len(10, 5), 5);
    assert_eq!(visible_row_count_len(3, 5), 3);
}

#[test]
fn state_visible_row_count_len_basic() {
    check_visible_row_count_len();
}

#[test]
fn mod_visible_row_count_len_basic() {
    check_visible_row_count_len();
}

fn check_compact_dim() {
    assert_eq!(compute_compact_dimensions(0), (120, 48));
    assert_eq!(compute_compact_dimensions(1), (120, 48));
    assert_eq!(compute_compact_dimensions(3), (160, 48));
}

#[test]
fn state_compact_dim() {
    check_compact_dim();
}

#[test]
fn mod_compact_dim() {
    check_compact_dim();
}

fn check_normal_height() {
    assert_eq!(compute_normal_height(0, 5), 64);
    assert_eq!(compute_normal_height(6, 5), 64 + 5 * 48 + 20);
}

#[test]
fn state_normal_height_calc() {
    check_normal_height();
}

#[test]
fn mod_normal_height_calc() {
    check_normal_height();
}

fn check_scroll_label() {
    assert_eq!(scroll_label(2, 3), "↑2  ↓3".to_string());
    assert_eq!(scroll_label(1, 0), "↑1 more above".to_string());
    assert_eq!(scroll_label(0, 2), "↓2 more below".to_string());
    assert_eq!(scroll_label(0, 0), "".to_string());
}

#[test]
fn state_scroll_label_various() {
    check_scroll_label();
}

#[test]
fn mod_scroll_label_various() {
    check_scroll_label();
}

#[test]
fn ping_label_format_typical() {
    assert_eq!(ping_label(42), "~42ms");
}

#[test]
fn ping_label_format_zero() {
    assert_eq!(ping_label(0), "~0ms");
}

#[test]
fn ping_label_format_large() {
    assert_eq!(ping_label(9999), "~9999ms");
}

fn check_user_joined_event() {
    let discord_p = Participant {
        user_id: UserId("111".to_string()),
        username: "alice".to_string(),
        nick: Some("Alice".to_string()),
        avatar_hash: None,
        muted: false,
        deafened: false,
    };
    let event = DiscordEvent::UserJoined(discord_p);
    match event {
        DiscordEvent::UserJoined(p) => {
            assert_eq!(p.user_id, "111");
            assert_eq!(p.username, "alice");
            assert_eq!(p.nick, Some("Alice".to_string()));
        }
        _ => panic!("Expected UserJoined event"),
    }
}

#[test]
fn state_user_joined_sets_in_channel() {
    check_user_joined_event();
}

#[test]
fn mod_user_joined_sets_in_channel() {
    check_user_joined_event();
}

#[test]
fn joining_user_marks_overlay_in_channel() {
    let mut app = App::new(20, 20, 5, false);
    assert!(!app.in_channel);
    assert!(app.handle_discord_event(DiscordEvent::UserJoined(participant("111", "alice", Some("Alice"))), 0));
    assert!(app.in_channel);
    assert_eq!(app.participants.len(), 1);
    assert_eq!(app.participants[0].display_name, "Alice");
    assert_eq!(app.height, 64 + 48);
    // A duplicate join is ignored.
    assert!(!app.handle_discord_event(DiscordEvent::UserJoined(participant("111", "alice", None)), 0));
    assert_eq!(app.participants.len(), 1);
}

#[test]
fn participant_state_builder_from_discord() {
    let discord_p = Participant {
        user_id: UserId("123".to_string()),
        username: "alice".to_string(),
        nick: Some("Alice".to_string()),
        avatar_hash: Some("abc123".to_string()),
        muted: true,
        deafened: false,
    };
    let p = ParticipantStateBuilder::from_discord(&discord_p).build();
    assert_eq!(p.user_id, "123");
    assert_eq!(p.display_name, "Alice"); // nick takes precedence
    assert!(p.muted);
    assert!(!p.deafened);
    assert!(!p.leaving);
}

#[test]
fn participant_state_builder_leaving() {
    let discord_p = participant("456", "bob", None);
    let p = ParticipantStateBuilder::from_discord(&discord_p).leaving(true).build();
    assert_eq!(p.display_name, "bob"); // no nick, use username
    assert!(p.leaving);
}

#[test]
fn participant_state_builder_direct() {
    let p = ParticipantStateBuilder::new("789", "Charlie").muted(true).deafened(true).build();
    assert_eq!(p.user_id, "789");
    assert_eq!(p.display_name, "Charlie");
    assert!(p.muted);
    assert!(p.deafened);
}

#[test]
fn talk_time_initial_zero() {
    let p = ParticipantStateBuilder::new("u1", "Alice").build();
    assert_eq!(p.talk_time_ns, 0);
    assert!(p.speaking_started_at.is_none());
    assert_eq!(p.current_talk_secs(1_000 * NANOS_PER_SEC), 0);
}

#[test]
fn talk_time_current_secs_includes_active_segment() {
    let mut p: ParticipantState = ParticipantStateBuilder::new("u1", "Alice").build();
    p.talk_time_ns = 10 * NANOS_PER_SEC;
    p.speaking_started_at = Some(100 * NANOS_PER_SEC);
    assert_eq!(p.current_talk_secs(103 * NANOS_PER_SEC), 13);
}

#[test]
fn talk_time_not_started_returns_base() {
    let mut p = ParticipantStateBuilder::new("u1", "Alice").build();
    p.talk_time_ns = 42 * NANOS_PER_SEC;
    assert_eq!(p.current_talk_secs(5), 42);
}

#[test]
fn talk_time_accumulates_on_speaking_stop() {
    let mut p = ParticipantStateBuilder::new("u1", "Alice").build();
    let now = 100 * NANOS_PER_SEC;
    p.speaking_started_at = Some(now - 5 * NANOS_PER_SEC);
    finish_segment(&mut p, now);
    assert!(p.talk_time_ns / NANOS_PER_SEC >= 5);
    assert!(p.speaking_started_at.is_none());
}

#[test]
fn talk_time_multiple_segments_accumulate() {
    let mut p = ParticipantStateBuilder::new("u1", "Alice").build();
    // First segment: 3 seconds
    let t1 = 100 * NANOS_PER_SEC;
    p.speaking_started_at = Some(t1 - 3 * NANOS_PER_SEC);
    finish_segment(&mut p, t1);
    // Second segment: 5 seconds
    let t2 = 200 * NANOS_PER_SEC;
    p.speaking_started_at = Some(t2 - 5 * NANOS_PER_SEC);
    finish_segment(&mut p, t2);
    assert!(p.talk_time_ns / NANOS_PER_SEC >= 8);
    assert_eq!(p.talk_time_ns, 8 * NANOS_PER_SEC);
}

#[test]
fn speaking_segments_accumulate_talk_time() {
    let mut app = App::new(0, 0, 5, false);
    app.handle_discord_event(DiscordEvent::UserJoined(participant("u1", "alice", None)), 0);
    let s = NANOS_PER_SEC;
    app.handle_discord_event(DiscordEvent::SpeakingUpdate { user_id: UserId("u1".into()), speaking: true }, 10 * s);
    assert_eq!(app.participants[0].speaking_until, Some(10 * s + 1_500_000_000));
    app.handle_discord_event(DiscordEvent::SpeakingUpdate { user_id: UserId("u1".into()), speaking: true }, 11 * s);
    assert_eq!(app.participants[0].speaking_started_at, Some(10 * s));
    app.handle_discord_event(DiscordEvent::SpeakingUpdate { user_id: UserId("u1".into()), speaking: false }, 13 * s);
    assert_eq!(app.participants[0].talk_time_ns, 3 * s);
    assert!(app.participants[0].speaking_until.is_none());
    app.handle_discord_event(DiscordEvent::SpeakingUpdate { user_id: UserId("u1".into()), speaking: true }, 20 * s);
    app.handle_discord_event(DiscordEvent::SpeakingUpdate { user_id: UserId("u1".into()), speaking: false }, 25 * s);
    assert_eq!(app.participants[0].talk_time_ns, 8 * s);
}

#[test]
fn tick_speaking_expiry_finalizes_talk_time() {
    let mut app = App::new(0, 0, 5, false);
    app.handle_discord_event(DiscordEvent::UserJoined(participant("u1", "alice", None)), 0);
    let s = NANOS_PER_SEC;
    app.handle_discord_event(DiscordEvent::SpeakingUpdate { user_id: UserId("u1".into()), speaking: true }, 4 * s);
    assert!(!app.tick_speaking_expiry(5 * s));
    assert!(app.tick_speaking_expiry(8 * s));
    assert!(app.participants[0].speaking_until.is_none());
    assert!(app.participants[0].speaking_started_at.is_none());
    assert_eq!(app.participants[0].talk_time_ns, 4 * s);
}

#[test]
fn voice_participants_replace_list_and_resize() {
    let mut app = App::new(0, 0, 2, false);
    let parts = vec![participant("a", "A", None), participant("b", "B", Some("Bee")), participant("c", "C", None)];
    assert!(app.handle_discord_event(DiscordEvent::VoiceParticipants { participants: parts, channel_name: Some("Room".to_string()) }, 7));
    assert!(app.in_channel);
    assert_eq!(app.channel_joined_at, Some(7));
    assert_eq!(app.height, 64 + 2 * 48 + 20);
    let effects = app.take_effects();
    assert!(effects.iter().any(|e| matches!(e, Effect::RenderLabel(Label::ChannelName, t) if t == "# Room")));
    assert!(effects.iter().any(|e| matches!(e, Effect::RenderName(u, n) if *u == "b" && n == "Bee")));
    assert!(effects.iter().any(|e| matches!(e, Effect::EnsureInitial(u, n) if *u == "c" && n == "C")));
    assert!(effects.iter().any(|e| matches!(e, Effect::Resize { width: 360, height: 180 })));
}

#[test]
fn disconnect_resets_to_idle() {
    let mut app = App::new(0, 0, 5, false);
    app.handle_discord_event(DiscordEvent::VoiceSettings { mute: true, deaf: true }, 0);
    app.handle_discord_event(DiscordEvent::UserJoined(participant("a", "A", None)), 0);
    app.handle_discord_event(DiscordEvent::GuildName { name: "G".to_string() }, 0);
    assert_eq!(app.guild_name.as_deref(), Some("G"));
    assert!(app.handle_discord_event(DiscordEvent::Disconnected, 0));
    assert!(app.participants.is_empty());
    assert!(!app.in_channel);
    assert!(!app.discord_mute && !app.discord_deaf);
    assert!(app.guild_name.is_none());
    assert_eq!(app.height, 64);
    assert!(app.take_effects().iter().any(|e| matches!(e, Effect::HideNow)));
}

#[test]
fn voice_settings_report_changes_only() {
    let mut app = App::new(0, 0, 5, false);
    assert!(app.handle_discord_event(DiscordEvent::VoiceSettings { mute: true, deaf: false }, 0));
    assert!(!app.handle_discord_event(DiscordEvent::VoiceSettings { mute: true, deaf: false }, 0));
    assert!(!app.handle_discord_event(DiscordEvent::Ready { username: "me".into(), user_id: UserId("me".into()) }, 0));
    assert_eq!(app.self_user_id, "me");
}

#[test]
fn leaving_and_removal() {
    let mut app = App::new(0, 0, 1, false);
    app.handle_discord_event(DiscordEvent::UserJoined(participant("a", "A", None)), 0);
    app.handle_discord_event(DiscordEvent::UserJoined(participant("b", "B", None)), 0);
    app.pointer_scroll(true, true);
    assert_eq!(app.scroll_offset, 1);
    assert!(app.handle_discord_event(DiscordEvent::UserLeft { user_id: UserId("b".into()) }, 0));
    assert!(!app.handle_discord_event(DiscordEvent::UserLeft { user_id: UserId("b".into()) }, 0));
    assert!(app.participants[1].leaving);
    app.take_effects();
    assert!(app.finish_leaving(&vec![UserId("b".into())]));
    assert_eq!(app.participants.len(), 1);
    assert_eq!(app.scroll_offset, 0);
    assert_eq!(app.height, 64 + 48);
    let effects = app.take_effects();
    assert!(matches!(&effects[0], Effect::DeleteUserTexture(UserTexture::Name, u) if *u == "b"));
    assert!(!app.finish_leaving(&vec![]));
}

#[test]
fn timer_and_talk_time_labels() {
    let mut app = App::new(0, 0, 5, false);
    let s = NANOS_PER_SEC;
    app.handle_discord_event(DiscordEvent::VoiceParticipants { participants: vec![participant("a", "A", None)], channel_name: Some("R".into()) }, 0);
    app.take_effects();
    assert!(app.tick_timer(65 * s));
    assert!(!app.tick_timer(65 * s + 5));
    assert!(matches!(app.take_effects().last(), Some(Effect::RenderLabel(Label::Timer, t)) if t == "\u{2022} 1:05"));
    assert!(app.tick_timer(3_725 * s));
    assert!(matches!(app.take_effects().last(), Some(Effect::RenderLabel(Label::Timer, t)) if t == "\u{2022} 1:02:05"));
    app.handle_discord_event(DiscordEvent::SpeakingUpdate { user_id: UserId("a".into()), speaking: true }, 0);
    assert!(app.tick_talk_time_textures(61 * s));
    assert!(matches!(app.take_effects().last(), Some(Effect::RenderTalkTime(u, t)) if *u == "a" && t == "1:01"));
    assert!(!app.tick_talk_time_textures(61 * s + 10));
}

#[test]
fn ptt_follows_local_speaking() {
    let mut app = App::new(0, 0, 5, false);
    app.handle_discord_event(DiscordEvent::Ready { username: "me".into(), user_id: UserId("me".into()) }, 0);
    app.handle_discord_event(DiscordEvent::UserJoined(participant("me", "Me", None)), 0);
    assert!(!app.tick_ptt(0));
    app.handle_discord_event(DiscordEvent::VoiceMode { ptt: true }, 0);
    app.handle_discord_event(DiscordEvent::SpeakingUpdate { user_id: UserId("me".into()), speaking: true }, 0);
    assert!(app.tick_ptt(1));
    assert!(app.ptt_active);
    assert!(!app.tick_ptt(2));
    assert!(app.tick_ptt(2_000_000_000));
    assert!(!app.ptt_active);
}

#[test]
fn draw_preparation_labels_and_rows() {
    let mut app = App::new(0, 0, 2, false);
    let parts = vec![participant("a", "A", None), participant("b", "B", None), participant("c", "C", None)];
    app.handle_discord_event(DiscordEvent::Ready { username: "me".into(), user_id: UserId("b".into()) }, 0);
    app.handle_discord_event(DiscordEvent::VoiceParticipants { participants: parts, channel_name: Some("R".into()) }, 0);
    app.pointer_scroll(true, true);
    app.take_effects();
    let rows = app.prepare_draw(0);
    assert_eq!(rows.len(), 2);
    assert_eq!(rows[0].index, 1);
    assert!(rows[0].is_self);
    assert_eq!(rows[1].user_id, "c");
    let effects = app.take_effects();
    assert!(effects.iter().any(|e| matches!(e, Effect::RenderLabel(Label::ScrollIndicator, t) if t == "\u{2191}1 more above")));
    assert!(effects.iter().any(|e| matches!(e, Effect::RenderLabel(Label::ParticipantCount, t) if t == "3 in channel")));
    app.prepare_draw(0);
    assert!(app.take_effects().is_empty());
    app.compact_max_rows = 1;
    assert_eq!(app.prepare_compact_draw(), 1);
    assert!(app.take_effects().iter().any(|e| matches!(e, Effect::RenderLabel(Label::OverflowBadge, t) if t == "+2")));
}

#[test]
fn config_reload_refreshes_textures() {
    let mut app = App::new(0, 0, 5, false);
    app.handle_discord_event(DiscordEvent::VoiceParticipants { participants: vec![participant("a", "ann", None)], channel_name: Some("R".into()) }, 0);
    app.take_effects();
    app.reload_config(3);
    assert_eq!(app.max_visible_rows, 3);
    let effects = app.take_effects();
    assert!(matches!(&effects[1], Effect::RenderName(u, n) if *u == "a" && n == "ann"));
    assert!(matches!(&effects[3], Effect::EnsureInitial(u, n) if *u == "a" && n == "A"));
    assert!(effects.iter().any(|e| matches!(e, Effect::RenderLabel(Label::ChannelName, t) if t == "# R")));
    assert_eq!(app.last_timer_secs, u32::MAX);
}
