use hypr_overlay_wl::discord::handlers::{
    extract_self_data, process_frame_events, EventHandler, GetGuildHandler, SpeakingEndHandler,
    SpeakingStartHandler, VoiceChannelSelectEventHandler, VoiceChannelSelectHandler,
    VoiceStateCreateHandler, VoiceStateDeleteHandler, VoiceStateUpdateHandler,
};
use hypr_overlay_wl::discord::{DiscordEvent, ParticipantBuilder};
use hypr_overlay_wl::json::Json;

fn to_json(v: &serde_json::Value) -> Json {
    match v {
        serde_json::Value::Null => Json::Null,
        serde_json::Value::Bool(b) => Json::Bool(*b),
        serde_json::Value::Number(n) => Json::Number(n.to_string()),
        serde_json::Value::String(s) => Json::Str(s.clone()),
        serde_json::Value::Array(a) => Json::Array(a.iter().map(to_json).collect()),
        serde_json::Value::Object(m) => {
            Json::Object(m.iter().map(|(k, v)| (k.clone(), to_json(v))).collect())
        }
    }
}

fn j(text: &str) -> Json {
    to_json(&serde_json::from_str(text).unwrap())
}


fn check_get_selected_empty() {
    let v = j(r#"{"cmd": "GET_SELECTED_VOICE_CHANNEL", "nonce": "gvsc", "data": null}"#);
    let (events, avatars, subscribe, guild) = process_frame_events(&v, "local", "me", None);
    assert_eq!(events.len(), 1);
    match &events[0] {
        DiscordEvent::VoiceParticipants { participants, channel_name } => {
            assert!(participants.is_empty());
            assert!(channel_name.is_none());
        }
        _ => panic!("expected VoiceParticipants"),
    }
    assert!(avatars.is_empty());
    assert!(subscribe.is_none());
    assert!(guild.is_none());
}

#[test]
fn discord_process_frame_get_selected_empty() {
    check_get_selected_empty();
}

#[test]
fn client_process_frame_get_selected_empty() {
    check_get_selected_empty();
}

const SELECTED: &str = r#"{"cmd": "GET_SELECTED_VOICE_CHANNEL", "nonce": "gvsc", "data": {
    "id": "chan1",
    "name": "Room",
    "guild_id": "g1",
    "voice_states": [
        { "user": { "id": "local", "username": "me", "avatar": "ahash" }, "voice_state": { "self_mute": false, "self_deaf": false }, "nick": "MeNick" },
        { "user": { "id": "u2", "username": "Bob", "avatar": "bh" }, "voice_state": {}, "nick": "BobNick" }
    ]
}}"#;

#[test]
fn discord_process_frame_get_selected_with_data() {
    let v = j(SELECTED);
    let (events, avatars, subscribe, guild) = process_frame_events(&v, "local", "me", None);
    assert_eq!(subscribe, Some("chan1".to_string()));
    assert_eq!(guild, Some("g1".to_string()));
    assert_eq!(avatars.len(), 2);
    match &events[0] {
        DiscordEvent::VoiceParticipants { participants, channel_name } => {
            assert_eq!(participants[0].user_id, "local");
            assert_eq!(participants.len(), 2);
            assert_eq!(channel_name.as_deref(), Some("Room"));
        }
        _ => panic!("expected VoiceParticipants"),
    }
}

#[test]
fn client_process_frame_get_selected_with_data() {
    let v = j(SELECTED);
    let (events, avatars, subscribe, guild) = process_frame_events(&v, "local", "me", None);
    assert_eq!(subscribe, Some("chan1".to_string()));
    assert_eq!(guild, Some("g1".to_string()));
    assert_eq!(events.len(), 1);
    match &events[0] {
        DiscordEvent::VoiceParticipants { participants, channel_name } => {
            assert_eq!(participants.len(), 2);
            assert_eq!(channel_name.as_deref(), Some("Room"));
            assert_eq!(participants[0].user_id, "local");
            assert_eq!(
                participants[0].nick.as_deref().unwrap_or(&participants[0].username),
                "MeNick"
            );
            assert_eq!(participants[1].user_id, "u2");
            assert_eq!(
                participants[1].nick.as_deref().unwrap_or(&participants[1].username),
                "BobNick"
            );
        }
        _ => panic!("expected VoiceParticipants"),
    }
    assert_eq!(avatars.len(), 2);
}

#[test]
fn discord_process_frame_speaking_start_end() {
    let v1 = j(r#"{"evt": "SPEAKING_START", "data": { "user_id": "u1" }}"#);
    let (events1, _avatars1, _sub1, _g1) = process_frame_events(&v1, "", "", None);
    assert_eq!(events1.len(), 1);
    match &events1[0] {
        DiscordEvent::SpeakingUpdate { user_id, speaking } => {
            assert_eq!(user_id, "u1");
            assert!(*speaking);
        }
        _ => panic!("expected SpeakingUpdate"),
    }
    let v2 = j(r#"{"evt": "SPEAKING_END", "data": { "user_id": "u1" }}"#);
    let (events2, _avatars2, _sub2, _g2) = process_frame_events(&v2, "", "", None);
    assert_eq!(events2.len(), 1);
    match &events2[0] {
        DiscordEvent::SpeakingUpdate { user_id, speaking } => {
            assert_eq!(user_id, "u1");
            assert!(!*speaking);
        }
        _ => panic!("expected SpeakingUpdate"),
    }
}

#[test]
fn client_process_frame_speaking_start_end() {
    let v1 = j(r#"{"evt": "SPEAKING_START", "data": {"user_id": "u1"}}"#);
    let h1 = SpeakingStartHandler;
    let res1 = h1.handle(&v1, "local", "me", None).unwrap();
    assert_eq!(res1.0.len(), 1);

    let v2 = j(r#"{"evt": "SPEAKING_END", "data": {"user_id": "u1"}}"#);
    let h2 = SpeakingEndHandler;
    let res2 = h2.handle(&v2, "local", "me", None).unwrap();
    assert_eq!(res2.0.len(), 1);
}

#[test]
fn discord_process_frame_voice_state_update_create_delete() {
    let v_up = j(r#"{"evt": "VOICE_STATE_UPDATE", "data": { "user": { "id": "u3", "username": "carol" }, "voice_state": { "self_mute": true } }}"#);
    let (events_up, _a, _s, _g) = process_frame_events(&v_up, "", "", None);
    assert_eq!(events_up.len(), 1);
    match &events_up[0] {
        DiscordEvent::ParticipantStateUpdate { user_id, muted, deafened } => {
            assert_eq!(user_id, "u3");
            assert!(*muted);
            assert!(!*deafened);
        }
        _ => panic!("expected ParticipantStateUpdate"),
    }

    let v_create = j(r#"{"evt": "VOICE_STATE_CREATE", "data": { "user": { "id": "u5", "username": "eve", "avatar": "h1" }, "voice_state": { "self_mute": false } }}"#);
    let (events_c, avatars_c, _s2, _g2) = process_frame_events(&v_create, "", "", None);
    assert_eq!(events_c.len(), 1);
    match &events_c[0] {
        DiscordEvent::UserJoined(p) => {
            assert_eq!(p.user_id, "u5");
        }
        _ => panic!("expected UserJoined"),
    }
    assert_eq!(avatars_c.len(), 1);
    assert_eq!(avatars_c[0].0, "u5");
    assert_eq!(avatars_c[0].1, "h1");

    let v_del = j(r#"{"evt": "VOICE_STATE_DELETE", "data": { "user": { "id": "u4" } }}"#);
    let (events_d, _a2, _s3, _g3) = process_frame_events(&v_del, "", "", None);
    assert_eq!(events_d.len(), 1);
    match &events_d[0] {
        DiscordEvent::UserLeft { user_id } => {
            assert_eq!(user_id, "u4");
        }
        _ => panic!("expected UserLeft"),
    }
}

#[test]
fn client_process_frame_voice_state_update_create_delete() {
    let v_update = j(r#"{"evt": "VOICE_STATE_UPDATE", "data": {
        "user": {"id": "u2", "username": "frank"},
        "voice_state": {"self_mute": true, "self_deaf": false, "mute": false, "deaf": false}
    }}"#);
    let h_update = VoiceStateUpdateHandler;
    let res_update = h_update.handle(&v_update, "local", "me", None).unwrap();
    assert_eq!(res_update.0.len(), 1);

    let v_create = j(r#"{"evt": "VOICE_STATE_CREATE", "data": {
        "user": {"id": "u2", "username": "frank", "avatar": "hash123"},
        "voice_state": {"self_mute": true, "self_deaf": false, "mute": false, "deaf": false}
    }}"#);
    let h_create = VoiceStateCreateHandler;
    let res_create = h_create.handle(&v_create, "local", "me", None).unwrap();
    assert_eq!(res_create.0.len(), 1);
    assert_eq!(res_create.1.len(), 1);

    let v_delete = j(r#"{"evt": "VOICE_STATE_DELETE", "data": {"user": {"id": "u3"}}}"#);
    let h_delete = VoiceStateDeleteHandler;
    let res_delete = h_delete.handle(&v_delete, "local", "me", None).unwrap();
    assert_eq!(res_delete.0.len(), 1);
}

#[test]
fn discord_process_frame_get_guild() {
    let v = j(r#"{"cmd": "GET_GUILD", "nonce": "get_guild", "data": { "name": "GuildName" }}"#);
    let (events, avatars, subscribe, guild) = process_frame_events(&v, "", "", None);
    assert_eq!(events.len(), 1);
    match &events[0] {
        DiscordEvent::GuildName { name } => assert_eq!(name, "GuildName"),
        _ => panic!("expected GuildName"),
    }
    assert!(avatars.is_empty());
    assert!(subscribe.is_none());
    assert!(guild.is_none());
}

#[test]
fn process_frame_voice_channel_select_empty() {
    let v = j(r#"{"evt": "VOICE_CHANNEL_SELECT", "data": { "channel_id": "" }}"#);
    let (events, avatars, subscribe, guild) = process_frame_events(&v, "local", "me", None);
    assert!(subscribe.is_none());
    assert_eq!(events.len(), 2);
    match &events[0] {
        DiscordEvent::GuildName { name } => assert_eq!(name, ""),
        _ => panic!("expected GuildName"),
    }
    match &events[1] {
        DiscordEvent::VoiceParticipants { participants, channel_name } => {
            assert!(participants.is_empty());
            assert!(channel_name.is_none());
        }
        _ => panic!("expected VoiceParticipants"),
    }
    assert!(avatars.is_empty());
    assert!(guild.is_none());
}

#[test]
fn discord_process_frame_voice_channel_select_nonempty() {
    let v = j(r#"{"evt": "VOICE_CHANNEL_SELECT", "data": { "channel_id": "chanX" }}"#);
    let (events, avatars, subscribe, guild) = process_frame_events(&v, "", "", None);
    assert_eq!(subscribe, Some("chanX".to_string()));
    assert!(events.is_empty());
    assert!(avatars.is_empty());
    assert!(guild.is_none());
}

#[test]
fn discord_process_frame_with_invalid_json() {
    let v = j(r#"{ "data": {} }"#);
    let (events, _avatars, _sub, _g) = process_frame_events(&v, "local", "me", None);
    // Should handle gracefully
    assert!(events.is_empty() || events.len() > 0);
}

#[test]
fn client_process_frame_with_invalid_json() {
    let v = j(r#"{"invalid": "test"}"#);
    let (events, _, _, _) = process_frame_events(&v, "local", "me", None);
    assert!(events.is_empty());
}

#[test]
fn process_frame_speaking_start() {
    let v = j(r#"{"evt": "SPEAKING_START", "data": {"user_id": "u1"}}"#);
    let h = SpeakingStartHandler;
    let res = h.handle(&v, "local", "me", None);
    assert!(res.is_some());
    let (events, _, _, _) = res.unwrap();
    assert_eq!(events.len(), 1);
    match &events[0] {
        DiscordEvent::SpeakingUpdate { user_id, speaking } => {
            assert!(user_id == "u1");
            assert!(*speaking);
        }
        _ => panic!("expected SpeakingUpdate"),
    }
}

#[test]
fn process_frame_speaking_end() {
    let v = j(r#"{"evt": "SPEAKING_END", "data": {"user_id": "u2"}}"#);
    let h = SpeakingEndHandler;
    let res = h.handle(&v, "local", "me", None);
    assert!(res.is_some());
    let (events, _, _, _) = res.unwrap();
    assert_eq!(events.len(), 1);
    match &events[0] {
        DiscordEvent::SpeakingUpdate { user_id, speaking } => {
            assert!(user_id == "u2");
            assert!(!*speaking);
        }
        _ => panic!("expected SpeakingUpdate"),
    }
}

#[test]
fn process_frame_voice_state_update() {
    let v = j(r#"{"evt": "VOICE_STATE_UPDATE", "data": {
        "user": {"id": "u3", "username": "dave"},
        "voice_state": {"self_mute": true, "self_deaf": false, "mute": false, "deaf": false}
    }}"#);
    let h = VoiceStateUpdateHandler;
    let res = h.handle(&v, "local", "me", None);
    assert!(res.is_some());
    let (events, _, _, _) = res.unwrap();
    assert_eq!(events.len(), 1);
    match &events[0] {
        DiscordEvent::ParticipantStateUpdate { user_id, muted, deafened } => {
            assert!(user_id == "u3");
            assert!(*muted);
            assert!(!*deafened);
        }
        _ => panic!("expected ParticipantStateUpdate"),
    }
}

#[test]
fn process_frame_voice_state_create() {
    let v = j(r#"{"evt": "VOICE_STATE_CREATE", "data": {
        "user": {"id": "u4", "username": "eve", "avatar": "ehash"},
        "voice_state": {"self_mute": false, "self_deaf": false, "mute": false, "deaf": false}
    }}"#);
    let h = VoiceStateCreateHandler;
    let res = h.handle(&v, "local", "me", None);
    assert!(res.is_some());
    let (events, avatars, _, _) = res.unwrap();
    assert_eq!(events.len(), 1);
    assert_eq!(avatars.len(), 1);
    assert_eq!(avatars[0].0, "u4");
    assert_eq!(avatars[0].1, "ehash");
    match &events[0] {
        DiscordEvent::UserJoined(p) => {
            assert_eq!(p.user_id, "u4");
            assert_eq!(p.username, "eve");
        }
        _ => panic!("expected UserJoined"),
    }
}

#[test]
fn process_frame_voice_state_delete() {
    let v = j(r#"{"evt": "VOICE_STATE_DELETE", "data": {"user": {"id": "u5"}}}"#);
    let h = VoiceStateDeleteHandler;
    let res = h.handle(&v, "local", "me", None);
    assert!(res.is_some());
    let (events, _, _, _) = res.unwrap();
    assert_eq!(events.len(), 1);
    match &events[0] {
        DiscordEvent::UserLeft { user_id } => {
            assert!(user_id == "u5");
        }
        _ => panic!("expected UserLeft"),
    }
}

#[test]
fn process_frame_voice_channel_select_event() {
    let v = j(r#"{"evt": "VOICE_CHANNEL_SELECT", "data": {"channel_id": "ch1"}}"#);
    let h = VoiceChannelSelectEventHandler;
    let res = h.handle(&v, "local", "me", None);
    assert!(res.is_some());
    let (events, _, subscribe, _) = res.unwrap();
    assert!(events.is_empty());
    assert_eq!(subscribe, Some("ch1".to_string()));
}

#[test]
fn process_frame_voice_channel_select_event_empty() {
    let v = j(r#"{"evt": "VOICE_CHANNEL_SELECT", "data": {"channel_id": ""}}"#);
    let h = VoiceChannelSelectEventHandler;
    let res = h.handle(&v, "local", "me", None);
    assert!(res.is_some());
    let (events, _, _, _) = res.unwrap();
    assert_eq!(events.len(), 2);
    match (&events[0], &events[1]) {
        (DiscordEvent::GuildName { name }, DiscordEvent::VoiceParticipants { participants, channel_name }) => {
            assert!(name.is_empty());
            assert!(participants.is_empty());
            assert!(channel_name.is_none());
        }
        _ => panic!("expected GuildName and VoiceParticipants"),
    }
}

#[test]
fn handlers_process_frame_get_guild() {
    let v = j(r#"{"cmd": "GET_GUILD", "nonce": "get_guild", "data": {"name": "MyServer"}}"#);
    let h = GetGuildHandler;
    let res = h.handle(&v, "local", "me", None);
    assert!(res.is_some());
    let (events, _, _, _) = res.unwrap();
    assert_eq!(events.len(), 1);
    match &events[0] {
        DiscordEvent::GuildName { name } => {
            assert_eq!(name, "MyServer");
        }
        _ => panic!("expected GuildName"),
    }
}

#[test]
fn handlers_process_frame_voice_channel_select_nonempty() {
    let v = j(r#"{"cmd": "GET_SELECTED_VOICE_CHANNEL", "nonce": "gvsc", "data": {
        "id": "chan2",
        "name": "General",
        "guild_id": "g2",
        "voice_states": [
            { "user": { "id": "u1", "username": "alice" }, "voice_state": {} }
        ]
    }}"#);
    let h = VoiceChannelSelectHandler;
    let res = h.handle(&v, "u1", "alice", None);
    assert!(res.is_some());
    let (events, _, subscribe, guild) = res.unwrap();
    assert_eq!(events.len(), 1);
    assert_eq!(subscribe, Some("chan2".to_string()));
    assert_eq!(guild, Some("g2".to_string()));
}

#[test]
fn get_guild_handler_missing_name_returns_none() {
    let v = j(r#"{"cmd": "GET_GUILD", "nonce": "get_guild", "data": {}}"#);
    let h = GetGuildHandler;
    assert!(h.handle(&v, "", "", None).is_none());
}

#[test]
fn speaking_start_handler_missing_user_id_returns_none() {
    let v = j(r#"{"evt": "SPEAKING_START", "data": {}}"#);
    let h = SpeakingStartHandler;
    assert!(h.handle(&v, "", "", None).is_none());
}

#[test]
fn speaking_end_handler_missing_user_id_returns_none() {
    let v = j(r#"{"evt": "SPEAKING_END", "data": {}}"#);
    let h = SpeakingEndHandler;
    assert!(h.handle(&v, "", "", None).is_none());
}

#[test]
fn voice_state_update_handler_empty_user_id_returns_none() {
    let v = j(r#"{"evt": "VOICE_STATE_UPDATE", "data": {"user": {"id": ""}, "voice_state": {}}}"#);
    let h = VoiceStateUpdateHandler;
    assert!(h.handle(&v, "", "", None).is_none());
}

#[test]
fn voice_state_create_handler_empty_user_id_returns_none() {
    let v = j(r#"{"evt": "VOICE_STATE_CREATE", "data": {"user": {"id": ""}, "voice_state": {}}}"#);
    let h = VoiceStateCreateHandler;
    assert!(h.handle(&v, "", "", None).is_none());
}

#[test]
fn voice_state_delete_handler_missing_user_returns_none() {
    let v = j(r#"{"evt": "VOICE_STATE_DELETE", "data": {}}"#);
    let h = VoiceStateDeleteHandler;
    assert!(h.handle(&v, "", "", None).is_none());
}

#[test]
fn voice_channel_select_handler_null_data_returns_empty_participants() {
    let v = j(r#"{"cmd": "GET_SELECTED_VOICE_CHANNEL", "nonce": "gvsc", "data": null}"#);
    let h = VoiceChannelSelectHandler;
    let res = h.handle(&v, "local", "me", None);
    assert!(res.is_some());
    let (events, _, subscribe, _) = res.unwrap();
    assert_eq!(events.len(), 1);
    assert!(subscribe.is_none());
    match &events[0] {
        DiscordEvent::VoiceParticipants { participants, channel_name } => {
            assert!(participants.is_empty());
            assert!(channel_name.is_none());
        }
        _ => panic!("expected VoiceParticipants"),
    }
}

#[test]
fn extract_self_data_user_not_found_uses_fallback() {
    let participants = vec![ParticipantBuilder::new("other_user".into(), "alice".into()).build()];
    let (self_data, others) = extract_self_data(&participants, "local", None);
    assert!(self_data.nick.is_none());
    assert!(self_data.avatar_hash.is_none());
    assert!(!self_data.muted);
    assert!(!self_data.deafened);
    assert_eq!(others.len(), 1);
    assert_eq!(others[0].user_id, "other_user");
}

#[test]
fn extract_self_data_with_local_avatar_fallback() {
    let participants = vec![ParticipantBuilder::new("other_user".into(), "alice".into()).build()];
    let local_avatar = "avatar_hash".to_string();
    let (self_data, _) = extract_self_data(&participants, "local", Some(&local_avatar));
    assert_eq!(self_data.avatar_hash.as_deref(), Some("avatar_hash"));
}

#[test]
fn extract_self_data_finds_local_user() {
    let participants = vec![
        ParticipantBuilder::new("a".into(), "alice".into()).build(),
        ParticipantBuilder::new("local".into(), "me".into()).nick(Some("Me".to_string())).muted(true).build(),
    ];
    let (self_data, others) = extract_self_data(&participants, "local", None);
    assert_eq!(self_data.nick.as_deref(), Some("Me"));
    assert!(self_data.muted);
    assert_eq!(others.len(), 1);
    assert_eq!(others[0].user_id, "a");
}

#[test]
fn handler_matches_functions() {
    let guild_v = j(r#"{"cmd": "GET_GUILD", "nonce": "get_guild"}"#);
    assert!(GetGuildHandler.matches(&guild_v));
    assert!(!GetGuildHandler.matches(&j(r#"{"cmd": "OTHER"}"#)));

    let gvsc_v = j(r#"{"cmd": "GET_SELECTED_VOICE_CHANNEL", "nonce": "gvsc"}"#);
    assert!(VoiceChannelSelectHandler.matches(&gvsc_v));

    let ss_v = j(r#"{"evt": "SPEAKING_START"}"#);
    assert!(SpeakingStartHandler.matches(&ss_v));

    let se_v = j(r#"{"evt": "SPEAKING_END"}"#);
    assert!(SpeakingEndHandler.matches(&se_v));

    let vsu_v = j(r#"{"evt": "VOICE_STATE_UPDATE"}"#);
    assert!(VoiceStateUpdateHandler.matches(&vsu_v));

    let vsc_v = j(r#"{"evt": "VOICE_STATE_CREATE"}"#);
    assert!(VoiceStateCreateHandler.matches(&vsc_v));

    let vsd_v = j(r#"{"evt": "VOICE_STATE_DELETE"}"#);
    assert!(VoiceStateDeleteHandler.matches(&vsd_v));

    let vcse_v = j(r#"{"evt": "VOICE_CHANNEL_SELECT"}"#);
    assert!(VoiceChannelSelectEventHandler.matches(&vcse_v));
}
