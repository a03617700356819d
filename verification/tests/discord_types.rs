use hypr_overlay_wl::discord::{DiscordEvent, Participant, ParticipantBuilder, UserId};
use hypr_overlay_wl::json::Json;

fn to_json(v: &serde_json::Value) -> Json {
    match v {
        serde_json::Value::Null => Json::Null,
        serde_json::Value::Bool(b) => Json::Bool(*b),
        serde_json::Value::Number(n) => Json::Number(n.to_string()),
        serde_json::Value::String(s) => Json::Str(s.clone()),
        serde_json::Value::Array(a) => Json::Array(a.iter().map(to_json).collect()),
        serde_json::Value::Object(m) => {
            Json::Object(m.iter().map(|(k, v)| (k.clone(), to_json(v))).collect())
        }
    }
}

fn j(text: &str) -> Json {
    to_json(&serde_json::from_str(text).unwrap())
}

#[test]
fn userid_as_str() {
    let id = UserId("hello".to_string());
    assert_eq!(id.as_str(), "hello");
}

#[test]
fn userid_from_string() {
    let id: UserId = String::from("abc").into();
    assert_eq!(id, "abc");
}

#[test]
fn userid_from_str_ref() {
    let id: UserId = "xyz".into();
    assert_eq!(id, "xyz");
}

#[test]
fn userid_partial_eq_string() {
    let id = UserId("foo".to_string());
    assert_eq!(id, "foo".to_string());
}

#[test]
fn userid_ref_partial_eq_str() {
    let id = UserId("bar".to_string());
    assert_eq!(&id, "bar");
}

#[test]
fn userid_empty_and_bytes() {
    assert!(UserId::default().is_empty());
    assert!(!UserId("a".to_string()).is_empty());
    assert_eq!(UserId("ab".to_string()).bytes(), b"ab");
}

#[test]
fn get_nested_success() {
    let v = j(r#"{"a": {"b": "found"}}"#);
    let result = v.get_nested(&["a", "b"]);
    assert_eq!(result.unwrap().as_str(), Some("found"));
}

#[test]
fn get_nested_missing_key() {
    let v = j(r#"{"a": {"b": "found"}}"#);
    assert!(v.get_nested(&["a", "c"]).is_none());
}

#[test]
fn get_nested_empty_path() {
    let v = j(r#"{"x": 1}"#);
    // Empty path — returns the root value unchanged
    assert!(v.get_nested(&[]).is_some());
}

#[test]
fn get_bool_with_default() {
    let v = j(r#"{"flag": "not-a-bool"}"#);
    assert!(v.get_bool("flag", true)); // non-bool → default
    assert!(!v.get_bool("missing", false)); // missing → default
}

#[test]
fn get_string_and_option() {
    let v = j(r#"{"a": "x", "e": "", "n": 3}"#);
    assert_eq!(v.get_string("a"), "x");
    assert_eq!(v.get_string("n"), "");
    assert_eq!(v.get_string("missing"), "");
    assert_eq!(v.get_str_option("a"), Some("x".to_string()));
    assert_eq!(v.get_str_option("e"), None);
    assert_eq!(v.get_str_option("n"), None);
    assert!(v.index("missing").is_null());
    assert!(v.index("a").eq_str("x"));
    assert!(!v.index("a").eq_str("y"));
}

#[test]
fn participant_builder_full() {
    let p = ParticipantBuilder::new("u1".into(), "alice".into())
        .nick(Some("Alice".to_string()))
        .avatar_hash(Some("hash123".to_string()))
        .muted(true)
        .deafened(true)
        .build();
    assert_eq!(p.user_id, "u1");
    assert_eq!(p.username, "alice");
    assert_eq!(p.nick.as_deref(), Some("Alice"));
    assert_eq!(p.avatar_hash.as_deref(), Some("hash123"));
    assert!(p.muted);
    assert!(p.deafened);
}

#[test]
fn participant_builder_empty_avatar_hash_filtered() {
    let p = ParticipantBuilder::new("u2".into(), "bob".into())
        .avatar_hash(Some(String::new()))
        .build();
    assert!(p.avatar_hash.is_none());
}

#[test]
fn participant_defaults() {
    let p = Participant {
        user_id: UserId("u1".to_string()),
        username: "alice".to_string(),
        nick: None,
        avatar_hash: None,
        muted: false,
        deafened: false,
    };
    assert_eq!(p.user_id, "u1");
    assert!(!p.muted);
    assert!(!p.deafened);
}

#[test]
fn discord_event_ready() {
    let event = DiscordEvent::Ready {
        username: "alice".to_string(),
        user_id: "u1".to_string().into(),
    };
    match event {
        DiscordEvent::Ready { username, user_id } => {
            assert_eq!(username, "alice");
            assert_eq!(user_id, "u1");
        }
        _ => panic!("expected Ready"),
    }
}

#[test]
fn discord_event_disconnected() {
    let event = DiscordEvent::Disconnected;
    match event {
        DiscordEvent::Disconnected => (),
        _ => panic!("expected Disconnected"),
    }
}
