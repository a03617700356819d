use hypr_overlay_wl::discord::ipc::{
    check_frame_len, decode_frame, decode_frame_header, is_timeout, json_frame, read_frame_bytes,
    runtime_dir, socket_candidates, token_dir, token_path, write_frame, FrameError, MAX_FRAME_LEN,
    OP_FRAME, OP_HANDSHAKE,
};
use hypr_overlay_wl::discord::auth::{token_from_text, token_json, token_text};
use hypr_overlay_wl::json::Json;
use std::io;

#[test]
fn discord_write_frame_basic() {
    let mut buffer = Vec::new();
    let result = write_frame(&mut buffer, 0, "{}");
    assert!(result.is_ok());
    assert!(!buffer.is_empty());
}

#[test]
fn ipc_write_frame_basic() {
    let mut buf = Vec::new();
    let payload = "test";
    write_frame(&mut buf, 1, payload).expect("write");
    assert!(!buf.is_empty());
    // Frame: op(4) + len(4) + payload
    assert!(buf.len() >= 8);
}

#[test]
fn write_frame_exact_bytes() {
    let mut buf = Vec::new();
    write_frame(&mut buf, OP_FRAME, "hi").unwrap();
    assert_eq!(buf, vec![1, 0, 0, 0, 2, 0, 0, 0, b'h', b'i']);
    assert_eq!(OP_HANDSHAKE, 0);
}

#[test]
fn discord_frame_roundtrip() {
    let mut c = Vec::new();
    let payload = "{\"hello\":123}";
    write_frame(&mut c, 42, payload).expect("write");
    let (op, v) = read_frame_bytes(&c).expect("read");
    assert_eq!(op, 42);
    match v.index("hello") {
        Json::Number(n) => assert_eq!(n.parse::<i64>().unwrap(), 123),
        _ => panic!("expected a number"),
    }
}

#[test]
fn ipc_frame_roundtrip() {
    let op = 1u32;
    let payload = r#"{"hello":"world"}"#;
    let mut buf = Vec::new();
    write_frame(&mut buf, op, payload).expect("write");
    let (got_op, got_val) = read_frame_bytes(&buf).expect("read");
    assert_eq!(got_op, op);
    assert_eq!(got_val.index("hello").as_str().unwrap(), "world");
}

fn not_json_frame() -> Vec<u8> {
    let mut c = Vec::new();
    let op = 1u32;
    let payload = b"not-json";
    c.extend_from_slice(&op.to_le_bytes());
    c.extend_from_slice(&(payload.len() as u32).to_le_bytes());
    c.extend_from_slice(payload);
    c
}

#[test]
fn discord_read_frame_invalid_json() {
    let res = read_frame_bytes(&not_json_frame());
    assert!(res.is_err());
    assert_eq!(res.err(), Some(FrameError::BadJson));
}

#[test]
fn client_read_frame_invalid_json() {
    let res = read_frame_bytes(&not_json_frame());
    assert!(res.is_err());
    assert_eq!(res.err(), Some(FrameError::BadJson));
}

#[test]
fn read_frame_bytes_framing_errors() {
    assert_eq!(read_frame_bytes(&[1, 0, 0]).err(), Some(FrameError::UnexpectedEof));
    let too_large = (MAX_FRAME_LEN as u32 + 1).to_le_bytes();
    let hdr = [1, 0, 0, 0, too_large[0], too_large[1], too_large[2], too_large[3]];
    assert_eq!(read_frame_bytes(&hdr).err(), Some(FrameError::TooLarge));
}

#[test]
fn json_frame_reads_back() {
    let msg = token_json("acc", "ref");
    let frame = json_frame(OP_FRAME, &msg);
    assert_eq!(&frame[0..4], &[1, 0, 0, 0]);
    let text = std::str::from_utf8(&frame[8..]).unwrap();
    assert_eq!(text, r#"{"access_token":"acc","refresh_token":"ref"}"#);
    assert_eq!(frame[4..8], (text.len() as u32).to_le_bytes());
    let (op, v) = read_frame_bytes(&frame).unwrap();
    assert_eq!(op, OP_FRAME);
    assert_eq!(v.index("access_token").as_str(), Some("acc"));
    assert_eq!(v.index("refresh_token").as_str(), Some("ref"));
}

#[test]
fn token_text_and_back() {
    let text = token_text("a1", "r1");
    assert_eq!(text, r#"{"access_token":"a1","refresh_token":"r1"}"#);
    assert_eq!(token_from_text(&text), Some(("a1".to_string(), "r1".to_string())));
    assert_eq!(token_from_text(r#"{"access_token":"a1"}"#), None);
    assert_eq!(token_from_text("not json"), None);
    assert_eq!(
        token_from_text(r#"{"refresh_token":"r","access_token":"a","expires_in":604800}"#),
        Some(("a".to_string(), "r".to_string()))
    );
}

#[test]
fn decode_frame_errors() {
    assert_eq!(decode_frame(&[1, 0, 0]).unwrap_err(), FrameError::UnexpectedEof);
    assert_eq!(decode_frame(&[1, 0, 0, 0, 5, 0, 0, 0, 1]).unwrap_err(), FrameError::UnexpectedEof);
    let too_large = (MAX_FRAME_LEN as u32 + 1).to_le_bytes();
    let hdr = [1, 0, 0, 0, too_large[0], too_large[1], too_large[2], too_large[3]];
    assert_eq!(decode_frame(&hdr).unwrap_err(), FrameError::TooLarge);
    assert_eq!(decode_frame_header(&[7, 0, 0, 0, 9, 1, 0, 0]), (7, 265));
    assert_eq!(check_frame_len(16 * 1024 * 1024), Ok(16 * 1024 * 1024));
    assert_eq!(check_frame_len(16 * 1024 * 1024 + 1), Err(FrameError::TooLarge));
}

#[test]
fn discord_is_timeout_kinds() {
    let e1 = io::Error::new(io::ErrorKind::WouldBlock, "");
    let e2 = io::Error::new(io::ErrorKind::TimedOut, "");
    let e3 = io::Error::other("");
    assert!(is_timeout(&e1));
    assert!(is_timeout(&e2));
    assert!(!is_timeout(&e3));
}

#[test]
fn client_is_timeout_kinds() {
    let e1 = io::Error::new(io::ErrorKind::WouldBlock, "");
    let e2 = io::Error::new(io::ErrorKind::TimedOut, "");
    let e3 = io::Error::other("");
    assert!(is_timeout(&e1));
    assert!(is_timeout(&e2));
    assert!(!is_timeout(&e3));
}

#[test]
fn is_timeout_would_block() {
    let e = io::Error::new(io::ErrorKind::WouldBlock, "test");
    assert!(is_timeout(&e));
}

#[test]
fn is_timeout_timed_out() {
    let e = io::Error::new(io::ErrorKind::TimedOut, "test");
    assert!(is_timeout(&e));
}

#[test]
fn is_timeout_other_error() {
    let e = io::Error::new(io::ErrorKind::Other, "test");
    assert!(!is_timeout(&e));
}

#[test]
fn is_timeout_io_error() {
    let e = io::Error::new(io::ErrorKind::InvalidData, "test");
    assert!(!is_timeout(&e));
}

#[test]
fn socket_search_order() {
    assert_eq!(runtime_dir(Some("/run/x"), 5), "/run/x");
    assert_eq!(runtime_dir(None, 1000), "/run/user/1000");
    let c = socket_candidates("/run/user/1000", None);
    assert_eq!(c.len(), 50);
    assert_eq!(c[0], "/run/user/1000/discord-ipc-0");
    assert_eq!(c[9], "/run/user/1000/discord-ipc-9");
    assert_eq!(c[10], "/run/user/1000/app/com.discordapp.Discord/discord-ipc-0");
    assert_eq!(c[23], "/run/user/1000/snap.discord/discord-ipc-3");
    assert_eq!(c[34], "/tmp/discord-ipc-4");
    assert_eq!(c[49], "/tmp/discord-ipc-9");
    let d = socket_candidates("/r", Some("/var/tmp"));
    assert_eq!(d[30], "/var/tmp/discord-ipc-0");
}

#[test]
fn token_cache_location() {
    assert_eq!(token_dir(Some("/home/a")), "/home/a/.cache/hypr-overlay");
    assert_eq!(token_path(Some("/home/a")), "/home/a/.cache/hypr-overlay/discord-token.json");
    assert_eq!(token_path(Some("/home/a/")), "/home/a/.cache/hypr-overlay/discord-token.json");
    assert_eq!(token_path(None), "/tmp/.cache/hypr-overlay/discord-token.json");
}
