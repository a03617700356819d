//! OAuth2 authentication with Discord: the requests, and what each reply means.

use vstd::prelude::*;
use crate::json::{
    Json, JsonV, entries_view, field_v, items_view, json_str, json_text, lemma_field_view, new_members,
    parse_json, parsed_json, push_item, push_member, str_v, to_json_text,
};
use super::types::Config;
use super::ipc::OP_FRAME;

verus! {

/// Distinguishes a token-rejection error from other auth failures.
#[derive(Debug, Clone, Copy, PartialEq, Eq, Structural)]
pub enum AuthError {
    /// Discord rejected the token (evt=ERROR, e.g. code 4009 "Invalid token").
    InvalidToken,
    /// Any other failure (I/O error, timeout, etc.).
    Other,
}

/// What one attempt to read from the socket produced.
pub enum ReadEvent {
    /// A complete frame with its opcode.
    Frame(u32, Json),
    /// The read timed out before a frame arrived.
    Timeout,
    /// The read failed.
    Failed,
}

/// The AUTHENTICATE request for `token`.
pub open spec fn authenticate_cmd(token: Seq<char>) -> JsonV {
    JsonV::Object(seq![
        ("cmd"@, JsonV::Str("AUTHENTICATE"@)),
        ("args"@, JsonV::Object(seq![("access_token"@, JsonV::Str(token))])),
        ("nonce"@, JsonV::Str("auth"@)),
    ])
}

pub fn authenticate_command(token: &str) -> (r: Json)
    ensures
        r@ == authenticate_cmd(token@),
{
    let mut args = new_members();
    push_member(&mut args, "access_token", json_str(token));
    assert(entries_view(args@) =~= seq![("access_token"@, JsonV::Str(token@))]);
    let mut m = new_members();
    push_member(&mut m, "cmd", json_str("AUTHENTICATE"));
    push_member(&mut m, "args", Json::Object(args));
    push_member(&mut m, "nonce", json_str("auth"));
    assert(entries_view(m@) =~= seq![
        ("cmd"@, JsonV::Str("AUTHENTICATE"@)),
        ("args"@, JsonV::Object(seq![("access_token"@, JsonV::Str(token@))])),
        ("nonce"@, JsonV::Str("auth"@)),
    ]);
    Json::Object(m)
}

/// The AUTHORIZE request asking the user to grant the overlay's scopes.
pub open spec fn authorize_cmd(client_id: Seq<char>) -> JsonV {
    JsonV::Object(seq![
        ("cmd"@, JsonV::Str("AUTHORIZE"@)),
        ("args"@, JsonV::Object(seq![
            ("client_id"@, JsonV::Str(client_id)),
            ("scopes"@, JsonV::Array(seq![
                JsonV::Str("rpc"@),
                JsonV::Str("rpc.voice.read"@),
                JsonV::Str("rpc.voice.write"@),
            ])),
        ])),
        ("nonce"@, JsonV::Str("authorize"@)),
    ])
}

pub fn authorize_command(client_id: &str) -> (r: Json)
    ensures
        r@ == authorize_cmd(client_id@),
{
    let mut scopes: Vec<Json> = Vec::new();
    assert(items_view(scopes@) =~= Seq::<JsonV>::empty());
    push_item(&mut scopes, json_str("rpc"));
    push_item(&mut scopes, json_str("rpc.voice.read"));
    push_item(&mut scopes, json_str("rpc.voice.write"));
    assert(items_view(scopes@) =~= seq![
        JsonV::Str("rpc"@),
        JsonV::Str("rpc.voice.read"@),
        JsonV::Str("rpc.voice.write"@),
    ]);
    let mut args = new_members();
    push_member(&mut args, "client_id", json_str(client_id));
    push_member(&mut args, "scopes", Json::Array(scopes));
    assert(entries_view(args@) =~= seq![
        ("client_id"@, JsonV::Str(client_id@)),
        ("scopes"@, JsonV::Array(seq![
            JsonV::Str("rpc"@),
            JsonV::Str("rpc.voice.read"@),
            JsonV::Str("rpc.voice.write"@),
        ])),
    ]);
    let mut m = new_members();
    push_member(&mut m, "cmd", json_str("AUTHORIZE"));
    push_member(&mut m, "args", Json::Object(args));
    push_member(&mut m, "nonce", json_str("authorize"));
    assert(entries_view(m@) =~= seq![
        ("cmd"@, JsonV::Str("AUTHORIZE"@)),
        ("args"@, JsonV::Object(seq![
            ("client_id"@, JsonV::Str(client_id@)),
            ("scopes"@, JsonV::Array(seq![
                JsonV::Str("rpc"@),
                JsonV::Str("rpc.voice.read"@),
                JsonV::Str("rpc.voice.write"@),
            ])),
        ])),
        ("nonce"@, JsonV::Str("authorize"@)),
    ]);
    Json::Object(m)
}

/// Whether a frame is the reply to the request with nonce `nonce` and command `cmd`.
pub open spec fn is_reply_to(v: Json, nonce: Seq<char>, cmd: Seq<char>) -> bool {
    v.field("nonce"@).str_value() == Some(nonce) || v.field("cmd"@).str_value() == Some(cmd)
}

/// What a read means while waiting for the AUTHENTICATE reply: `None` to keep
/// waiting, otherwise the outcome.
pub open spec fn spec_auth_reply(ev: ReadEvent, token: Seq<char>) -> Option<Result<Seq<char>, AuthError>> {
    match ev {
        ReadEvent::Frame(op, v) =>
            if op == OP_FRAME && is_reply_to(v, "auth"@, "AUTHENTICATE"@) {
                if v.field("evt"@).str_value() == Some("ERROR"@) {
                    Some(Err(AuthError::InvalidToken))
                } else {
                    Some(Ok(token))
                }
            } else {
                None
            },
        ReadEvent::Timeout => None,
        ReadEvent::Failed => Some(Err(AuthError::Other)),
    }
}

pub fn auth_reply(ev: &ReadEvent, token: &str) -> (r: Option<Result<String, AuthError>>)
    ensures
        match r {
            Some(Ok(t)) => spec_auth_reply(*ev, token@) == Some(Ok::<Seq<char>, AuthError>(t@)),
            Some(Err(e)) => spec_auth_reply(*ev, token@) == Some(Err::<Seq<char>, AuthError>(e)),
            None => spec_auth_reply(*ev, token@) is None,
        },
{
    match ev {
        ReadEvent::Frame(op, v) => {
            if *op == OP_FRAME && (v.index("nonce").eq_str("auth") || v.index("cmd").eq_str("AUTHENTICATE")) {
                if v.index("evt").eq_str("ERROR") {
                    Some(Err(AuthError::InvalidToken))
                } else {
                    Some(Ok(token.to_owned()))
                }
            } else {
                None
            }
        },
        ReadEvent::Timeout => None,
        ReadEvent::Failed => Some(Err(AuthError::Other)),
    }
}

/// What a read means while waiting for the AUTHORIZE reply: `None` to keep
/// waiting, `Some(None)` to give up, `Some(Some(code))` for the granted code.
pub open spec fn spec_authorize_reply(ev: ReadEvent) -> Option<Option<Seq<char>>> {
    match ev {
        ReadEvent::Frame(op, v) =>
            if op == OP_FRAME && is_reply_to(v, "authorize"@, "AUTHORIZE"@) {
                if v.field("evt"@).str_value() == Some("ERROR"@) {
                    Some(None)
                } else {
                    match v.field("data"@).field("code"@).str_value() {
                        Some(code) => Some(Some(code)),
                        None => None,
                    }
                }
            } else {
                None
            },
        ReadEvent::Timeout => None,
        ReadEvent::Failed => Some(None),
    }
}

pub fn authorize_reply(ev: &ReadEvent) -> (r: Option<Option<String>>)
    ensures
        match r {
            Some(Some(c)) => spec_authorize_reply(*ev) == Some(Some(c@)),
            Some(None) => spec_authorize_reply(*ev) == Some(None::<Seq<char>>),
            None => spec_authorize_reply(*ev) is None,
        },
{
    match ev {
        ReadEvent::Frame(op, v) => {
            if *op == OP_FRAME && (v.index("nonce").eq_str("authorize") || v.index("cmd").eq_str("AUTHORIZE")) {
                if v.index("evt").eq_str("ERROR") {
                    Some(None)
                } else {
                    match v.index("data").index("code").as_str() {
                        Some(code) => Some(Some(code.to_owned())),
                        None => None,
                    }
                }
            } else {
                None
            }
        },
        ReadEvent::Timeout => None,
        ReadEvent::Failed => Some(None),
    }
}

/// The form body that exchanges an authorization code for tokens.
pub fn exchange_code_params(cfg: &Config, code: &str) -> (r: String)
    ensures
        r@ == "client_id="@ + cfg.client_id@ + "&client_secret="@ + cfg.client_secret@
            + "&grant_type=authorization_code&code="@ + code@
            + "&redirect_uri=http%3A%2F%2F127.0.0.1"@,
{
    let mut s = "client_id=".to_owned();
    s.append(cfg.client_id.as_str());
    s.append("&client_secret=");
    s.append(cfg.client_secret.as_str());
    s.append("&grant_type=authorization_code&code=");
    s.append(code);
    s.append("&redirect_uri=http%3A%2F%2F127.0.0.1");
    s
}

/// The form body that trades a refresh token for new tokens.
pub fn refresh_params(cfg: &Config, refresh: &str) -> (r: String)
    ensures
        r@ == "client_id="@ + cfg.client_id@ + "&client_secret="@ + cfg.client_secret@
            + "&grant_type=refresh_token&refresh_token="@ + refresh@,
{
    let mut s = "client_id=".to_owned();
    s.append(cfg.client_id.as_str());
    s.append("&client_secret=");
    s.append(cfg.client_secret.as_str());
    s.append("&grant_type=refresh_token&refresh_token=");
    s.append(refresh);
    s
}

/// The access and refresh tokens of a token reply or cache file.
pub open spec fn spec_token_pair(v: Json) -> Option<(Seq<char>, Seq<char>)> {
    match (v.field("access_token"@).str_value(), v.field("refresh_token"@).str_value()) {
        (Some(a), Some(r)) => Some((a, r)),
        _ => None,
    }
}

pub fn token_pair(v: &Json) -> (r: Option<(String, String)>)
    ensures
        match r {
            Some((a, b)) => spec_token_pair(*v) == Some((a@, b@)),
            None => spec_token_pair(*v) is None,
        },
{
    match (v.index("access_token").as_str(), v.index("refresh_token").as_str()) {
        (Some(a), Some(b)) => Some((a.to_owned(), b.to_owned())),
        _ => None,
    }
}

/// The token cache file's contents.
pub open spec fn token_doc(access: Seq<char>, refresh: Seq<char>) -> JsonV {
    JsonV::Object(seq![("access_token"@, JsonV::Str(access)), ("refresh_token"@, JsonV::Str(refresh))])
}

pub fn token_json(access: &str, refresh: &str) -> (r: Json)
    ensures
        r@ == token_doc(access@, refresh@),
{
    let mut m = new_members();
    push_member(&mut m, "access_token", json_str(access));
    push_member(&mut m, "refresh_token", json_str(refresh));
    assert(entries_view(m@) =~= seq![("access_token"@, JsonV::Str(access@)), ("refresh_token"@, JsonV::Str(refresh@))]);
    Json::Object(m)
}

/// The token cache file's text.
pub fn token_text(access: &str, refresh: &str) -> (r: String)
    ensures
        r@ == json_text(token_doc(access@, refresh@)),
{
    to_json_text(&token_json(access, refresh))
}

/// The access and refresh tokens held by a JSON value.
pub open spec fn token_pair_v(v: JsonV) -> Option<(Seq<char>, Seq<char>)> {
    match (str_v(field_v(v, "access_token"@)), str_v(field_v(v, "refresh_token"@))) {
        (Some(a), Some(r)) => Some((a, r)),
        _ => None,
    }
}

/// The tokens held by a JSON text (a token reply or the cache file): `None`
/// when the text is not JSON or lacks either token.
pub open spec fn token_of_text(text: Seq<char>) -> Option<(Seq<char>, Seq<char>)> {
    match parsed_json(vstd::utf8::encode_utf8(text)) {
        Some(v) => token_pair_v(v),
        None => None,
    }
}

/// Reads the access and refresh tokens from a token reply or cache file.
pub fn token_from_text(text: &str) -> (r: Option<(String, String)>)
    ensures
        match r {
            Some((a, b)) => token_of_text(text@) == Some((a@, b@)),
            None => token_of_text(text@) is None,
        },
{
    match parse_json(text.as_bytes()) {
        Some(v) => {
            proof {
                lemma_field_view(v, "access_token"@);
                lemma_field_view(v, "refresh_token"@);
            }
            token_pair(&v)
        },
        None => None,
    }
}

/// What to do after an authentication attempt.
#[derive(Debug, PartialEq, Eq)]
pub enum AuthNext {
    /// The token was accepted.
    Accept(String),
    /// Give up on this connection.
    Abort,
    /// Trade the refresh token for a new access token.
    Refresh,
    /// Forget the cached tokens and run the full authorization flow.
    Reauthorize,
}

/// After trying the cached access token: accept it, refresh it when Discord
/// rejected it, give up on any other failure.
pub fn after_cached_token(r: Result<String, AuthError>) -> (n: AuthNext)
    ensures
        match r {
            Ok(t) => n == AuthNext::Accept(t),
            Err(AuthError::InvalidToken) => n == AuthNext::Refresh,
            Err(AuthError::Other) => n == AuthNext::Abort,
        },
{
    match r {
        Ok(t) => AuthNext::Accept(t),
        Err(AuthError::InvalidToken) => AuthNext::Refresh,
        Err(AuthError::Other) => AuthNext::Abort,
    }
}

/// After trying a freshly refreshed access token: accept it, start over with
/// the full authorization flow when it was rejected too, give up otherwise.
pub fn after_refreshed_token(r: Result<String, AuthError>) -> (n: AuthNext)
    ensures
        match r {
            Ok(t) => n == AuthNext::Accept(t),
            Err(AuthError::InvalidToken) => n == AuthNext::Reauthorize,
            Err(AuthError::Other) => n == AuthNext::Abort,
        },
{
    match r {
        Ok(t) => AuthNext::Accept(t),
        Err(AuthError::InvalidToken) => AuthNext::Reauthorize,
        Err(AuthError::Other) => AuthNext::Abort,
    }
}

} // verus!
