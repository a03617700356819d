//! JSON parsing for Discord voice state events.

use vstd::prelude::*;
use crate::json::{Json, JsonV, non_empty, push_member, json_str, entries_view};
use crate::text::{dec, tagged};
use super::types::{Participant, ParticipantBuilder, ParticipantV, UserId};

verus! {

/// A boolean member of `v`, or `default` when it is missing or not a boolean.
pub open spec fn bool_member(v: Json, key: Seq<char>, default: bool) -> bool {
    match v.field(key).bool_value() {
        Some(b) => b,
        None => default,
    }
}

/// A string member of `v`, or the empty string.
pub open spec fn string_member(v: Json, key: Seq<char>) -> Seq<char> {
    match v.field(key).str_value() {
        Some(s) => s,
        None => Seq::empty(),
    }
}

/// The participant described by one voice-state object of the Discord RPC.
pub open spec fn spec_voice_state(vs: Json) -> ParticipantV {
    let user = vs.field("user"@);
    let inner = vs.field("voice_state"@);
    let self_mute = bool_member(inner, "self_mute"@, false);
    let self_deaf = bool_member(inner, "self_deaf"@, false);
    let server_mute = bool_member(vs, "mute"@, false) || bool_member(inner, "mute"@, false);
    let server_deaf = bool_member(inner, "deaf"@, false);
    ParticipantV {
        user_id: string_member(user, "id"@),
        username: match non_empty(user.field("username"@).str_value()) {
            Some(s) => s,
            None => "?"@,
        },
        nick: non_empty(vs.field("nick"@).str_value()),
        avatar_hash: non_empty(user.field("avatar"@).str_value()),
        muted: self_mute || server_mute,
        deafened: self_deaf || server_deaf,
    }
}

/// The items of a JSON array, or nothing for any other value.
pub open spec fn array_items(v: Json) -> Seq<Json> {
    match v {
        Json::Array(items) => items@,
        _ => Seq::empty(),
    }
}

/// The participants listed under `voice_states` of a channel object.
pub open spec fn spec_participants(channel: Json) -> Seq<ParticipantV> {
    let states = array_items(channel.field("voice_states"@));
    Seq::new(states.len(), |i: int| spec_voice_state(states[i]))
}

/// A voice state's mute and deafen flags: a participant is muted exactly when
/// the top-level `mute`, or `self_mute` or `mute` inside `voice_state`, is
/// `true`, and deafened exactly when `self_deaf` or `deaf` inside
/// `voice_state` is `true`.
pub proof fn lemma_voice_state_flags(vs: Json)
    ensures
        spec_voice_state(vs).muted <==> (
            vs.field("mute"@) == Json::Bool(true)
            || vs.field("voice_state"@).field("self_mute"@) == Json::Bool(true)
            || vs.field("voice_state"@).field("mute"@) == Json::Bool(true)),
        spec_voice_state(vs).deafened <==> (
            vs.field("voice_state"@).field("self_deaf"@) == Json::Bool(true)
            || vs.field("voice_state"@).field("deaf"@) == Json::Bool(true)),
{
}

pub fn parse_voice_state(vs: &Json) -> (r: Participant)
    ensures
        r@ == spec_voice_state(*vs),
{
    let user = vs.index("user");
    let vs_inner = vs.index("voice_state");
    let self_mute = vs_inner.get_bool("self_mute", false);
    let self_deaf = vs_inner.get_bool("self_deaf", false);
    let server_mute = vs.get_bool("mute", false) || vs_inner.get_bool("mute", false);
    let server_deaf = vs_inner.get_bool("deaf", false);

    let username = match user.get_str_option("username") {
        Some(u) => u,
        None => "?".to_owned(),
    };
    ParticipantBuilder::new(UserId(user.get_string("id")), username)
        .nick(vs.get_str_option("nick"))
        .avatar_hash(user.get_str_option("avatar"))
        .muted(self_mute || server_mute)
        .deafened(self_deaf || server_deaf)
        .build()
}

pub fn parse_participants(channel_data: &Json) -> (r: Vec<Participant>)
    ensures
        r@.len() == spec_participants(*channel_data).len(),
        forall|i: int| 0 <= i < r@.len() ==> #[trigger] r@[i]@ == spec_participants(*channel_data)[i],
{
    let mut out: Vec<Participant> = Vec::new();
    match channel_data.index("voice_states") {
        Json::Array(states) => {
            let mut i: usize = 0;
            while i < states.len()
                invariant
                    channel_data.field("voice_states"@) == Json::Array(*states),
                    i <= states@.len(),
                    out@.len() == i,
                    forall|k: int| 0 <= k < i ==> #[trigger] out@[k]@ == spec_voice_state(states@[k]),
                decreases states.len() - i,
            {
                out.push(parse_voice_state(&states[i]));
                i += 1;
            }
        },
        _ => {},
    }
    out
}

/// A request to receive `evt` events for the voice channel `channel_id`.
pub open spec fn subscribe_cmd(evt: Seq<char>, channel_id: Seq<char>, nonce: Seq<char>) -> JsonV {
    JsonV::Object(seq![
        ("cmd"@, JsonV::Str("SUBSCRIBE"@)),
        ("evt"@, JsonV::Str(evt)),
        ("args"@, JsonV::Object(seq![("channel_id"@, JsonV::Str(channel_id))])),
        ("nonce"@, JsonV::Str(nonce)),
    ])
}

fn channel_subscription(evt: &str, channel_id: &str, prefix: &str, n: u64) -> (r: Json)
    ensures
        r@ == subscribe_cmd(evt@, channel_id@, prefix@ + dec(n as nat)),
{
    let mut args = crate::json::new_members();
    push_member(&mut args, "channel_id", json_str(channel_id));
    let ghost args_v = entries_view(args@);
    let mut m = crate::json::new_members();
    push_member(&mut m, "cmd", json_str("SUBSCRIBE"));
    push_member(&mut m, "evt", json_str(evt));
    push_member(&mut m, "args", Json::Object(args));
    push_member(&mut m, "nonce", Json::Str(tagged(prefix, n)));
    assert(entries_view(args@) =~= seq![("channel_id"@, JsonV::Str(channel_id@))]);
    assert(entries_view(m@) =~= seq![
        ("cmd"@, JsonV::Str("SUBSCRIBE"@)),
        ("evt"@, JsonV::Str(evt@)),
        ("args"@, JsonV::Object(seq![("channel_id"@, JsonV::Str(channel_id@))])),
        ("nonce"@, JsonV::Str(prefix@ + dec(n as nat))),
    ]);
    Json::Object(m)
}

/// The five subscriptions for a voice channel: speaking start and end, and
/// voice-state creation, update and deletion. Each takes the next nonce.
pub fn subscribe_for_channel(channel_id: &str, nonce: &mut u64) -> (r: Vec<Json>)
    requires
        *old(nonce) <= u64::MAX - 5,
    ensures
        *final(nonce) == *old(nonce) + 5,
        crate::json::items_view(r@) == seq![
            subscribe_cmd("SPEAKING_START"@, channel_id@, "ss_"@ + dec((*old(nonce) + 1) as nat)),
            subscribe_cmd("SPEAKING_END"@, channel_id@, "se_"@ + dec((*old(nonce) + 2) as nat)),
            subscribe_cmd("VOICE_STATE_CREATE"@, channel_id@, "vsc_"@ + dec((*old(nonce) + 3) as nat)),
            subscribe_cmd("VOICE_STATE_UPDATE"@, channel_id@, "vsu_"@ + dec((*old(nonce) + 4) as nat)),
            subscribe_cmd("VOICE_STATE_DELETE"@, channel_id@, "vsd_"@ + dec((*old(nonce) + 5) as nat)),
        ],
{
    let mut out: Vec<Json> = Vec::new();
    assert(crate::json::items_view(out@) =~= Seq::<JsonV>::empty());
    *nonce += 1;
    crate::json::push_item(&mut out, channel_subscription("SPEAKING_START", channel_id, "ss_", *nonce));
    *nonce += 1;
    crate::json::push_item(&mut out, channel_subscription("SPEAKING_END", channel_id, "se_", *nonce));
    *nonce += 1;
    crate::json::push_item(&mut out, channel_subscription("VOICE_STATE_CREATE", channel_id, "vsc_", *nonce));
    *nonce += 1;
    crate::json::push_item(&mut out, channel_subscription("VOICE_STATE_UPDATE", channel_id, "vsu_", *nonce));
    *nonce += 1;
    crate::json::push_item(&mut out, channel_subscription("VOICE_STATE_DELETE", channel_id, "vsd_", *nonce));
    assert(crate::json::items_view(out@) =~= seq![
        subscribe_cmd("SPEAKING_START"@, channel_id@, "ss_"@ + dec((*old(nonce) + 1) as nat)),
        subscribe_cmd("SPEAKING_END"@, channel_id@, "se_"@ + dec((*old(nonce) + 2) as nat)),
        subscribe_cmd("VOICE_STATE_CREATE"@, channel_id@, "vsc_"@ + dec((*old(nonce) + 3) as nat)),
        subscribe_cmd("VOICE_STATE_UPDATE"@, channel_id@, "vsu_"@ + dec((*old(nonce) + 4) as nat)),
        subscribe_cmd("VOICE_STATE_DELETE"@, channel_id@, "vsd_"@ + dec((*old(nonce) + 5) as nat)),
    ]);
    out
}

} // verus!
