//! The client's decisions: what it sends on connecting, what each frame read
//! while connected calls for, and how long it waits before reconnecting.

use vstd::prelude::*;
use crate::json::{
    Json, JsonV, entries_view, items_view, json_str, new_members, non_empty, opt_string_view,
    push_item, push_member,
};
use crate::text::{dec, to_dec};
use super::auth::ReadEvent;
use super::handlers::{
    FrameResultV, avatar_pairs_view, dispatch_event, member_is, opt_ref_string_view,
    process_frame_events, spec_dispatch, spec_process,
};
use super::ipc::OP_FRAME;
use super::parser::{subscribe_cmd, subscribe_for_channel};
use super::types::{DiscordCommand, DiscordEvent, DiscordEventV, UserId, events_view};

verus! {

/// A request without arguments.
pub open spec fn plain_cmd(cmd: Seq<char>, nonce: Seq<char>) -> JsonV {
    JsonV::Object(seq![
        ("cmd"@, JsonV::Str(cmd)),
        ("args"@, JsonV::Object(Seq::empty())),
        ("nonce"@, JsonV::Str(nonce)),
    ])
}

/// A request to receive `evt` events.
pub open spec fn subscribe_evt_cmd(evt: Seq<char>, nonce: Seq<char>) -> JsonV {
    JsonV::Object(seq![
        ("cmd"@, JsonV::Str("SUBSCRIBE"@)),
        ("evt"@, JsonV::Str(evt)),
        ("args"@, JsonV::Object(Seq::empty())),
        ("nonce"@, JsonV::Str(nonce)),
    ])
}

fn plain_command(cmd: &str, nonce: &str) -> (r: Json)
    ensures
        r@ == plain_cmd(cmd@, nonce@),
{
    let mut m = new_members();
    push_member(&mut m, "cmd", json_str(cmd));
    push_member(&mut m, "args", Json::Object(new_members()));
    push_member(&mut m, "nonce", json_str(nonce));
    assert(entries_view(m@) =~= seq![
        ("cmd"@, JsonV::Str(cmd@)),
        ("args"@, JsonV::Object(Seq::empty())),
        ("nonce"@, JsonV::Str(nonce@)),
    ]);
    Json::Object(m)
}

fn subscribe_event_command(evt: &str, nonce: &str) -> (r: Json)
    ensures
        r@ == subscribe_evt_cmd(evt@, nonce@),
{
    let mut m = new_members();
    push_member(&mut m, "cmd", json_str("SUBSCRIBE"));
    push_member(&mut m, "evt", json_str(evt));
    push_member(&mut m, "args", Json::Object(new_members()));
    push_member(&mut m, "nonce", json_str(nonce));
    assert(entries_view(m@) =~= seq![
        ("cmd"@, JsonV::Str("SUBSCRIBE"@)),
        ("evt"@, JsonV::Str(evt@)),
        ("args"@, JsonV::Object(Seq::empty())),
        ("nonce"@, JsonV::Str(nonce@)),
    ]);
    Json::Object(m)
}

/// The requests sent right after authenticating: the current voice settings,
/// subscriptions to settings changes and channel selection, and the currently
/// selected voice channel.
pub open spec fn initial_cmds() -> Seq<JsonV> {
    seq![
        plain_cmd("GET_VOICE_SETTINGS"@, "gvs"@),
        subscribe_evt_cmd("VOICE_SETTINGS_UPDATE"@, "sub_vsu"@),
        subscribe_evt_cmd("VOICE_CHANNEL_SELECT"@, "sub_vcs"@),
        plain_cmd("GET_SELECTED_VOICE_CHANNEL"@, "gvsc"@),
    ]
}

/// Subscribe to voice settings and channel changes.
pub fn subscribe_initial() -> (r: Vec<Json>)
    ensures
        items_view(r@) == initial_cmds(),
{
    let mut out: Vec<Json> = Vec::new();
    assert(items_view(out@) =~= Seq::<JsonV>::empty());
    push_item(&mut out, plain_command("GET_VOICE_SETTINGS", "gvs"));
    push_item(&mut out, subscribe_event_command("VOICE_SETTINGS_UPDATE", "sub_vsu"));
    push_item(&mut out, subscribe_event_command("VOICE_CHANNEL_SELECT", "sub_vcs"));
    push_item(&mut out, plain_command("GET_SELECTED_VOICE_CHANNEL", "gvsc"));
    assert(items_view(out@) =~= initial_cmds());
    out
}

/// The handshake payload: protocol version 1 and the application's client id.
pub open spec fn handshake_doc(client_id: Seq<char>) -> JsonV {
    JsonV::Object(seq![("v"@, JsonV::Number("1"@)), ("client_id"@, JsonV::Str(client_id))])
}

pub fn handshake_payload(client_id: &str) -> (r: Json)
    ensures
        r@ == handshake_doc(client_id@),
{
    let mut m = new_members();
    push_member(&mut m, "v", Json::Number("1".to_owned()));
    push_member(&mut m, "client_id", json_str(client_id));
    assert(entries_view(m@) =~= seq![("v"@, JsonV::Number("1"@)), ("client_id"@, JsonV::Str(client_id@))]);
    Json::Object(m)
}

/// The request for the guild whose name the overlay shows.
pub open spec fn get_guild_cmd(guild_id: Seq<char>) -> JsonV {
    JsonV::Object(seq![
        ("cmd"@, JsonV::Str("GET_GUILD"@)),
        ("args"@, JsonV::Object(seq![("guild_id"@, JsonV::Str(guild_id))])),
        ("nonce"@, JsonV::Str("get_guild"@)),
    ])
}

pub fn get_guild_command(guild_id: &str) -> (r: Json)
    ensures
        r@ == get_guild_cmd(guild_id@),
{
    let mut args = new_members();
    push_member(&mut args, "guild_id", json_str(guild_id));
    assert(entries_view(args@) =~= seq![("guild_id"@, JsonV::Str(guild_id@))]);
    let mut m = new_members();
    push_member(&mut m, "cmd", json_str("GET_GUILD"));
    push_member(&mut m, "args", Json::Object(args));
    push_member(&mut m, "nonce", json_str("get_guild"));
    assert(entries_view(m@) =~= seq![
        ("cmd"@, JsonV::Str("GET_GUILD"@)),
        ("args"@, JsonV::Object(seq![("guild_id"@, JsonV::Str(guild_id@))])),
        ("nonce"@, JsonV::Str("get_guild"@)),
    ]);
    Json::Object(m)
}

/// The request that carries out a mute or deafen command, with `nonce` in decimal.
pub open spec fn voice_settings_cmd(cmd: DiscordCommand, nonce: nat) -> JsonV {
    let arg = match cmd {
        DiscordCommand::SetMute(m) => ("mute"@, JsonV::Bool(m)),
        DiscordCommand::SetDeaf(d) => ("deaf"@, JsonV::Bool(d)),
    };
    JsonV::Object(seq![
        ("cmd"@, JsonV::Str("SET_VOICE_SETTINGS"@)),
        ("args"@, JsonV::Object(seq![arg])),
        ("nonce"@, JsonV::Str(dec(nonce))),
    ])
}

/// The request for a command from the overlay; each takes the next nonce.
pub fn voice_settings_command(cmd: DiscordCommand, nonce: &mut u64) -> (r: Json)
    requires
        *old(nonce) < u64::MAX,
    ensures
        *final(nonce) == *old(nonce) + 1,
        r@ == voice_settings_cmd(cmd, *final(nonce) as nat),
{
    *nonce += 1;
    let mut args = new_members();
    match cmd {
        DiscordCommand::SetMute(m) => push_member(&mut args, "mute", Json::Bool(m)),
        DiscordCommand::SetDeaf(d) => push_member(&mut args, "deaf", Json::Bool(d)),
    }
    let ghost arg = match cmd {
        DiscordCommand::SetMute(m) => ("mute"@, JsonV::Bool(m)),
        DiscordCommand::SetDeaf(d) => ("deaf"@, JsonV::Bool(d)),
    };
    assert(entries_view(args@) =~= seq![arg]);
    let mut m = new_members();
    push_member(&mut m, "cmd", json_str("SET_VOICE_SETTINGS"));
    push_member(&mut m, "args", Json::Object(args));
    push_member(&mut m, "nonce", Json::Str(to_dec(*nonce)));
    assert(entries_view(m@) =~= seq![
        ("cmd"@, JsonV::Str("SET_VOICE_SETTINGS"@)),
        ("args"@, JsonV::Object(seq![arg])),
        ("nonce"@, JsonV::Str(dec(*nonce as nat))),
    ]);
    Json::Object(m)
}

/// What a read means while waiting for a particular reply.
#[derive(Debug, Clone, Copy, PartialEq, Eq, Structural)]
pub enum WaitStep {
    /// Keep reading.
    Continue,
    /// The awaited frame arrived.
    Done,
    /// The connection failed.
    Fail,
}

/// While waiting for READY after the handshake: a frame whose event is READY
/// ends the wait, a failed read aborts it, anything else is skipped.
pub open spec fn spec_ready_step(ev: ReadEvent) -> WaitStep {
    match ev {
        ReadEvent::Frame(op, v) =>
            if op == OP_FRAME && v.field("evt"@).str_value() == Some("READY"@) {
                WaitStep::Done
            } else {
                WaitStep::Continue
            },
        ReadEvent::Timeout => WaitStep::Continue,
        ReadEvent::Failed => WaitStep::Fail,
    }
}

pub fn ready_step(ev: &ReadEvent) -> (r: WaitStep)
    ensures
        r == spec_ready_step(*ev),
{
    match ev {
        ReadEvent::Frame(op, v) => {
            if *op == OP_FRAME && v.index("evt").eq_str("READY") {
                WaitStep::Done
            } else {
                WaitStep::Continue
            }
        },
        ReadEvent::Timeout => WaitStep::Continue,
        ReadEvent::Failed => WaitStep::Fail,
    }
}

/// Who the local user is, as the READY frame tells it.
pub struct LocalIdentity {
    pub user_id: String,
    pub username: String,
    pub avatar: Option<String>,
}

/// The local user of a READY frame: the id (empty when missing), the username
/// ("unknown" when missing) and the avatar hash when present and not empty.
pub fn local_identity(ready: &Json) -> (r: LocalIdentity)
    ensures
        r.user_id@ == match ready.field("data"@).field("user"@).field("id"@).str_value() {
            Some(s) => s,
            None => Seq::<char>::empty(),
        },
        r.username@ == match ready.field("data"@).field("user"@).field("username"@).str_value() {
            Some(s) => s,
            None => "unknown"@,
        },
        opt_string_view(r.avatar) == non_empty(
            ready.field("data"@).field("user"@).field("avatar"@).str_value(),
        ),
{
    let user = ready.index("data").index("user");
    let user_id = match user.index("id").as_str() {
        Some(s) => s.to_owned(),
        None => String::new(),
    };
    let username = match user.index("username").as_str() {
        Some(s) => s.to_owned(),
        None => "unknown".to_owned(),
    };
    let avatar = user.get_str_option("avatar");
    LocalIdentity { user_id, username, avatar }
}

/// What a frame read while connected calls for: events for the overlay,
/// avatars to fetch `(user id, avatar hash)` and requests to send, in order.
pub struct FrameActions {
    pub events: Vec<DiscordEvent>,
    pub avatars: Vec<(UserId, String)>,
    pub commands: Vec<Json>,
}

/// The mathematical form of [`FrameActions`].
pub struct FrameActionsV {
    pub events: Seq<DiscordEventV>,
    pub avatars: Seq<(Seq<char>, Seq<char>)>,
    pub commands: Seq<JsonV>,
}

pub open spec fn actions_view(a: FrameActions) -> FrameActionsV {
    FrameActionsV {
        events: events_view(a.events@),
        avatars: avatar_pairs_view(a.avatars@),
        commands: items_view(a.commands@),
    }
}

/// Whether a handler result asks for anything at all.
pub open spec fn produced(r: FrameResultV) -> bool {
    r.events.len() > 0 || r.avatars.len() > 0 || r.subscribe is Some || r.guild is Some
}

/// The five channel subscriptions sent for `channel_id` when the nonce was `nonce`.
pub open spec fn channel_cmds(channel_id: Seq<char>, nonce: nat) -> Seq<JsonV> {
    seq![
        subscribe_cmd("SPEAKING_START"@, channel_id, "ss_"@ + dec(nonce + 1)),
        subscribe_cmd("SPEAKING_END"@, channel_id, "se_"@ + dec(nonce + 2)),
        subscribe_cmd("VOICE_STATE_CREATE"@, channel_id, "vsc_"@ + dec(nonce + 3)),
        subscribe_cmd("VOICE_STATE_UPDATE"@, channel_id, "vsu_"@ + dec(nonce + 4)),
        subscribe_cmd("VOICE_STATE_DELETE"@, channel_id, "vsd_"@ + dec(nonce + 5)),
    ]
}

/// Events for a frame that no handler asked anything for: a guild reply
/// without a usable name still names the guild (possibly empty), speaking
/// events with an empty user id still go out, voice-state and error events are
/// dropped, and everything else goes to the voice-settings dispatch.
/// (Selected-channel replies and channel-select events always produce a
/// handler result, see [`lemma_channel_frames_handled`].)
pub open spec fn spec_fallback(v: Json) -> Seq<DiscordEventV> {
    let data = v.field("data"@);
    if member_is(v, "cmd"@, "GET_GUILD"@) && member_is(v, "nonce"@, "get_guild"@) {
        match data.field("name"@).str_value() {
            Some(n) => seq![DiscordEventV::GuildName { name: n }],
            None => Seq::empty(),
        }
    } else if member_is(v, "evt"@, "SPEAKING_START"@) {
        match data.field("user_id"@).str_value() {
            Some(u) => seq![DiscordEventV::SpeakingUpdate { user_id: u, speaking: true }],
            None => Seq::empty(),
        }
    } else if member_is(v, "evt"@, "SPEAKING_END"@) {
        match data.field("user_id"@).str_value() {
            Some(u) => seq![DiscordEventV::SpeakingUpdate { user_id: u, speaking: false }],
            None => Seq::empty(),
        }
    } else if member_is(v, "evt"@, "VOICE_STATE_UPDATE"@) || member_is(v, "evt"@, "VOICE_STATE_CREATE"@)
        || member_is(v, "evt"@, "VOICE_STATE_DELETE"@) || member_is(v, "evt"@, "ERROR"@) {
        Seq::empty()
    } else {
        spec_dispatch(v)
    }
}

/// What a frame calls for, and the nonce afterwards: the handlers' result when
/// it asks for anything (its events and avatars, then the channel
/// subscriptions, then the guild request), the fallback events otherwise.
pub open spec fn spec_frame_actions(
    v: Json,
    id: Seq<char>,
    name: Seq<char>,
    avatar: Option<Seq<char>>,
    nonce: nat,
) -> (FrameActionsV, nat) {
    let r = spec_process(v, id, name, avatar);
    if produced(r) {
        let subs = match r.subscribe {
            Some(c) => channel_cmds(c, nonce),
            None => Seq::empty(),
        };
        let guild = match r.guild {
            Some(g) => seq![get_guild_cmd(g)],
            None => Seq::empty(),
        };
        (
            FrameActionsV { events: r.events, avatars: r.avatars, commands: subs + guild },
            if r.subscribe is Some { nonce + 5 } else { nonce },
        )
    } else {
        (FrameActionsV { events: spec_fallback(v), avatars: Seq::empty(), commands: Seq::empty() }, nonce)
    }
}

/// Replies to the selected-channel request and channel-select events always
/// produce a handler result, so the fallback never sees them.
pub proof fn lemma_channel_frames_handled(v: Json, id: Seq<char>, name: Seq<char>, avatar: Option<Seq<char>>)
    requires
        (member_is(v, "cmd"@, "GET_SELECTED_VOICE_CHANNEL"@) && member_is(v, "nonce"@, "gvsc"@))
            || member_is(v, "evt"@, "VOICE_CHANNEL_SELECT"@),
    ensures
        produced(spec_process(v, id, name, avatar)),
{
}

fn fallback_events(v: &Json) -> (r: Vec<DiscordEvent>)
    ensures
        events_view(r@) == spec_fallback(*v),
{
    let cmd = v.get_string("cmd");
    let evt = v.get_string("evt");
    let nonce = v.get_string("nonce");
    let data = v.index("data");
    let mut out: Vec<DiscordEvent> = Vec::new();
    if crate::text::str_eq(cmd.as_str(), "GET_GUILD") && crate::text::str_eq(nonce.as_str(), "get_guild") {
        match data.index("name").as_str() {
            Some(n) => out.push(DiscordEvent::GuildName { name: n.to_owned() }),
            None => {},
        }
    } else if crate::text::str_eq(evt.as_str(), "SPEAKING_START") {
        match data.index("user_id").as_str() {
            Some(u) => out.push(DiscordEvent::SpeakingUpdate { user_id: UserId(u.to_owned()), speaking: true }),
            None => {},
        }
    } else if crate::text::str_eq(evt.as_str(), "SPEAKING_END") {
        match data.index("user_id").as_str() {
            Some(u) => out.push(DiscordEvent::SpeakingUpdate { user_id: UserId(u.to_owned()), speaking: false }),
            None => {},
        }
    } else if crate::text::str_eq(evt.as_str(), "VOICE_STATE_UPDATE")
        || crate::text::str_eq(evt.as_str(), "VOICE_STATE_CREATE")
        || crate::text::str_eq(evt.as_str(), "VOICE_STATE_DELETE")
        || crate::text::str_eq(evt.as_str(), "ERROR") {
    } else {
        out = dispatch_event(v);
    }
    assert(events_view(out@) =~= spec_fallback(*v));
    out
}

/// What a frame read while connected calls for. Each channel subscription
/// takes the next nonce.
pub fn handle_frame(
    v: &Json,
    local_user_id: &str,
    local_username: &str,
    local_avatar: Option<&String>,
    nonce: &mut u64,
) -> (r: FrameActions)
    requires
        *old(nonce) <= u64::MAX - 5,
    ensures
        (actions_view(r), *final(nonce) as nat) == spec_frame_actions(
            *v,
            local_user_id@,
            local_username@,
            opt_ref_string_view(local_avatar),
            *old(nonce) as nat,
        ),
{
    let (events, avatars, subscribe, guild) = process_frame_events(v, local_user_id, local_username, local_avatar);
    if events.len() > 0 || avatars.len() > 0 || subscribe.is_some() || guild.is_some() {
        let mut commands: Vec<Json> = Vec::new();
        assert(items_view(commands@) =~= Seq::<JsonV>::empty());
        match subscribe {
            Some(cid) => {
                commands = subscribe_for_channel(cid.as_str(), nonce);
            },
            None => {},
        }
        let ghost subs = items_view(commands@);
        match guild {
            Some(gid) => {
                push_item(&mut commands, get_guild_command(gid.as_str()));
            },
            None => {},
        }
        proof {
            let r = spec_process(*v, local_user_id@, local_username@, opt_ref_string_view(local_avatar));
            let guild_cmds = match r.guild {
                Some(g) => seq![get_guild_cmd(g)],
                None => Seq::<JsonV>::empty(),
            };
            assert(items_view(commands@) =~= subs + guild_cmds);
        }
        FrameActions { events, avatars, commands }
    } else {
        let events = fallback_events(v);
        let avatars: Vec<(UserId, String)> = Vec::new();
        let commands: Vec<Json> = Vec::new();
        assert(avatar_pairs_view(avatars@) =~= Seq::empty());
        assert(items_view(commands@) =~= Seq::<JsonV>::empty());
        FrameActions { events, avatars, commands }
    }
}

/// What one read while connected leads to.
pub enum ClientStep {
    /// A frame arrived; carry out these actions.
    Act(FrameActions),
    /// Nothing to do (a timeout, or a frame that is not a command frame).
    Idle,
    /// The read failed: the connection is over.
    Disconnect,
}

/// One read of the connected loop: command frames are handled, other frames
/// and timeouts are ignored, and a failed read ends the connection.
pub fn client_step(
    ev: &ReadEvent,
    local_user_id: &str,
    local_username: &str,
    local_avatar: Option<&String>,
    nonce: &mut u64,
) -> (r: ClientStep)
    requires
        *old(nonce) <= u64::MAX - 5,
    ensures
        match *ev {
            ReadEvent::Frame(op, v) => if op == OP_FRAME {
                r matches ClientStep::Act(a) && (actions_view(a), *final(nonce) as nat) == spec_frame_actions(
                    v,
                    local_user_id@,
                    local_username@,
                    opt_ref_string_view(local_avatar),
                    *old(nonce) as nat,
                )
            } else {
                r is Idle && *final(nonce) == *old(nonce)
            },
            ReadEvent::Timeout => r is Idle && *final(nonce) == *old(nonce),
            ReadEvent::Failed => r is Disconnect && *final(nonce) == *old(nonce),
        },
{
    match ev {
        ReadEvent::Frame(op, v) => {
            if *op == OP_FRAME {
                ClientStep::Act(handle_frame(v, local_user_id, local_username, local_avatar, nonce))
            } else {
                ClientStep::Idle
            }
        },
        ReadEvent::Timeout => ClientStep::Idle,
        ReadEvent::Failed => ClientStep::Disconnect,
    }
}

/// The longest wait between reconnection attempts, in seconds.
pub const MAX_BACKOFF_SECS: u64 = 30;

/// How long to sleep before reconnecting and the backoff for the attempt after
/// that: a clean disconnect resets the backoff to one second, and each wait
/// doubles it up to [`MAX_BACKOFF_SECS`].
pub fn reconnect_delay(backoff_secs: u64, clean: bool) -> (r: (u64, u64))
    requires
        backoff_secs <= u64::MAX / 2,
    ensures
        r.0 == if clean { 1 } else { backoff_secs },
        r.1 == if 2 * r.0 < MAX_BACKOFF_SECS { 2 * r.0 } else { MAX_BACKOFF_SECS as int },
        backoff_secs <= MAX_BACKOFF_SECS ==> r.1 <= MAX_BACKOFF_SECS,
        backoff_secs >= 1 ==> r.0 >= 1,
{
    let sleep = if clean { 1 } else { backoff_secs };
    let doubled = sleep * 2;
    let next = if doubled < MAX_BACKOFF_SECS { doubled } else { MAX_BACKOFF_SECS };
    (sleep, next)
}

} // verus!
