//! Event handlers for Discord IPC frame processing.

use vstd::prelude::*;
use crate::json::{Json, non_empty, opt_string_view};
use super::parser::{
    array_items, lemma_voice_state_flags, parse_participants, parse_voice_state, spec_participants,
    spec_voice_state, string_member,
};
use super::types::{
    DiscordEvent, DiscordEventV, Participant, ParticipantBuilder, ParticipantV, UserId,
    clone_opt_string, events_view, participants_view,
};

verus! {

/// Events to forward, avatars to fetch `(user id, avatar hash)`, a channel to
/// subscribe to and a guild whose name to request.
pub type FrameProcessResult = (
    Vec<DiscordEvent>,
    Vec<(UserId, String)>,
    Option<String>,
    Option<String>,
);

/// The mathematical form of a frame-processing result.
pub struct FrameResultV {
    pub events: Seq<DiscordEventV>,
    pub avatars: Seq<(Seq<char>, Seq<char>)>,
    pub subscribe: Option<Seq<char>>,
    pub guild: Option<Seq<char>>,
}

pub open spec fn avatar_pairs_view(a: Seq<(UserId, String)>) -> Seq<(Seq<char>, Seq<char>)> {
    a.map_values(|x: (UserId, String)| (x.0.0@, x.1@))
}

pub open spec fn result_view(r: FrameProcessResult) -> FrameResultV {
    FrameResultV {
        events: events_view(r.0@),
        avatars: avatar_pairs_view(r.1@),
        subscribe: opt_string_view(r.2),
        guild: opt_string_view(r.3),
    }
}

/// A result that carries only `events`.
pub open spec fn only_events(events: Seq<DiscordEventV>) -> FrameResultV {
    FrameResultV { events, avatars: Seq::empty(), subscribe: None, guild: None }
}

/// The first participant whose id is `id`.
pub open spec fn find_participant(s: Seq<ParticipantV>, id: Seq<char>) -> Option<ParticipantV>
    decreases s.len(),
{
    if s.len() == 0 {
        None
    } else if s[0].user_id == id {
        Some(s[0])
    } else {
        find_participant(s.drop_first(), id)
    }
}

/// The participants whose id is not `id`, in order.
pub open spec fn others_of(s: Seq<ParticipantV>, id: Seq<char>) -> Seq<ParticipantV>
    decreases s.len(),
{
    if s.len() == 0 {
        Seq::empty()
    } else {
        let rest = others_of(s.drop_last(), id);
        if s.last().user_id != id { rest.push(s.last()) } else { rest }
    }
}

/// `(user id, avatar hash)` of every participant that has an avatar, in order.
pub open spec fn avatars_of(s: Seq<ParticipantV>) -> Seq<(Seq<char>, Seq<char>)>
    decreases s.len(),
{
    if s.len() == 0 {
        Seq::empty()
    } else {
        let rest = avatars_of(s.drop_last());
        match s.last().avatar_hash {
            Some(h) => rest.push((s.last().user_id, h)),
            None => rest,
        }
    }
}

/// Cached data about the local user from participant list.
pub struct SelfParticipantData {
    pub nick: Option<String>,
    pub avatar_hash: Option<String>,
    pub muted: bool,
    pub deafened: bool,
}

/// The mathematical form of the local user's data.
pub struct SelfDataV {
    pub nick: Option<Seq<char>>,
    pub avatar_hash: Option<Seq<char>>,
    pub muted: bool,
    pub deafened: bool,
}

impl View for SelfParticipantData {
    type V = SelfDataV;

    open spec fn view(&self) -> SelfDataV {
        SelfDataV {
            nick: opt_string_view(self.nick),
            avatar_hash: opt_string_view(self.avatar_hash),
            muted: self.muted,
            deafened: self.deafened,
        }
    }
}

/// The local user's data: taken from their entry in the list when there is one,
/// with the avatar reported at connect time preferred over the listed one.
pub open spec fn spec_self_data(s: Seq<ParticipantV>, id: Seq<char>, local_avatar: Option<Seq<char>>) -> SelfDataV {
    match find_participant(s, id) {
        Some(p) => SelfDataV {
            nick: p.nick,
            avatar_hash: if local_avatar is Some { local_avatar } else { p.avatar_hash },
            muted: p.muted,
            deafened: p.deafened,
        },
        None => SelfDataV { nick: None, avatar_hash: local_avatar, muted: false, deafened: false },
    }
}

pub open spec fn opt_ref_string_view(o: Option<&String>) -> Option<Seq<char>> {
    match o {
        Some(s) => Some(s@),
        None => None,
    }
}

proof fn lemma_find_skip(s: Seq<ParticipantV>, id: Seq<char>, i: int)
    requires
        0 <= i < s.len(),
        s[i].user_id != id,
        find_participant(s, id) == find_participant(s.skip(i), id),
    ensures
        find_participant(s, id) == find_participant(s.skip(i + 1), id),
{
    assert(s.skip(i).drop_first() =~= s.skip(i + 1));
    assert(s.skip(i)[0] == s[i]);
}

/// Extract local user's data from participant list in a single pass.
/// Returns the data and a vec of all other participants.
pub fn extract_self_data(
    participants: &[Participant],
    local_user_id: &str,
    local_avatar: Option<&String>,
) -> (r: (SelfParticipantData, Vec<Participant>))
    ensures
        r.0@ == spec_self_data(participants_view(participants@), local_user_id@, opt_ref_string_view(local_avatar)),
        participants_view(r.1@) == others_of(participants_view(participants@), local_user_id@),
{
    let ghost all = participants_view(participants@);
    let mut found: Option<usize> = None;
    let mut others: Vec<Participant> = Vec::new();
    let mut i: usize = 0;
    assert(all.skip(0) =~= all);
    assert(all.take(0) =~= Seq::<ParticipantV>::empty());
    while i < participants.len()
        invariant
            all == participants_view(participants@),
            i <= participants@.len(),
            participants_view(others@) == others_of(all.take(i as int), local_user_id@),
            match found {
                Some(k) => k < participants@.len() && find_participant(all, local_user_id@) == Some(all[k as int]),
                None => find_participant(all, local_user_id@) == find_participant(all.skip(i as int), local_user_id@),
            },
        decreases participants.len() - i,
    {
        let p = &participants[i];
        let is_local = p.user_id == *local_user_id;
        assert(all[i as int] == participants@[i as int]@);
        assert(all.take(i + 1).drop_last() =~= all.take(i as int));
        assert(all.take(i + 1).last() == all[i as int]);
        if is_local {
            if found.is_none() {
                assert(all.skip(i as int)[0] == all[i as int]);
                found = Some(i);
            }
        } else {
            let ghost before = others@;
            others.push(p.clone());
            assert(participants_view(others@) =~= participants_view(before).push(all[i as int]));
            if found.is_none() {
                proof { lemma_find_skip(all, local_user_id@, i as int); }
            }
        }
        i += 1;
    }
    assert(all.take(i as int) =~= all);
    let avatar = clone_opt_string(&match local_avatar { Some(a) => Some(a.clone()), None => None });
    let data = match found {
        Some(k) => {
            let p = &participants[k];
            SelfParticipantData {
                nick: clone_opt_string(&p.nick),
                avatar_hash: if avatar.is_some() { avatar } else { clone_opt_string(&p.avatar_hash) },
                muted: p.muted,
                deafened: p.deafened,
            }
        },
        None => {
            assert(all.skip(i as int).len() == 0);
            SelfParticipantData { nick: None, avatar_hash: avatar, muted: false, deafened: false }
        },
    };
    (data, others)
}

pub open spec fn opt_result_view(r: Option<FrameProcessResult>) -> Option<FrameResultV> {
    match r {
        Some(x) => Some(result_view(x)),
        None => None,
    }
}

/// Whether the string member `key` of `v` equals `expected` (a missing member reads as empty).
pub open spec fn member_is(v: Json, key: Seq<char>, expected: Seq<char>) -> bool {
    string_member(v, key) == expected
}

pub open spec fn spec_get_guild(v: Json) -> Option<FrameResultV> {
    match non_empty(v.field("data"@).field("name"@).str_value()) {
        Some(name) => Some(only_events(seq![DiscordEventV::GuildName { name }])),
        None => None,
    }
}

/// The participant list of a selected-channel reply: the local user first,
/// then everyone else in the order Discord listed them.
pub open spec fn channel_parts(data: Json, id: Seq<char>, name: Seq<char>, avatar: Option<Seq<char>>) -> Seq<ParticipantV> {
    let all = spec_participants(data);
    let sd = spec_self_data(all, id, avatar);
    let me = ParticipantV {
        user_id: id,
        username: name,
        nick: sd.nick,
        avatar_hash: non_empty(sd.avatar_hash),
        muted: sd.muted,
        deafened: sd.deafened,
    };
    seq![me] + others_of(all, id)
}

pub open spec fn spec_voice_channel_select(v: Json, id: Seq<char>, name: Seq<char>, avatar: Option<Seq<char>>) -> Option<FrameResultV> {
    let data = v.field("data"@);
    if !(data is Null) {
        let parts = channel_parts(data, id, name, avatar);
        Some(FrameResultV {
            events: seq![DiscordEventV::VoiceParticipants {
                participants: parts,
                channel_name: non_empty(data.field("name"@).str_value()),
            }],
            avatars: avatars_of(parts),
            subscribe: non_empty(data.field("id"@).str_value()),
            guild: non_empty(data.field("guild_id"@).str_value()),
        })
    } else {
        Some(only_events(seq![DiscordEventV::VoiceParticipants { participants: Seq::empty(), channel_name: None }]))
    }
}

pub open spec fn spec_speaking(v: Json, speaking: bool) -> Option<FrameResultV> {
    match non_empty(v.field("data"@).field("user_id"@).str_value()) {
        Some(u) => Some(only_events(seq![DiscordEventV::SpeakingUpdate { user_id: u, speaking }])),
        None => None,
    }
}

pub open spec fn spec_voice_state_update(v: Json) -> Option<FrameResultV> {
    let p = spec_voice_state(v.field("data"@));
    if p.user_id.len() > 0 {
        Some(only_events(seq![DiscordEventV::ParticipantStateUpdate {
            user_id: p.user_id,
            muted: p.muted,
            deafened: p.deafened,
        }]))
    } else {
        None
    }
}

pub open spec fn spec_voice_state_create(v: Json) -> Option<FrameResultV> {
    let p = spec_voice_state(v.field("data"@));
    if p.user_id.len() > 0 {
        Some(FrameResultV {
            events: seq![DiscordEventV::UserJoined(p)],
            avatars: match p.avatar_hash {
                Some(h) => seq![(p.user_id, h)],
                None => Seq::empty(),
            },
            subscribe: None,
            guild: None,
        })
    } else {
        None
    }
}

pub open spec fn spec_voice_state_delete(v: Json) -> Option<FrameResultV> {
    match v.field("data"@).field("user"@).field("id"@).str_value() {
        Some(u) => Some(only_events(seq![DiscordEventV::UserLeft { user_id: u }])),
        None => None,
    }
}

pub open spec fn spec_channel_select_event(v: Json) -> Option<FrameResultV> {
    match non_empty(v.field("data"@).field("channel_id"@).str_value()) {
        Some(c) => Some(FrameResultV { events: Seq::empty(), avatars: Seq::empty(), subscribe: Some(c), guild: None }),
        None => Some(only_events(seq![
            DiscordEventV::GuildName { name: Seq::empty() },
            DiscordEventV::VoiceParticipants { participants: Seq::empty(), channel_name: None },
        ])),
    }
}

/// One kind of frame the client reacts to.
pub trait EventHandler {
    fn matches(&self, v: &Json) -> bool;

    fn handle(
        &self,
        v: &Json,
        local_user_id: &str,
        local_username: &str,
        local_avatar: Option<&String>,
    ) -> Option<FrameProcessResult>;
}

fn one_event(e: DiscordEvent) -> (r: FrameProcessResult)
    ensures
        result_view(r) == only_events(seq![e@]),
{
    let r = (vec![e], Vec::new(), None, None);
    assert(events_view(r.0@) =~= seq![e@]);
    assert(avatar_pairs_view(r.1@) =~= Seq::empty());
    r
}

pub struct GetGuildHandler;

impl EventHandler for GetGuildHandler {
    fn matches(&self, v: &Json) -> (r: bool)
        ensures
            r == (member_is(*v, "cmd"@, "GET_GUILD"@) && member_is(*v, "nonce"@, "get_guild"@)),
    {
        let a = v.get_string("cmd");
        let b = v.get_string("nonce");
        crate::text::str_eq(a.as_str(), "GET_GUILD") && crate::text::str_eq(b.as_str(), "get_guild")
    }

    fn handle(
        &self,
        v: &Json,
        _local_user_id: &str,
        _local_username: &str,
        _local_avatar: Option<&String>,
    ) -> (r: Option<FrameProcessResult>)
        ensures
            opt_result_view(r) == spec_get_guild(*v),
    {
        match v.index("data").get_str_option("name") {
            Some(name) => Some(one_event(DiscordEvent::GuildName { name })),
            None => None,
        }
    }
}

/// `(user id, avatar hash)` for every participant in `parts` that has an avatar.
pub fn collect_avatars(parts: &Vec<Participant>) -> (r: Vec<(UserId, String)>)
    ensures
        avatar_pairs_view(r@) == avatars_of(participants_view(parts@)),
{
    let ghost ps = participants_view(parts@);
    let mut out: Vec<(UserId, String)> = Vec::new();
    let mut i: usize = 0;
    assert(ps.take(0) =~= Seq::<ParticipantV>::empty());
    assert(avatar_pairs_view(out@) =~= Seq::empty());
    while i < parts.len()
        invariant
            ps == participants_view(parts@),
            i <= parts@.len(),
            avatar_pairs_view(out@) == avatars_of(ps.take(i as int)),
        decreases parts.len() - i,
    {
        let p = &parts[i];
        assert(ps.take(i + 1).drop_last() =~= ps.take(i as int));
        assert(ps.take(i + 1).last() == parts@[i as int]@);
        match &p.avatar_hash {
            Some(h) => {
                let ghost before = out@;
                out.push((p.user_id.clone(), h.clone()));
                assert(avatar_pairs_view(out@) =~= avatar_pairs_view(before).push((p.user_id.0@, h@)));
            },
            None => {},
        }
        i += 1;
    }
    assert(ps.take(i as int) =~= ps);
    out
}

pub struct VoiceChannelSelectHandler;

impl EventHandler for VoiceChannelSelectHandler {
    fn matches(&self, v: &Json) -> (r: bool)
        ensures
            r == (member_is(*v, "cmd"@, "GET_SELECTED_VOICE_CHANNEL"@) && member_is(*v, "nonce"@, "gvsc"@)),
    {
        let a = v.get_string("cmd");
        let b = v.get_string("nonce");
        crate::text::str_eq(a.as_str(), "GET_SELECTED_VOICE_CHANNEL") && crate::text::str_eq(b.as_str(), "gvsc")
    }

    fn handle(
        &self,
        v: &Json,
        local_user_id: &str,
        local_username: &str,
        local_avatar: Option<&String>,
    ) -> (r: Option<FrameProcessResult>)
        ensures
            opt_result_view(r) == spec_voice_channel_select(*v, local_user_id@, local_username@, opt_ref_string_view(local_avatar)),
    {
        let data = v.index("data");
        if !data.is_null() {
            let subscribe_channel = data.get_str_option("id");
            let all = parse_participants(data);
            assert(participants_view(all@) =~= spec_participants(*data));
            let (self_data, others) = extract_self_data(all.as_slice(), local_user_id, local_avatar);
            let me = ParticipantBuilder::new(UserId(local_user_id.to_owned()), local_username.to_owned())
                .nick(self_data.nick)
                .avatar_hash(self_data.avatar_hash)
                .muted(self_data.muted)
                .deafened(self_data.deafened)
                .build();
            let ghost me_v = me@;
            let mut parts: Vec<Participant> = vec![me];
            let ghost ov = participants_view(others@);
            assert(participants_view(parts@) =~= seq![me_v] + ov.take(0));
            let mut i: usize = 0;
            while i < others.len()
                invariant
                    ov == participants_view(others@),
                    i <= others@.len(),
                    participants_view(parts@) == seq![me_v] + ov.take(i as int),
                decreases others.len() - i,
            {
                let ghost before = parts@;
                parts.push(others[i].clone());
                assert(participants_view(parts@) =~= participants_view(before).push(ov[i as int]));
                assert(ov.take(i + 1) =~= ov.take(i as int).push(ov[i as int]));
                i += 1;
            }
            assert(ov.take(i as int) =~= ov);
            assert(participants_view(parts@) == channel_parts(*data, local_user_id@, local_username@, opt_ref_string_view(local_avatar)));
            let channel_name = data.get_str_option("name");
            let avatars = collect_avatars(&parts);
            let guild_id = data.get_str_option("guild_id");
            let events = vec![DiscordEvent::VoiceParticipants { participants: parts, channel_name }];
            let r = (events, avatars, subscribe_channel, guild_id);
            assert(events_view(r.0@) =~= seq![r.0@[0]@]);
            Some(r)
        } else {
            let e = DiscordEvent::VoiceParticipants { participants: Vec::new(), channel_name: None };
            assert(participants_view(Seq::<Participant>::empty()) =~= Seq::empty());
            Some(one_event(e))
        }
    }
}

pub struct SpeakingStartHandler;

impl EventHandler for SpeakingStartHandler {
    fn matches(&self, v: &Json) -> (r: bool)
        ensures
            r == member_is(*v, "evt"@, "SPEAKING_START"@),
    {
        let a = v.get_string("evt");
        crate::text::str_eq(a.as_str(), "SPEAKING_START")
    }

    fn handle(
        &self,
        v: &Json,
        _local_user_id: &str,
        _local_username: &str,
        _local_avatar: Option<&String>,
    ) -> (r: Option<FrameProcessResult>)
        ensures
            opt_result_view(r) == spec_speaking(*v, true),
    {
        match v.index("data").get_str_option("user_id") {
            Some(uid) => Some(one_event(DiscordEvent::SpeakingUpdate { user_id: UserId(uid), speaking: true })),
            None => None,
        }
    }
}

pub struct SpeakingEndHandler;

impl EventHandler for SpeakingEndHandler {
    fn matches(&self, v: &Json) -> (r: bool)
        ensures
            r == member_is(*v, "evt"@, "SPEAKING_END"@),
    {
        let a = v.get_string("evt");
        crate::text::str_eq(a.as_str(), "SPEAKING_END")
    }

    fn handle(
        &self,
        v: &Json,
        _local_user_id: &str,
        _local_username: &str,
        _local_avatar: Option<&String>,
    ) -> (r: Option<FrameProcessResult>)
        ensures
            opt_result_view(r) == spec_speaking(*v, false),
    {
        match v.index("data").get_str_option("user_id") {
            Some(uid) => Some(one_event(DiscordEvent::SpeakingUpdate { user_id: UserId(uid), speaking: false })),
            None => None,
        }
    }
}

pub struct VoiceStateUpdateHandler;

impl EventHandler for VoiceStateUpdateHandler {
    fn matches(&self, v: &Json) -> (r: bool)
        ensures
            r == member_is(*v, "evt"@, "VOICE_STATE_UPDATE"@),
    {
        let a = v.get_string("evt");
        crate::text::str_eq(a.as_str(), "VOICE_STATE_UPDATE")
    }

    fn handle(
        &self,
        v: &Json,
        _local_user_id: &str,
        _local_username: &str,
        _local_avatar: Option<&String>,
    ) -> (r: Option<FrameProcessResult>)
        ensures
            opt_result_view(r) == spec_voice_state_update(*v),
    {
        let p = parse_voice_state(v.index("data"));
        if !p.user_id.is_empty() {
            Some(one_event(DiscordEvent::ParticipantStateUpdate {
                user_id: p.user_id,
                muted: p.muted,
                deafened: p.deafened,
            }))
        } else {
            None
        }
    }
}

pub struct VoiceStateCreateHandler;

impl EventHandler for VoiceStateCreateHandler {
    fn matches(&self, v: &Json) -> (r: bool)
        ensures
            r == member_is(*v, "evt"@, "VOICE_STATE_CREATE"@),
    {
        let a = v.get_string("evt");
        crate::text::str_eq(a.as_str(), "VOICE_STATE_CREATE")
    }

    fn handle(
        &self,
        v: &Json,
        _local_user_id: &str,
        _local_username: &str,
        _local_avatar: Option<&String>,
    ) -> (r: Option<FrameProcessResult>)
        ensures
            opt_result_view(r) == spec_voice_state_create(*v),
    {
        let p = parse_voice_state(v.index("data"));
        if !p.user_id.is_empty() {
            let mut avatars: Vec<(UserId, String)> = Vec::new();
            match &p.avatar_hash {
                Some(hash) => { avatars.push((p.user_id.clone(), hash.clone())); },
                None => {},
            }
            let ghost pv = p@;
            let r = (vec![DiscordEvent::UserJoined(p)], avatars, None, None);
            assert(events_view(r.0@) =~= seq![DiscordEventV::UserJoined(pv)]);
            assert(avatar_pairs_view(r.1@) =~= match pv.avatar_hash {
                Some(h) => seq![(pv.user_id, h)],
                None => Seq::empty(),
            });
            Some(r)
        } else {
            None
        }
    }
}

pub struct VoiceStateDeleteHandler;

impl EventHandler for VoiceStateDeleteHandler {
    fn matches(&self, v: &Json) -> (r: bool)
        ensures
            r == member_is(*v, "evt"@, "VOICE_STATE_DELETE"@),
    {
        let a = v.get_string("evt");
        crate::text::str_eq(a.as_str(), "VOICE_STATE_DELETE")
    }

    fn handle(
        &self,
        v: &Json,
        _local_user_id: &str,
        _local_username: &str,
        _local_avatar: Option<&String>,
    ) -> (r: Option<FrameProcessResult>)
        ensures
            opt_result_view(r) == spec_voice_state_delete(*v),
    {
        match v.index("data").index("user").index("id").as_str() {
            Some(uid) => Some(one_event(DiscordEvent::UserLeft { user_id: UserId(uid.to_owned()) })),
            None => None,
        }
    }
}

pub struct VoiceChannelSelectEventHandler;

impl EventHandler for VoiceChannelSelectEventHandler {
    fn matches(&self, v: &Json) -> (r: bool)
        ensures
            r == member_is(*v, "evt"@, "VOICE_CHANNEL_SELECT"@),
    {
        let a = v.get_string("evt");
        crate::text::str_eq(a.as_str(), "VOICE_CHANNEL_SELECT")
    }

    fn handle(
        &self,
        v: &Json,
        _local_user_id: &str,
        _local_username: &str,
        _local_avatar: Option<&String>,
    ) -> (r: Option<FrameProcessResult>)
        ensures
            opt_result_view(r) == spec_channel_select_event(*v),
    {
        match v.index("data").get_str_option("channel_id") {
            Some(cid) => {
                let r: FrameProcessResult = (Vec::new(), Vec::new(), Some(cid), None);
                assert(events_view(r.0@) =~= Seq::empty());
                assert(avatar_pairs_view(r.1@) =~= Seq::empty());
                Some(r)
            },
            None => {
                let r: FrameProcessResult = (
                    vec![
                        DiscordEvent::GuildName { name: String::new() },
                        DiscordEvent::VoiceParticipants { participants: Vec::new(), channel_name: None },
                    ],
                    Vec::new(),
                    None,
                    None,
                );
                assert(participants_view(Seq::<Participant>::empty()) =~= Seq::empty());
                assert(events_view(r.0@) =~= seq![
                    DiscordEventV::GuildName { name: Seq::empty() },
                    DiscordEventV::VoiceParticipants { participants: Seq::empty(), channel_name: None },
                ]);
                assert(avatar_pairs_view(r.1@) =~= Seq::empty());
                Some(r)
            },
        }
    }
}

/// The result of the first handler, in the fixed handler order, that both
/// matches the frame and produces a result; an empty result when none does.
pub open spec fn spec_process(v: Json, id: Seq<char>, name: Seq<char>, avatar: Option<Seq<char>>) -> FrameResultV {
    let empty = FrameResultV { events: Seq::empty(), avatars: Seq::empty(), subscribe: None, guild: None };
    if member_is(v, "cmd"@, "GET_GUILD"@) && member_is(v, "nonce"@, "get_guild"@) && spec_get_guild(v) is Some {
        spec_get_guild(v)->0
    } else if member_is(v, "cmd"@, "GET_SELECTED_VOICE_CHANNEL"@) && member_is(v, "nonce"@, "gvsc"@) {
        spec_voice_channel_select(v, id, name, avatar)->0
    } else if member_is(v, "evt"@, "SPEAKING_START"@) && spec_speaking(v, true) is Some {
        spec_speaking(v, true)->0
    } else if member_is(v, "evt"@, "SPEAKING_END"@) && spec_speaking(v, false) is Some {
        spec_speaking(v, false)->0
    } else if member_is(v, "evt"@, "VOICE_STATE_UPDATE"@) && spec_voice_state_update(v) is Some {
        spec_voice_state_update(v)->0
    } else if member_is(v, "evt"@, "VOICE_STATE_CREATE"@) && spec_voice_state_create(v) is Some {
        spec_voice_state_create(v)->0
    } else if member_is(v, "evt"@, "VOICE_STATE_DELETE"@) && spec_voice_state_delete(v) is Some {
        spec_voice_state_delete(v)->0
    } else if member_is(v, "evt"@, "VOICE_CHANNEL_SELECT"@) {
        spec_channel_select_event(v)->0
    } else {
        empty
    }
}

pub fn process_frame_events(
    v: &Json,
    local_user_id: &str,
    local_username: &str,
    local_avatar: Option<&String>,
) -> (r: FrameProcessResult)
    ensures
        result_view(r) == spec_process(*v, local_user_id@, local_username@, opt_ref_string_view(local_avatar)),
{
    if GetGuildHandler.matches(v) {
        match GetGuildHandler.handle(v, local_user_id, local_username, local_avatar) {
            Some(x) => { return x; },
            None => {},
        }
    }
    if VoiceChannelSelectHandler.matches(v) {
        match VoiceChannelSelectHandler.handle(v, local_user_id, local_username, local_avatar) {
            Some(x) => { return x; },
            None => {},
        }
    }
    if SpeakingStartHandler.matches(v) {
        match SpeakingStartHandler.handle(v, local_user_id, local_username, local_avatar) {
            Some(x) => { return x; },
            None => {},
        }
    }
    if SpeakingEndHandler.matches(v) {
        match SpeakingEndHandler.handle(v, local_user_id, local_username, local_avatar) {
            Some(x) => { return x; },
            None => {},
        }
    }
    if VoiceStateUpdateHandler.matches(v) {
        match VoiceStateUpdateHandler.handle(v, local_user_id, local_username, local_avatar) {
            Some(x) => { return x; },
            None => {},
        }
    }
    if VoiceStateCreateHandler.matches(v) {
        match VoiceStateCreateHandler.handle(v, local_user_id, local_username, local_avatar) {
            Some(x) => { return x; },
            None => {},
        }
    }
    if VoiceStateDeleteHandler.matches(v) {
        match VoiceStateDeleteHandler.handle(v, local_user_id, local_username, local_avatar) {
            Some(x) => { return x; },
            None => {},
        }
    }
    if VoiceChannelSelectEventHandler.matches(v) {
        match VoiceChannelSelectEventHandler.handle(v, local_user_id, local_username, local_avatar) {
            Some(x) => { return x; },
            None => {},
        }
    }
    let r: FrameProcessResult = (Vec::new(), Vec::new(), None, None);
    assert(events_view(r.0@) =~= Seq::empty());
    assert(avatar_pairs_view(r.1@) =~= Seq::empty());
    r
}

/// The events a voice-settings payload announces: the mute/deafen state, then
/// the input mode when the payload names one.
pub open spec fn spec_settings_events(data: Json) -> Seq<DiscordEventV> {
    let settings = DiscordEventV::VoiceSettings {
        mute: super::parser::bool_member(data, "mute"@, false),
        deaf: super::parser::bool_member(data, "deaf"@, false),
    };
    match data.field("mode"@).field("type"@).str_value() {
        Some(t) => seq![settings, DiscordEventV::VoiceMode { ptt: t == "PUSH_TO_TALK"@ }],
        None => seq![settings],
    }
}

/// Events for the frames no handler claims: voice-settings updates and the
/// reply to the initial voice-settings request; nothing for anything else.
pub open spec fn spec_dispatch(v: Json) -> Seq<DiscordEventV> {
    if v.field("evt"@).str_value() == Some("VOICE_SETTINGS_UPDATE"@) {
        spec_settings_events(v.field("data"@))
    } else if v.field("cmd"@).str_value() == Some("GET_VOICE_SETTINGS"@)
        && v.field("nonce"@).str_value() == Some("gvs"@) {
        spec_settings_events(v.field("data"@))
    } else {
        Seq::empty()
    }
}

fn settings_events(data: &Json) -> (r: Vec<DiscordEvent>)
    ensures
        events_view(r@) == spec_settings_events(*data),
{
    let mute = data.get_bool("mute", false);
    let deaf = data.get_bool("deaf", false);
    let mut out = vec![DiscordEvent::VoiceSettings { mute, deaf }];
    match data.index("mode").index("type").as_str() {
        Some(mode_type) => {
            let ptt = crate::text::str_eq(mode_type, "PUSH_TO_TALK");
            out.push(DiscordEvent::VoiceMode { ptt });
        },
        None => {},
    }
    assert(events_view(out@) =~= spec_settings_events(*data));
    out
}

/// The events to forward for a frame that no handler produced anything for.
pub fn dispatch_event(v: &Json) -> (r: Vec<DiscordEvent>)
    ensures
        events_view(r@) == spec_dispatch(*v),
{
    let is_update = match v.index("evt").as_str() {
        Some(e) => crate::text::str_eq(e, "VOICE_SETTINGS_UPDATE"),
        None => false,
    };
    if is_update {
        settings_events(v.index("data"))
    } else if v.index("cmd").eq_str("GET_VOICE_SETTINGS") && v.index("nonce").eq_str("gvs") {
        settings_events(v.index("data"))
    } else {
        let r: Vec<DiscordEvent> = Vec::new();
        assert(events_view(r@) =~= Seq::empty());
        r
    }
}

proof fn lemma_find_first(s: Seq<ParticipantV>, id: Seq<char>, k: int)
    requires
        0 <= k < s.len(),
        s[k].user_id == id,
        forall|j: int| 0 <= j < k ==> s[j].user_id != id,
    ensures
        find_participant(s, id) == Some(s[k]),
    decreases k,
{
    if k > 0 {
        assert(s[0].user_id != id);
        let t = s.drop_first();
        assert(t[k - 1] == s[k]);
        assert forall|j: int| 0 <= j < k - 1 implies t[j].user_id != id by {
            assert(t[j] == s[j + 1]);
        }
        lemma_find_first(t, id, k - 1);
    }
}

/// In the reply to the selected-channel request, the local user's entry,
/// listed first, carries the mute and deafen flags of the first voice state
/// with the local user's id: muted exactly when that state's top-level
/// `mute`, or its inner `self_mute` or `mute`, is true; deafened exactly when
/// its inner `self_deaf` or `deaf` is true.
pub proof fn lemma_selected_channel_local_flags(v: Json, id: Seq<char>, name: Seq<char>, avatar: Option<Seq<char>>, k: int)
    requires
        member_is(v, "cmd"@, "GET_SELECTED_VOICE_CHANNEL"@),
        member_is(v, "nonce"@, "gvsc"@),
        !(v.field("data"@) is Null),
        0 <= k < array_items(v.field("data"@).field("voice_states"@)).len(),
        string_member(array_items(v.field("data"@).field("voice_states"@))[k].field("user"@), "id"@) == id,
        forall|j: int| 0 <= j < k
            ==> string_member(#[trigger] array_items(v.field("data"@).field("voice_states"@))[j].field("user"@), "id"@) != id,
    ensures
        ({
            let r = spec_process(v, id, name, avatar);
            let vs = array_items(v.field("data"@).field("voice_states"@))[k];
            let inner = vs.field("voice_state"@);
            &&& r.events.len() == 1
            &&& r.events[0] matches DiscordEventV::VoiceParticipants { participants, channel_name }
                && participants.len() >= 1
                && participants[0].user_id == id
                && (participants[0].muted <==> (vs.field("mute"@) == Json::Bool(true)
                    || inner.field("self_mute"@) == Json::Bool(true)
                    || inner.field("mute"@) == Json::Bool(true)))
                && (participants[0].deafened <==> (inner.field("self_deaf"@) == Json::Bool(true)
                    || inner.field("deaf"@) == Json::Bool(true)))
        }),
{
    reveal_strlit("GET_GUILD");
    reveal_strlit("GET_SELECTED_VOICE_CHANNEL");
    assert("GET_GUILD"@.len() != "GET_SELECTED_VOICE_CHANNEL"@.len());
    assert(!member_is(v, "cmd"@, "GET_GUILD"@));
    let data = v.field("data"@);
    let states = array_items(data.field("voice_states"@));
    let all = spec_participants(data);
    assert(all[k] == spec_voice_state(states[k]));
    assert forall|j: int| 0 <= j < k implies all[j].user_id != id by {
        assert(all[j] == spec_voice_state(states[j]));
    }
    lemma_find_first(all, id, k);
    lemma_voice_state_flags(states[k]);
}

} // verus!
