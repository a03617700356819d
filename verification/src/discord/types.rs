//! Public types for Discord IPC communication.

use vstd::prelude::*;
use vstd::std_specs::convert::FromSpecImpl;
use vstd::std_specs::cmp::PartialEqSpecImpl;

verus! {

/// Credentials of the Discord application the overlay authenticates as.
pub struct Config {
    pub client_id: String,
    pub client_secret: String,
}

/// Unique Discord user identifier.
#[derive(Debug, Hash)]
pub struct UserId(pub String);

impl UserId {
    pub fn as_str(&self) -> (r: &str)
        ensures
            r@ == self.0@,
    {
        self.0.as_str()
    }

    pub fn is_empty(&self) -> (r: bool)
        ensures
            r == (self.0@.len() == 0),
    {
        self.0.as_str().is_empty()
    }

    /// The UTF-8 bytes of the identifier.
    pub fn bytes(&self) -> (r: &[u8])
        ensures
            r@ == vstd::utf8::encode_utf8(self.0@),
    {
        self.0.as_str().as_bytes()
    }
}

impl Clone for UserId {
    fn clone(&self) -> (r: Self)
        ensures
            r == *self,
    {
        UserId(self.0.clone())
    }
}

impl Default for UserId {
    fn default() -> (r: Self)
        ensures
            r.0@ == Seq::<char>::empty(),
    {
        UserId(String::new())
    }
}

impl PartialEq for UserId {
    fn eq(&self, other: &Self) -> (r: bool) {
        self.0 == other.0
    }
}

impl PartialEqSpecImpl for UserId {
    open spec fn obeys_eq_spec() -> bool {
        true
    }

    open spec fn eq_spec(&self, other: &Self) -> bool {
        self.0@ == other.0@
    }
}

impl Eq for UserId {}

impl PartialEq<str> for UserId {
    fn eq(&self, other: &str) -> (r: bool) {
        crate::text::str_eq(self.0.as_str(), other)
    }
}

impl PartialEqSpecImpl<str> for UserId {
    open spec fn obeys_eq_spec() -> bool {
        true
    }

    open spec fn eq_spec(&self, other: &str) -> bool {
        self.0@ == other@
    }
}

impl<'a> PartialEq<&'a str> for UserId {
    fn eq(&self, other: &&'a str) -> (r: bool) {
        crate::text::str_eq(self.0.as_str(), *other)
    }
}

impl<'a> PartialEqSpecImpl<&'a str> for UserId {
    open spec fn obeys_eq_spec() -> bool {
        true
    }

    open spec fn eq_spec(&self, other: &&'a str) -> bool {
        self.0@ == (*other)@
    }
}

impl PartialEq<String> for UserId {
    fn eq(&self, other: &String) -> (r: bool) {
        self.0 == *other
    }
}

impl PartialEqSpecImpl<String> for UserId {
    open spec fn obeys_eq_spec() -> bool {
        true
    }

    open spec fn eq_spec(&self, other: &String) -> bool {
        self.0@ == other@
    }
}

impl From<String> for UserId {
    fn from(s: String) -> (r: Self) {
        UserId(s)
    }
}

impl FromSpecImpl<String> for UserId {
    open spec fn obeys_from_spec() -> bool {
        true
    }

    open spec fn from_spec(s: String) -> Self {
        UserId(s)
    }
}

impl<'a> From<&'a str> for UserId {
    fn from(s: &'a str) -> (r: Self)
        ensures
            r.0@ == s@,
    {
        UserId(s.to_owned())
    }
}

// Two strings with the same characters are not known to be the same value,
// so this conversion promises nothing beyond what `from` itself states.
impl<'a> FromSpecImpl<&'a str> for UserId {
    open spec fn obeys_from_spec() -> bool {
        false
    }

    open spec fn from_spec(s: &'a str) -> Self {
        UserId(choose|t: String| t@ == s@)
    }
}

/// A participant in the current voice channel.
#[derive(Debug)]
pub struct Participant {
    pub user_id: UserId,
    pub username: String,
    pub nick: Option<String>,
    pub avatar_hash: Option<String>,
    /// True if muted by themselves or by the server.
    pub muted: bool,
    /// True if deafened by themselves or by the server.
    pub deafened: bool,
}

/// The mathematical form of a participant.
pub struct ParticipantV {
    pub user_id: Seq<char>,
    pub username: Seq<char>,
    pub nick: Option<Seq<char>>,
    pub avatar_hash: Option<Seq<char>>,
    pub muted: bool,
    pub deafened: bool,
}

impl View for Participant {
    type V = ParticipantV;

    open spec fn view(&self) -> ParticipantV {
        ParticipantV {
            user_id: self.user_id.0@,
            username: self.username@,
            nick: crate::json::opt_string_view(self.nick),
            avatar_hash: crate::json::opt_string_view(self.avatar_hash),
            muted: self.muted,
            deafened: self.deafened,
        }
    }
}

/// A copy of an optional string.
pub fn clone_opt_string(o: &Option<String>) -> (r: Option<String>)
    ensures
        r == *o,
{
    match o {
        Some(s) => Some(s.clone()),
        None => None,
    }
}

impl Clone for Participant {
    fn clone(&self) -> (r: Self)
        ensures
            r == *self,
    {
        Participant {
            user_id: self.user_id.clone(),
            username: self.username.clone(),
            nick: clone_opt_string(&self.nick),
            avatar_hash: clone_opt_string(&self.avatar_hash),
            muted: self.muted,
            deafened: self.deafened,
        }
    }
}

/// Events sent from the Discord thread to the main thread.
#[derive(Debug)]
pub enum DiscordEvent {
    /// Successfully authenticated; contains the Discord username and user ID.
    Ready { username: String, user_id: UserId },
    /// Current mute/deafen state (sent on connect and on change).
    VoiceSettings { mute: bool, deaf: bool },
    /// Voice input mode: true = push-to-talk, false = voice activity.
    VoiceMode { ptt: bool },
    /// Current participants in the voice channel (full replace).
    VoiceParticipants { participants: Vec<Participant>, channel_name: Option<String> },
    /// A user joined the voice channel.
    UserJoined(Participant),
    /// A user left the voice channel.
    UserLeft { user_id: UserId },
    /// A user's mute/deaf state changed.
    ParticipantStateUpdate { user_id: UserId, muted: bool, deafened: bool },
    /// A user started or stopped speaking.
    SpeakingUpdate { user_id: UserId, speaking: bool },
    /// Avatar image downloaded and decoded.
    AvatarLoaded { user_id: UserId, rgba: Vec<u8>, size: u32 },
    /// Guild (server) name for the current voice channel.
    GuildName { name: String },
    /// A network latency measurement, in milliseconds.
    PingResult { latency_ms: u32 },
    /// Connection lost.
    Disconnected,
}

/// The mathematical form of a Discord event.
pub enum DiscordEventV {
    Ready { username: Seq<char>, user_id: Seq<char> },
    VoiceSettings { mute: bool, deaf: bool },
    VoiceMode { ptt: bool },
    VoiceParticipants { participants: Seq<ParticipantV>, channel_name: Option<Seq<char>> },
    UserJoined(ParticipantV),
    UserLeft { user_id: Seq<char> },
    ParticipantStateUpdate { user_id: Seq<char>, muted: bool, deafened: bool },
    SpeakingUpdate { user_id: Seq<char>, speaking: bool },
    AvatarLoaded { user_id: Seq<char>, rgba: Seq<u8>, size: u32 },
    GuildName { name: Seq<char> },
    PingResult { latency_ms: u32 },
    Disconnected,
}

/// The mathematical form of a list of participants.
pub open spec fn participants_view(ps: Seq<Participant>) -> Seq<ParticipantV> {
    ps.map_values(|p: Participant| p@)
}

impl View for DiscordEvent {
    type V = DiscordEventV;

    open spec fn view(&self) -> DiscordEventV {
        match *self {
            DiscordEvent::Ready { username, user_id } =>
                DiscordEventV::Ready { username: username@, user_id: user_id.0@ },
            DiscordEvent::VoiceSettings { mute, deaf } => DiscordEventV::VoiceSettings { mute, deaf },
            DiscordEvent::VoiceMode { ptt } => DiscordEventV::VoiceMode { ptt },
            DiscordEvent::VoiceParticipants { participants, channel_name } =>
                DiscordEventV::VoiceParticipants {
                    participants: participants_view(participants@),
                    channel_name: crate::json::opt_string_view(channel_name),
                },
            DiscordEvent::UserJoined(p) => DiscordEventV::UserJoined(p@),
            DiscordEvent::UserLeft { user_id } => DiscordEventV::UserLeft { user_id: user_id.0@ },
            DiscordEvent::ParticipantStateUpdate { user_id, muted, deafened } =>
                DiscordEventV::ParticipantStateUpdate { user_id: user_id.0@, muted, deafened },
            DiscordEvent::SpeakingUpdate { user_id, speaking } =>
                DiscordEventV::SpeakingUpdate { user_id: user_id.0@, speaking },
            DiscordEvent::AvatarLoaded { user_id, rgba, size } =>
                DiscordEventV::AvatarLoaded { user_id: user_id.0@, rgba: rgba@, size },
            DiscordEvent::GuildName { name } => DiscordEventV::GuildName { name: name@ },
            DiscordEvent::PingResult { latency_ms } => DiscordEventV::PingResult { latency_ms },
            DiscordEvent::Disconnected => DiscordEventV::Disconnected,
        }
    }
}

/// The mathematical form of a list of events.
pub open spec fn events_view(es: Seq<DiscordEvent>) -> Seq<DiscordEventV> {
    es.map_values(|e: DiscordEvent| e@)
}

/// Commands sent from the main thread to the Discord thread.
#[derive(Debug, Clone, Copy, PartialEq, Eq, Structural)]
pub enum DiscordCommand {
    SetMute(bool),
    SetDeaf(bool),
}

/// Builder for Participant with sensible defaults.
pub struct ParticipantBuilder {
    user_id: UserId,
    username: String,
    nick: Option<String>,
    avatar_hash: Option<String>,
    muted: bool,
    deafened: bool,
}

impl ParticipantBuilder {
    /// The participant `build` will produce.
    pub closed spec fn spec_result(self) -> Participant {
        Participant {
            user_id: self.user_id,
            username: self.username,
            nick: self.nick,
            avatar_hash: match self.avatar_hash {
                Some(h) => if h@.len() > 0 { Some(h) } else { None },
                None => None,
            },
            muted: self.muted,
            deafened: self.deafened,
        }
    }

    pub fn new(user_id: UserId, username: String) -> (r: Self)
        ensures
            r.spec_result() == (Participant {
                user_id,
                username,
                nick: None,
                avatar_hash: None,
                muted: false,
                deafened: false,
            }),
    {
        ParticipantBuilder {
            user_id,
            username,
            nick: None,
            avatar_hash: None,
            muted: false,
            deafened: false,
        }
    }

    pub fn nick(self, nick: Option<String>) -> (r: Self)
        ensures
            r.spec_result() == (Participant { nick, ..self.spec_result() }),
    {
        ParticipantBuilder { nick, ..self }
    }

    pub fn avatar_hash(self, hash: Option<String>) -> (r: Self)
        ensures
            r.spec_result() == (Participant {
                avatar_hash: match hash {
                    Some(h) => if h@.len() > 0 { Some(h) } else { None },
                    None => None,
                },
                ..self.spec_result()
            }),
    {
        ParticipantBuilder { avatar_hash: hash, ..self }
    }

    pub fn muted(self, muted: bool) -> (r: Self)
        ensures
            r.spec_result() == (Participant { muted, ..self.spec_result() }),
    {
        ParticipantBuilder { muted, ..self }
    }

    pub fn deafened(self, deafened: bool) -> (r: Self)
        ensures
            r.spec_result() == (Participant { deafened, ..self.spec_result() }),
    {
        ParticipantBuilder { deafened, ..self }
    }

    /// The participant; an empty avatar hash counts as none.
    pub fn build(self) -> (r: Participant)
        ensures
            r == self.spec_result(),
    {
        let avatar_hash = match self.avatar_hash {
            Some(h) => if h.as_str().is_empty() { None } else { Some(h) },
            None => None,
        };
        Participant {
            user_id: self.user_id,
            username: self.username,
            nick: self.nick,
            avatar_hash,
            muted: self.muted,
            deafened: self.deafened,
        }
    }
}

} // verus!
