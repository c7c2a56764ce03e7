use vstd::prelude::*;
use vstd::string::*;

use crate::errors::APIError;
use crate::json::{decimal_i32, decimal_int, json_quote, json_string_literal};
use crate::middleware::auth::{jwt_accepted_claims, jwt_decode};

verus! {

/// The query string of a websocket connection request.
pub struct WsQuery {
    pub token: String,
}

/// What checking the token of a websocket connection decides, given the
/// server's token secret if it is configured: `InternalServerError` without
/// a secret; otherwise `Ok(Some(claims JSON text))` when the token is
/// accepted and `Ok(None)` when it is not.
pub fn validate_token(token: &str, secret: Option<&str>) -> (r: Result<Option<String>, APIError>)
    ensures
        (match secret {
            None => r matches Err(e) && e == APIError::InternalServerError,
            Some(s) => r matches Ok(o) && (o matches Some(p) ==> jwt_accepted_claims(token@, s@)
                == Some(p@)) && (jwt_accepted_claims(token@, s@) is None ==> o is None),
        }),
{
    match secret {
        None => Err(APIError::InternalServerError),
        Some(s) => Ok(jwt_decode(token, s)),
    }
}

/// The admission decision for a websocket connection to a room.
#[derive(Clone, Copy, Debug, PartialEq, Eq, Structural)]
pub enum WsGate {
    /// Answer the request with a plain `Unauthorized` response (status 401)
    /// rather than an error: the token was not accepted.
    Deny,
    /// The token is accepted: look up the room.
    LookUpRoom,
    /// Refuse the connection with this error.
    Reject(APIError),
    /// The room is private: look up whether the user is a member.
    CheckMembership,
    /// Upgrade the connection.
    Admit,
}

/// The first admission step of a websocket connection: a connection whose
/// token is not accepted (`accepted` false) is answered with a plain
/// `Unauthorized` response; otherwise its room is looked up.
pub fn ws_token_gate(accepted: bool) -> (r: WsGate)
    ensures
        r == (if accepted {
            WsGate::LookUpRoom
        } else {
            WsGate::Deny
        }),
{
    if accepted {
        WsGate::LookUpRoom
    } else {
        WsGate::Deny
    }
}

/// The admission decision, given whether the room is private (`None` when
/// it does not exist) and, once looked up, whether the user is a member.
pub open spec fn admission(room_private: Option<i8>, member: Option<bool>) -> WsGate {
    match room_private {
        None => WsGate::Reject(APIError::NotFound),
        Some(p) => if p != 0 {
            match member {
                None => WsGate::CheckMembership,
                Some(true) => WsGate::Admit,
                Some(false) => WsGate::Reject(APIError::Unauthorized),
            }
        } else {
            WsGate::Admit
        },
    }
}

/// Decides whether a user with an accepted token may join the live channel
/// of a room: `NotFound` for a room that does not exist; a public room
/// admits everyone; a private room admits its members only.
pub fn ws_admission(room_private: Option<i8>, member: Option<bool>) -> (r: WsGate)
    ensures
        r == admission(room_private, member),
{
    match room_private {
        None => WsGate::Reject(APIError::NotFound),
        Some(p) => {
            if p != 0 {
                match member {
                    None => WsGate::CheckMembership,
                    Some(true) => WsGate::Admit,
                    Some(false) => WsGate::Reject(APIError::Unauthorized),
                }
            } else {
                WsGate::Admit
            }
        },
    }
}

/// The name of the pub/sub channel of a room.
pub open spec fn channel_name(room_id: int) -> Seq<char> {
    "room:"@ + decimal_int(room_id)
}

/// The pub/sub channel that carries the messages of room `room_id`.
pub fn room_channel(room_id: i32) -> (r: String)
    ensures
        r@ == channel_name(room_id as int),
{
    let mut s = String::from_str("room:");
    let id = decimal_i32(room_id);
    s.append(id.as_str());
    s
}

/// The JSON object that announces a new chat message on the room channel,
/// its keys in sorted order, as serde_json writes a `json!` object.
pub open spec fn chat_payload_text(
    username: Seq<char>,
    user_id: int,
    content: Seq<char>,
    room_id: int,
) -> Seq<char> {
    "{\"content\":"@ + json_string_literal(content) + ",\"deleted\":0,\"room_id\":"@
        + decimal_int(room_id) + ",\"user_id\":"@ + decimal_int(user_id) + ",\"username\":"@
        + json_string_literal(username) + "}"@
}

/// The announcement of a new chat message on its room channel.
pub fn chat_payload(username: &str, user_id: i32, content: &str, room_id: i32) -> (r: String)
    ensures
        r@ == chat_payload_text(username@, user_id as int, content@, room_id as int),
{
    let mut s = String::from_str("{\"content\":");
    let c = json_quote(content);
    s.append(c.as_str());
    s.append(",\"deleted\":0,\"room_id\":");
    let r = decimal_i32(room_id);
    s.append(r.as_str());
    s.append(",\"user_id\":");
    let u = decimal_i32(user_id);
    s.append(u.as_str());
    s.append(",\"username\":");
    let n = json_quote(username);
    s.append(n.as_str());
    s.append("}");
    s
}

/// A chat message to be stored.
pub struct NewMessage {
    pub room_id: i32,
    pub user_id: i32,
    pub content: String,
}

/// What posting a chat message does: announce `payload` on `channel`, then
/// store `message`.
pub struct Publication {
    pub channel: String,
    pub payload: String,
    pub message: NewMessage,
}

/// How a chat message written by user `user_id` (named `username`) in room
/// `room_id` is announced and stored.
pub fn publish_message(username: &str, message: String, room_id: i32, user_id: i32) -> (r:
    Publication)
    ensures
        r.channel@ == channel_name(room_id as int),
        r.payload@ == chat_payload_text(username@, user_id as int, message@, room_id as int),
        r.message.room_id == room_id,
        r.message.user_id == user_id,
        r.message.content@ == message@,
{
    let channel = room_channel(room_id);
    let payload = chat_payload(username, user_id, message.as_str(), room_id);
    Publication { channel, payload, message: NewMessage { room_id, user_id, content: message } }
}

/// What happens on a room's live connection.
pub enum SocketEvent {
    /// The client sent a text frame.
    ClientText(String),
    /// A message arrived on the room channel.
    ChannelPayload(String),
    /// Announcing or storing a message of the client failed.
    PublishFailed,
}

/// What the connection does next.
pub enum SocketAction {
    /// Announce and store this text as a chat message of the client.
    Publish(String),
    /// Send this text to the client.
    Forward(String),
    /// End the session.
    Close,
}

/// One step of a room's live connection: text from the client is published
/// as a chat message, messages from the room channel go to the client, a
/// failed publication ends the session.
pub fn handle_socket_event(event: SocketEvent) -> (r: SocketAction)
    ensures
        (match event {
            SocketEvent::ClientText(t) => r matches SocketAction::Publish(x) && x@ == t@,
            SocketEvent::ChannelPayload(t) => r matches SocketAction::Forward(x) && x@ == t@,
            SocketEvent::PublishFailed => r is Close,
        }),
{
    match event {
        SocketEvent::ClientText(t) => SocketAction::Publish(t),
        SocketEvent::ChannelPayload(t) => SocketAction::Forward(t),
        SocketEvent::PublishFailed => SocketAction::Close,
    }
}

/// Rooms with different ids have different channels, so a connection
/// subscribed to one room never receives another room's messages.
pub proof fn lemma_room_channels_distinct(a: i32, b: i32)
    requires
        a != b,
    ensures
        channel_name(a as int) != channel_name(b as int),
{
    reveal_strlit("room:");
    if channel_name(a as int) == channel_name(b as int) {
        let ca = channel_name(a as int);
        let cb = channel_name(b as int);
        assert(ca.subrange(5, ca.len() as int) =~= decimal_int(a as int));
        assert(cb.subrange(5, cb.len() as int) =~= decimal_int(b as int));
        crate::json::lemma_decimal_int_injective(a as int, b as int);
    }
}

/// A connection is admitted only to a room that exists, and to a private
/// room only once the user is known to be a member.
pub proof fn lemma_admission_requires_access(room_private: Option<i8>, member: Option<bool>)
    ensures
        admission(room_private, member) == WsGate::Admit ==> (room_private matches Some(p) && (p
            == 0 || member == Some(true))),
        room_private matches Some(p) && p != 0 && member == Some(false) ==> admission(
            room_private,
            member,
        ) == WsGate::Reject(APIError::Unauthorized),
{
}

/// The admission decision for every input: a missing room is refused with
/// `NotFound`; a public room (flag 0) admits everyone; any other room asks
/// for the membership, then admits a member and refuses a non-member with
/// `Unauthorized`.
pub proof fn lemma_admission(room_private: Option<i8>, member: Option<bool>)
    ensures
        room_private is None ==> admission(room_private, member) == WsGate::Reject(
            APIError::NotFound,
        ),
        room_private == Some(0i8) ==> admission(room_private, member) == WsGate::Admit,
        room_private is Some && room_private != Some(0i8) ==> admission(room_private, member) == (
        match member {
            None => WsGate::CheckMembership,
            Some(true) => WsGate::Admit,
            Some(false) => WsGate::Reject(APIError::Unauthorized),
        }),
{
}

} // verus!
