//! The packets of the game server, as far as the client reads and writes
//! them, and their conversion into world packets.
use vstd::prelude::*;

verus! {

/// The keep-alive packet, which the client answers in kind.
#[derive(Clone, Copy, Debug, PartialEq, Eq, Structural)]
pub struct Ping {}

/// The packet with which the game server starts a session.
#[derive(Clone, Copy, Debug, PartialEq, Eq, Structural)]
pub struct PlayerInitPacket {}

/// The client's answer to [`PlayerInitPacket`].
#[derive(Clone, Copy, Debug, PartialEq, Eq, Structural)]
pub struct PlayerInitReceivedPacket {}

/// A chat message: from the player `player_id`, or, where the client sends
/// it, from none.
#[derive(Clone, Debug)]
pub struct PlayerChatPacket {
    pub player_id: Option<i32>,
    pub message: String,
}

/// The packets that a world packet can carry.
#[derive(Clone, Debug)]
pub enum Packet {
    Ping(Ping),
    PlayerInitPacket(PlayerInitPacket),
    PlayerInitReceived(PlayerInitReceivedPacket),
    PlayerChatPacket(PlayerChatPacket),
}

/// The message of the game-server protocol: one packet, or none.
#[derive(Clone, Debug)]
pub struct WorldPacket {
    pub packet: Option<Packet>,
}

impl Default for Ping {
    /// The empty ping.
    fn default() -> (p: Self)
        ensures
            p == (Ping {}),
    {
        Ping {}
    }
}

impl Default for PlayerInitPacket {
    /// The empty init packet.
    fn default() -> (p: Self)
        ensures
            p == (PlayerInitPacket {}),
    {
        PlayerInitPacket {}
    }
}

impl Default for PlayerInitReceivedPacket {
    /// The empty answer to an init packet.
    fn default() -> (p: Self)
        ensures
            p == (PlayerInitReceivedPacket {}),
    {
        PlayerInitReceivedPacket {}
    }
}

/// Whether `p` is a chat packet of no player with the message `message`.
pub open spec fn is_chat(p: WorldPacket, message: Seq<char>) -> bool {
    p.packet matches Some(Packet::PlayerChatPacket(c)) && c.player_id is None && c.message@ == message
}

/// Protocol messages which can be derived from a world message.
///
/// Any type that implements [`FromWorldPacket`] must also implement
/// [`IntoWorldPacket`], but a type that implements [`IntoWorldPacket`]
/// need not implement [`FromWorldPacket`], like [`String`].
pub trait FromWorldPacket<'p>: From<&'p WorldPacket> {
    /// The packet of this type that the world packet carries, if any.
    fn from_world_packet(packet: &'p WorldPacket) -> Option<&'p Self>;
}

/// Types which can be converted into a protocol message.
pub trait IntoWorldPacket: Into<WorldPacket> {
    /// The world packet that carries this message.
    fn into_world_packet(&self) -> WorldPacket;
}

impl IntoWorldPacket for Ping {
    fn into_world_packet(&self) -> (p: WorldPacket)
        ensures
            p == (WorldPacket { packet: Some(Packet::Ping(*self)) }),
    {
        WorldPacket { packet: Some(Packet::Ping(self.clone())) }
    }
}

impl From<Ping> for WorldPacket {
    fn from(ping: Ping) -> (p: WorldPacket)
        ensures
            p == (WorldPacket { packet: Some(Packet::Ping(ping)) }),
    {
        WorldPacket { packet: Some(Packet::Ping(ping)) }
    }
}

impl vstd::std_specs::convert::FromSpecImpl<Ping> for WorldPacket {
    open spec fn obeys_from_spec() -> bool {
        true
    }

    open spec fn from_spec(ping: Ping) -> WorldPacket {
        WorldPacket { packet: Some(Packet::Ping(ping)) }
    }
}

impl IntoWorldPacket for PlayerInitReceivedPacket {
    fn into_world_packet(&self) -> (p: WorldPacket)
        ensures
            p == (WorldPacket { packet: Some(Packet::PlayerInitReceived(*self)) }),
    {
        WorldPacket { packet: Some(Packet::PlayerInitReceived(self.clone())) }
    }
}

impl From<PlayerInitReceivedPacket> for WorldPacket {
    fn from(received: PlayerInitReceivedPacket) -> (p: WorldPacket)
        ensures
            p == (WorldPacket { packet: Some(Packet::PlayerInitReceived(received)) }),
    {
        WorldPacket { packet: Some(Packet::PlayerInitReceived(received)) }
    }
}

impl vstd::std_specs::convert::FromSpecImpl<PlayerInitReceivedPacket> for WorldPacket {
    open spec fn obeys_from_spec() -> bool {
        true
    }

    open spec fn from_spec(received: PlayerInitReceivedPacket) -> WorldPacket {
        WorldPacket { packet: Some(Packet::PlayerInitReceived(received)) }
    }
}

impl<'s> IntoWorldPacket for &'s str {
    /// A chat message of no player, with this text.
    fn into_world_packet(&self) -> (p: WorldPacket)
        ensures
            is_chat(p, (*self)@),
    {
        WorldPacket {
            packet: Some(Packet::PlayerChatPacket(PlayerChatPacket { player_id: None, message: String::from_str(*self) })),
        }
    }
}

impl<'s> From<&'s str> for WorldPacket {
    /// A chat message of no player, with this text.
    fn from(text: &'s str) -> (p: WorldPacket)
        ensures
            is_chat(p, text@),
    {
        WorldPacket {
            packet: Some(Packet::PlayerChatPacket(PlayerChatPacket { player_id: None, message: String::from_str(text) })),
        }
    }
}

impl<'s> vstd::std_specs::convert::FromSpecImpl<&'s str> for WorldPacket {
    // The chat packet holds a new `String`, which no spec function can make
    // from a `&str`: what `from` gives is stated on `from` itself.
    open spec fn obeys_from_spec() -> bool {
        false
    }

    open spec fn from_spec(text: &'s str) -> WorldPacket {
        WorldPacket { packet: None }
    }
}

impl IntoWorldPacket for String {
    /// A chat message of no player, with this text.
    fn into_world_packet(&self) -> (p: WorldPacket)
        ensures
            is_chat(p, self@),
    {
        WorldPacket { packet: Some(Packet::PlayerChatPacket(PlayerChatPacket { player_id: None, message: self.clone() })) }
    }
}

impl From<String> for WorldPacket {
    /// A chat message of no player, with this text.
    fn from(text: String) -> (p: WorldPacket)
        ensures
            p == (WorldPacket { packet: Some(Packet::PlayerChatPacket(PlayerChatPacket { player_id: None, message: text })) }),
    {
        WorldPacket { packet: Some(Packet::PlayerChatPacket(PlayerChatPacket { player_id: None, message: text })) }
    }
}

impl vstd::std_specs::convert::FromSpecImpl<String> for WorldPacket {
    open spec fn obeys_from_spec() -> bool {
        true
    }

    open spec fn from_spec(text: String) -> WorldPacket {
        WorldPacket { packet: Some(Packet::PlayerChatPacket(PlayerChatPacket { player_id: None, message: text })) }
    }
}

} // verus!
