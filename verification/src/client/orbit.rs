//! The orbit state: logged in and in a world.
use super::Client;
use crate::api::packets::{Packet, WorldPacket};
use crate::external::packet_type_ids;
use crate::state::State;
use std::any::TypeId;
use vstd::prelude::*;

verus! {

/// The logged-in game state. The client has logged in and entered a world.
pub struct Orbit;

impl State for Orbit {}

/// The identifier, among `ping` (the one of [`Ping`](crate::api::packets::Ping)) and `player_init`
/// (the one of [`PlayerInitPacket`](crate::api::packets::PlayerInitPacket)), of the packet that a world packet
/// carries; `None` for other packets and for an empty world packet.
pub fn packet_type_id_among(world_packet: &WorldPacket, ping: TypeId, player_init: TypeId) -> (r: Option<TypeId>)
    ensures
        r == match world_packet.packet {
            Some(Packet::Ping(_)) => Some(ping),
            Some(Packet::PlayerInitPacket(_)) => Some(player_init),
            _ => None::<TypeId>,
        },
{
    if let Some(packet) = &world_packet.packet {
        let type_id = match packet {
            Packet::Ping(_) => ping,
            Packet::PlayerInitPacket(_) => player_init,
            _ => return None,
        };
        Some(type_id)
    } else {
        None
    }
}

/// The type of the packet in a world packet, for the packets that handlers
/// are looked up by: `TypeId::of::<Ping>()` for a [`Ping`](crate::api::packets::Ping),
/// `TypeId::of::<PlayerInitPacket>()` for a [`PlayerInitPacket`](crate::api::packets::PlayerInitPacket); `None` for
/// others and for an empty world packet. The identifiers are handed to
/// [`packet_type_id_among`], whose contract says which comes back; the two
/// differ, so the two packet kinds never share an identifier.
pub fn packet_type_id(world_packet: &WorldPacket) -> (r: Option<TypeId>)
    ensures
        exists|ping: TypeId, player_init: TypeId|
            ping != player_init && r == match world_packet.packet {
                Some(Packet::Ping(_)) => Some(ping),
                Some(Packet::PlayerInitPacket(_)) => Some(player_init),
                _ => None::<TypeId>,
            },
{
    let (ping, player_init) = packet_type_ids();
    packet_type_id_among(world_packet, ping, player_init)
}

} // verus!
