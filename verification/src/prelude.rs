//! The imports that a bot needs, in one place:
//!
//! ```text
//! use pixelwalker::prelude::*;
//! ```
pub use crate::api::packets::{
    FromWorldPacket, IntoWorldPacket, Packet, Ping, PlayerChatPacket, PlayerInitPacket, PlayerInitReceivedPacket,
    WorldPacket,
};
pub use crate::client::{Client, FromResources, Res, Resources};
pub use crate::handler::{handler_shape, HandlerSignature};
