//! A client kit for the PixelWalker game: the states, rules and formats of
//! its API-server and game-server conversations, with their contracts.
use vstd::prelude::*;

pub mod api;
pub mod client;
pub mod connection;
pub mod external;
pub mod handler;
pub mod join_key;
pub mod players;
pub mod prelude;
pub mod state;
pub mod text;
pub mod vars;

pub use client::Client;
pub use join_key::JoinKey;
