//! The states of a PixelWalker client.
use vstd::prelude::*;

verus! {

/// A state of the PixelWalker client instance: [`Guest`](crate::client::Guest),
/// [`Lobby`](crate::client::Lobby) or [`Orbit`](crate::client::Orbit).
pub trait State {}

} // verus!
