//! The API server's side of the kit: its collections, their records, and
//! the packets of the game server.
pub mod collection;
pub mod models;
pub mod packets;
pub mod paging;

pub use collection::PWCollectionQuery;
pub use models::{User, World};

use vstd::prelude::*;

verus! {

/// A record type that a PocketBase collection of the API server holds.
pub trait PWCollection {
    /// The name of the collection.
    const COLLECTION_NAME: &'static str;
}

} // verus!
