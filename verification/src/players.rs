//! The players of a world.
use std::collections::HashMap;
use vstd::prelude::*;

verus! {

/// The players of a world, by their id.
pub struct PlayerManager {
    map: HashMap<usize, Player>,
}

/// A player in a world.
pub struct Player {
    id: usize,
    username: String,
}

impl PlayerManager {
    /// The players known, by their id.
    pub closed spec fn players(&self) -> Map<usize, Player> {
        self.map@
    }

    /// The player with the id `index`, which must be known.
    pub fn index(&self, index: usize) -> (p: &Player)
        requires
            self.players().contains_key(index),
        ensures
            *p == self.players()[index],
    {
        broadcast use vstd::std_specs::hash::group_hash_axioms;
        self.map.get(&index).unwrap()
    }
}

impl Default for PlayerManager {
    /// No players.
    fn default() -> (m: Self)
        ensures
            m.players() == Map::<usize, Player>::empty(),
    {
        PlayerManager { map: HashMap::new() }
    }
}

impl Player {
    /// The player's id.
    pub closed spec fn spec_id(&self) -> usize {
        self.id
    }

    /// The player's name.
    pub closed spec fn name(&self) -> Seq<char> {
        self.username@
    }

    /// The player's id.
    pub fn id(&self) -> (id: usize)
        ensures
            id == self.spec_id(),
    {
        self.id
    }

    /// The player's name.
    pub fn username(&self) -> (name: &str)
        ensures
            name@ == self.name(),
    {
        self.username.as_str()
    }
}

impl Default for Player {
    /// The player with id 0 and an empty name.
    fn default() -> (p: Self)
        ensures
            p.spec_id() == 0,
            p.name() == Seq::<char>::empty(),
    {
        Player { id: 0, username: String::new() }
    }
}

} // verus!
