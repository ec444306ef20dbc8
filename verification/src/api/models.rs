//! The records of the API server's collections.
use super::PWCollection;
use vstd::prelude::*;

verus! {

/// A record of the `users` collection.
#[derive(Clone, Debug)]
pub struct User {
    pub aura: String,
    pub bonus_energy: isize,
    pub created: String,
    pub energy_time: String,
    pub id: String,
    pub library_creator_points: isize,
    pub library_stars: isize,
    pub library_trophies: isize,
    pub max_energy: isize,
    pub role: String,
    pub smiley: String,
    pub updated: String,
    pub username: String,
}

impl PWCollection for User {
    const COLLECTION_NAME: &'static str = "users";
}

impl Default for User {
    /// A user with empty texts and zero counts.
    fn default() -> (u: Self)
        ensures
            u.aura@ == Seq::<char>::empty(),
            u.bonus_energy == 0,
            u.created@ == Seq::<char>::empty(),
            u.energy_time@ == Seq::<char>::empty(),
            u.id@ == Seq::<char>::empty(),
            u.library_creator_points == 0,
            u.library_stars == 0,
            u.library_trophies == 0,
            u.max_energy == 0,
            u.role@ == Seq::<char>::empty(),
            u.smiley@ == Seq::<char>::empty(),
            u.updated@ == Seq::<char>::empty(),
            u.username@ == Seq::<char>::empty(),
    {
        User {
            aura: String::new(),
            bonus_energy: 0,
            created: String::new(),
            energy_time: String::new(),
            id: String::new(),
            library_creator_points: 0,
            library_stars: 0,
            library_trophies: 0,
            max_energy: 0,
            role: String::new(),
            smiley: String::new(),
            updated: String::new(),
            username: String::new(),
        }
    }
}

/// A record of the `worlds` collection.
#[derive(Clone, Debug)]
pub struct World {
    pub created: String,
    pub description: String,
    pub id: String,
    pub max_players: usize,
    pub owner: String,
    pub plays: usize,
    pub published_world: String,
    pub title: String,
    pub updated: String,
    pub visibility: String,
    pub woots: usize,
    pub world_data: String,
}

impl PWCollection for World {
    const COLLECTION_NAME: &'static str = "worlds";
}

impl Default for World {
    /// A world with empty texts and zero counts.
    fn default() -> (w: Self)
        ensures
            w.created@ == Seq::<char>::empty(),
            w.description@ == Seq::<char>::empty(),
            w.id@ == Seq::<char>::empty(),
            w.max_players == 0,
            w.owner@ == Seq::<char>::empty(),
            w.plays == 0,
            w.published_world@ == Seq::<char>::empty(),
            w.title@ == Seq::<char>::empty(),
            w.updated@ == Seq::<char>::empty(),
            w.visibility@ == Seq::<char>::empty(),
            w.woots == 0,
            w.world_data@ == Seq::<char>::empty(),
    {
        World {
            created: String::new(),
            description: String::new(),
            id: String::new(),
            max_players: 0,
            owner: String::new(),
            plays: 0,
            published_world: String::new(),
            title: String::new(),
            updated: String::new(),
            visibility: String::new(),
            woots: 0,
            world_data: String::new(),
        }
    }
}

} // verus!
