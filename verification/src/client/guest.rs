//! The guest state: not logged in.
use super::{Client, Lobby, Resources};
use crate::state::State;
use crate::vars::{api_host, api_host_of, opt_str_view};
use std::any::TypeId;
use vstd::prelude::*;

verus! {

/// The guest state, and the initial state. The client is not logged in and
/// not in the lobby. From this state you can either log in or join the
/// world as guest.
pub struct Guest;

impl State for Guest {}

impl Client<Guest> {
    /// Creates a new PixelWalker instance, initially not logged in and with
    /// the powers of a guest user. Its API server is the one that the
    /// variable `PIXELWALKER_API_HOST` names (`api_host_var`, `None` where
    /// it is not set): see [`api_host`](crate::vars::api_host).
    pub fn new(api_host_var: Option<&str>) -> (c: Client<Guest>)
        ensures
            c.api_url() == api_host_of(opt_str_view(api_host_var)),
            c.token() is None,
            c.resource_types() == Set::<TypeId>::empty(),
    {
        Client { base_url: api_host(api_host_var), auth_token: None, resources: Resources::new(), state: Guest }
    }

    /// The client after a successful login, which gave the token
    /// `auth_token`: a new client of the lobby state that talks to the same
    /// server, with no resources registered yet. The guest client stays as
    /// it is.
    pub fn logged_in(&self, auth_token: String) -> (c: Client<Lobby>)
        ensures
            c.api_url() == self.api_url(),
            c.token() == Some(auth_token@),
            c.resource_types() == Set::<TypeId>::empty(),
    {
        Client { base_url: self.base_url.clone(), auth_token: Some(auth_token), resources: Resources::new(), state: Lobby }
    }
}

} // verus!
