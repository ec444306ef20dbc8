//! The lobby state: logged in, not in a world.
use super::{auth_id_of, decode_auth_id, get_pocketbase_auth_id, AuthIdError, Client, Orbit};
use crate::api::collection::PWCollectionQuery;
use crate::api::PWCollection;
use crate::external::{opt_string_view, parse_url, url_serialization};
use crate::join_key::JoinKey;
use crate::state::State;
use vstd::prelude::*;

verus! {

/// The logged-in lobby state. The client has logged in and sees the lobby
/// now. It can join a world as a logged-in user and query the API
/// server's collections.
pub struct Lobby;

impl State for Lobby {}

impl Client<Lobby> {
    /// Decodes the identifier of the logged in user record. In other words,
    /// when you log in into the user account `x`, this is the id of `x`.
    pub fn auth_id(&self) -> (id: String)
        requires
            auth_id_of(self.token()) is Ok,
        ensures
            auth_id_of(self.token()) == Ok::<Seq<char>, AuthIdError>(id@),
    {
        get_pocketbase_auth_id(&self.auth_token)
    }

    /// The identifier of the logged in user record, where the login token
    /// carries one; else why it does not.
    pub fn try_auth_id(&self) -> (r: Result<String, AuthIdError>)
        ensures
            match r {
                Ok(id) => auth_id_of(self.token()) == Ok::<Seq<char>, AuthIdError>(id@),
                Err(e) => auth_id_of(self.token()) == Err::<Seq<char>, AuthIdError>(e),
            },
    {
        match decode_auth_id(&self.auth_token) {
            Ok(_) => Ok(self.auth_id()),
            Err(e) => Err(e),
        }
    }

    /// Reading the record id off a client's own login token with
    /// [`get_pocketbase_auth_id`] and asking the client with
    /// [`auth_id`](Client::auth_id) are one: either call's `requires` holds
    /// exactly when the other's does (outside it, both would panic on the
    /// same token), and where they return they give the same id.
    pub proof fn law_auth_id_agrees_with_token_reading(&self, auth_token: Option<String>, read: String, asked: String)
        requires
            opt_string_view(auth_token) == self.token(),
        ensures
            (auth_id_of(opt_string_view(auth_token)) is Ok) == (auth_id_of(self.token()) is Ok),
            auth_id_of(opt_string_view(auth_token)) == Ok::<Seq<char>, AuthIdError>(read@)
                && auth_id_of(self.token()) == Ok::<Seq<char>, AuthIdError>(asked@) ==> read@ == asked@,
    {
    }

    /// Creates a new collection query builder for the collection of `T`,
    /// with no sort order yet.
    pub fn collection<'a, T: PWCollection>(&'a self) -> (q: PWCollectionQuery<'a, T>)
        ensures
            q.sort_options() == Seq::<Seq<char>>::empty(),
            q.client() == self,
    {
        PWCollectionQuery::new(self)
    }

    /// The address from which the join key of the world `world_id` is
    /// fetched: `{host}/api/joinkey/pixelwalker/{world_id}`. (The room type
    /// is the constant `pixelwalker`; the room id is the world's record id.)
    pub fn join_key_endpoint(&self, world_id: &str) -> (url: String)
        ensures
            url@ == self.api_url() + "/api/joinkey/pixelwalker/"@ + world_id@,
    {
        let mut url = self.base_url.clone();
        url.append("/api/joinkey/pixelwalker/");
        url.append(world_id);
        url
    }

    /// The value of the `Authorization` header of the join-key request:
    /// `Bearer {token}` where the client holds a token, none else.
    pub fn authorization(&self) -> (header: Option<String>)
        ensures
            match self.token() {
                Some(t) => header is Some && header->0@ == "Bearer "@ + t,
                None => header is None,
            },
    {
        match &self.auth_token {
            Some(token) => {
                let mut header = String::from_str("Bearer ");
                header.append(token.as_str());
                Some(header)
            },
            None => None,
        }
    }

    /// The client after it connected to a world: it keeps its login and its
    /// resources.
    pub fn into_orbit(self) -> (c: Client<Orbit>)
        ensures
            c.api_url() == self.api_url(),
            c.token() == self.token(),
            c.resource_store() == self.resource_store(),
    {
        Client { base_url: self.base_url, auth_token: self.auth_token, resources: self.resources, state: Orbit }
    }
}

/// The address of the game server's websocket for a join key, before it is
/// parsed: `{game_host}/ws?joinKey={token}`.
pub fn socket_url_of(game_host: &str, join_key: &JoinKey) -> (url: String)
    ensures
        url@ == game_host@ + "/ws?joinKey="@ + join_key.token@,
{
    let mut url = String::from_str(game_host);
    url.append("/ws?joinKey=");
    url.append(join_key.token.as_str());
    url
}

/// Why the websocket address could not be made.
#[derive(Clone, Copy, Debug, PartialEq, Eq, Structural)]
pub enum SocketUrlError {
    /// The address is no URL.
    InvalidUrl,
}

/// The websocket address to connect to with a join key: the address of
/// [`socket_url_of`] as `url::Url` parses and writes it out, or an error
/// where it is no URL.
pub fn socket_url(game_host: &str, join_key: &JoinKey) -> (r: Result<String, SocketUrlError>)
    ensures
        match r {
            Ok(url) => url_serialization(game_host@ + "/ws?joinKey="@ + join_key.token@) == Some(url@),
            Err(_) => url_serialization(game_host@ + "/ws?joinKey="@ + join_key.token@) is None,
        },
{
    let raw = socket_url_of(game_host, join_key);
    match parse_url(raw.as_str()) {
        Ok(url) => Ok(url),
        Err(_) => Err(SocketUrlError::InvalidUrl),
    }
}

} // verus!
