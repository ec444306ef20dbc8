//! The PixelWalker client: its states, what it knows of its login, and the
//! requests that it makes.
mod guest;
mod lobby;
mod orbit;
pub mod resource;

pub use guest::Guest;
pub use lobby::{socket_url, socket_url_of, Lobby, SocketUrlError};
pub use orbit::{packet_type_id, packet_type_id_among, Orbit};
pub use resource::{FromResources, Res, Resources};

use crate::external::{
    base64_url_safe_no_pad, decode_url_safe_no_pad, json_string_member, json_string_member_of,
    opt_string_view,
};
use crate::state::State;
use crate::text::{free_of, law_second_segment_of_three, nth_segment, second_segment};
use std::any::TypeId;
use vstd::prelude::*;

verus! {

/// A PixelWalker client instance in the state `S`.
///
/// It holds what the client's requests are made from: the address of the
/// API server, the token of its login (in the states after logging in), and
/// the values registered for its handlers.
pub struct Client<S: State> {
    base_url: String,
    auth_token: Option<String>,
    resources: Resources,
    state: S,
}

impl<S: State> Client<S> {
    /// The address of the API server.
    pub closed spec fn api_url(&self) -> Seq<char> {
        self.base_url@
    }

    /// The token of the login, if logged in.
    pub closed spec fn token(&self) -> Option<Seq<char>> {
        opt_string_view(self.auth_token)
    }

    /// The values registered for the handlers.
    pub closed spec fn resource_store(&self) -> Resources {
        self.resources
    }

    /// The types of the values registered for the handlers.
    pub closed spec fn resource_types(&self) -> Set<TypeId> {
        self.resources.types()
    }

    /// The address of the API server.
    pub fn base_url(&self) -> (url: &str)
        ensures
            url@ == self.api_url(),
    {
        self.base_url.as_str()
    }

    /// The token of the login, if logged in.
    pub fn auth_token(&self) -> (token: Option<&str>)
        ensures
            crate::vars::opt_str_view(token) == self.token(),
    {
        match &self.auth_token {
            Some(t) => Some(t.as_str()),
            None => None,
        }
    }

    /// The values registered for the handlers.
    pub fn resources(&self) -> (r: &Resources)
        ensures
            *r == self.resource_store(),
            r.types() == self.resource_types(),
    {
        &self.resources
    }

    /// The text that `{:?}` shows of a client: `Client { .. }`, which leaves
    /// out the fields so that no token reaches the console.
    pub fn debug_string(&self) -> (s: String)
        ensures
            s@ == "Client { .. }"@,
    {
        String::from_str("Client { .. }")
    }
}

/// Why the record id of a login could not be read off its token.
#[derive(Clone, Copy, Debug, PartialEq, Eq, Structural)]
pub enum AuthIdError {
    /// The client holds no token.
    MissingToken,
    /// The token has no second `.`-separated segment (the payload).
    MissingPayload,
    /// The payload is no base64 (URL-safe alphabet, no padding).
    InvalidBase64,
    /// The decoded payload is no JSON.
    CorruptedToken,
    /// The payload has no string member `id`.
    MissingId,
}

/// The id of the authenticated record that a login token carries: the
/// token is a JWT, whose second `.`-separated segment is its payload,
/// encoded in URL-safe base64 without padding; the payload is a JSON
/// object whose member `id` is the record id.
pub open spec fn auth_id_of(token: Option<Seq<char>>) -> Result<Seq<char>, AuthIdError> {
    match token {
        None => Err(AuthIdError::MissingToken),
        Some(t) => match nth_segment(t, '.', 1) {
            None => Err(AuthIdError::MissingPayload),
            Some(payload) => match base64_url_safe_no_pad(payload) {
                None => Err(AuthIdError::InvalidBase64),
                Some(bytes) => id_of_member(json_string_member(bytes, "id"@)),
            },
        },
    }
}

/// The record id that the payload's member `id` gives, from what the JSON
/// reading found (see [`json_string_member`]): no JSON is a corrupted
/// token, no string member `id` is a missing id.
pub open spec fn id_of_member(found: Option<Option<Seq<char>>>) -> Result<Seq<char>, AuthIdError> {
    match found {
        None => Err(AuthIdError::CorruptedToken),
        Some(None) => Err(AuthIdError::MissingId),
        Some(Some(id)) => Ok(id),
    }
}

/// What a JSON reading's outcome says, by the views of its strings: `None`
/// for an error.
pub open spec fn member_view(member: Result<Option<String>, serde_json::Error>) -> Option<Option<Seq<char>>> {
    match member {
        Ok(found) => Some(opt_string_view(found)),
        Err(_) => None,
    }
}

/// The record id, or why there is none, from the outcome of reading the
/// string member `id` of the decoded payload as JSON.
pub fn auth_id_from_member(member: Result<Option<String>, serde_json::Error>) -> (r: Result<String, AuthIdError>)
    ensures
        match r {
            Ok(id) => id_of_member(member_view(member)) == Ok::<Seq<char>, AuthIdError>(id@),
            Err(e) => id_of_member(member_view(member)) == Err::<Seq<char>, AuthIdError>(e),
        },
{
    match member {
        Err(_) => Err(AuthIdError::CorruptedToken),
        Ok(None) => Err(AuthIdError::MissingId),
        Ok(Some(id)) => Ok(id),
    }
}

/// Reads the id of the authenticated record off the login token
/// `auth_token`, or says why it cannot.
pub fn decode_auth_id(auth_token: &Option<String>) -> (r: Result<String, AuthIdError>)
    ensures
        match r {
            Ok(id) => auth_id_of(opt_string_view(*auth_token)) == Ok::<Seq<char>, AuthIdError>(id@),
            Err(e) => auth_id_of(opt_string_view(*auth_token)) == Err::<Seq<char>, AuthIdError>(e),
        },
{
    let token = match auth_token {
        Some(t) => t,
        None => return Err(AuthIdError::MissingToken),
    };
    let payload = match second_segment(token.as_str(), '.') {
        Some(p) => p,
        None => return Err(AuthIdError::MissingPayload),
    };
    let bytes = match decode_url_safe_no_pad(payload.as_str()) {
        Ok(b) => b,
        Err(_) => return Err(AuthIdError::InvalidBase64),
    };
    auth_id_from_member(json_string_member_of(bytes.as_slice(), "id"))
}

/// Utility function to get the id of the authenticated record by decoding
/// the JWT data of the login token and getting the `id` field.
pub fn get_pocketbase_auth_id(auth_token: &Option<String>) -> (id: String)
    requires
        auth_id_of(opt_string_view(*auth_token)) is Ok,
    ensures
        auth_id_of(opt_string_view(*auth_token)) == Ok::<Seq<char>, AuthIdError>(id@),
{
    match decode_auth_id(auth_token) {
        Ok(id) => id,
        Err(_) => {
            assert(false);
            String::new()
        },
    }
}

/// The record id of a login token `header.payload.signature` (three parts
/// without dots) is read off its payload alone: the payload's bytes in
/// base64, and the member `id` of the JSON object that they spell.
pub proof fn law_auth_id_reads_payload(header: Seq<char>, payload: Seq<char>, signature: Seq<char>)
    requires
        free_of(header, '.'),
        free_of(payload, '.'),
        free_of(signature, '.'),
    ensures
        auth_id_of(Some(header + seq!['.'] + payload + seq!['.'] + signature)) == match base64_url_safe_no_pad(payload) {
            None => Err(AuthIdError::InvalidBase64),
            Some(bytes) => id_of_member(json_string_member(bytes, "id"@)),
        },
{
    law_second_segment_of_three(header, payload, signature);
}

} // verus!
