//! The token with which a client joins a world.
use vstd::prelude::*;

verus! {

/// Retrievable token for joining a PixelWalker world. The API server
/// provides this token and the game server uses it to verify the player
/// authentication and world id.
///
/// ```https
/// GET https://api.pixelwalker.net/api/joinkey/ROOM_TYPE/ROOM_ID
/// ```
///
/// The variable `ROOM_TYPE` is the constant `pixelwalker`, and `ROOM_ID` is
/// the PocketBase world record ID.
#[derive(Clone, Eq)]
pub struct JoinKey {
    pub token: String,
}

impl PartialEq for JoinKey {
    /// Two join keys are equal when their tokens are.
    fn eq(&self, other: &Self) -> (r: bool) {
        self.token == other.token
    }
}

impl vstd::std_specs::cmp::PartialEqSpecImpl for JoinKey {
    open spec fn obeys_eq_spec() -> bool {
        true
    }

    open spec fn eq_spec(&self, other: &Self) -> bool {
        self.token@ == other.token@
    }
}

impl Default for JoinKey {
    /// The join key with an empty token.
    fn default() -> (k: Self)
        ensures
            k.token@ == Seq::<char>::empty(),
    {
        JoinKey { token: String::new() }
    }
}

impl JoinKey {
    /// The text that `{:?}` shows of a join key: `JoinKey { .. }`. It is a
    /// non-exhaustive print, so that the access token does not leak to the
    /// console.
    pub fn debug_string(&self) -> (s: String)
        ensures
            s@ == "JoinKey { .. }"@,
    {
        String::from_str("JoinKey { .. }")
    }
}

} // verus!
