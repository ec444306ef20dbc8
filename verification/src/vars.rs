//! Host names of the PixelWalker servers, as the environment configures
//! them.
use vstd::prelude::*;

verus! {

/// The host that a configured value names: the value without one trailing
/// slash, if it ends with one.
pub open spec fn trimmed_host(value: Seq<char>) -> Seq<char> {
    if value.len() > 0 && value.last() == '/' {
        value.drop_last()
    } else {
        value
    }
}

/// Drops one trailing slash from a configured host, if there is one.
pub fn trim_host(value: &str) -> (host: String)
    ensures
        host@ == trimmed_host(value@),
{
    let n = value.unicode_len();
    if n > 0 && value.get_char(n - 1) == '/' {
        String::from_str(value.substring_char(0, n - 1))
    } else {
        String::from_str(value)
    }
}

/// The API host where none is configured.
pub open spec fn default_api_host() -> Seq<char> {
    "https://api.pixelwalker.net"@
}

/// The game-server host where none is configured.
pub open spec fn default_game_host() -> Seq<char> {
    "wss://game.pixelwalker.net"@
}

/// The host that the variable `PIXELWALKER_API_HOST` (or its absence)
/// gives.
pub open spec fn api_host_of(var: Option<Seq<char>>) -> Seq<char> {
    match var {
        Some(v) => trimmed_host(v),
        None => default_api_host(),
    }
}

/// The host that the variable `PIXELWALKER_GAME_HOST` (or its absence)
/// gives.
pub open spec fn game_host_of(var: Option<Seq<char>>) -> Seq<char> {
    match var {
        Some(v) => trimmed_host(v),
        None => default_game_host(),
    }
}

/// The view of an optional string slice.
pub open spec fn opt_str_view(v: Option<&str>) -> Option<Seq<char>> {
    match v {
        Some(s) => Some(s@),
        None => None,
    }
}

/// The PixelWalker API host: the value of `PIXELWALKER_API_HOST` (`var`)
/// without a trailing slash, or `https://api.pixelwalker.net` where the
/// variable is not set.
pub fn api_host(var: Option<&str>) -> (host: String)
    ensures
        host@ == api_host_of(opt_str_view(var)),
{
    match var {
        Some(v) => trim_host(v),
        None => String::from_str("https://api.pixelwalker.net"),
    }
}

/// The PixelWalker game-server host: the value of `PIXELWALKER_GAME_HOST`
/// (`var`) without a trailing slash, or `wss://game.pixelwalker.net` where
/// the variable is not set.
pub fn game_host(var: Option<&str>) -> (host: String)
    ensures
        host@ == game_host_of(opt_str_view(var)),
{
    match var {
        Some(v) => trim_host(v),
        None => String::from_str("wss://game.pixelwalker.net"),
    }
}

/// The email and password to log in with, from the variables `AUTH_EMAIL`
/// and `AUTH_PASSWORD`; `None` unless both are set.
pub fn email_password(email: Option<&str>, password: Option<&str>) -> (r: Option<(String, String)>)
    ensures
        r is Some <==> (email is Some && password is Some),
        r matches Some(pair) ==> Some(pair.0@) == opt_str_view(email) && Some(pair.1@) == opt_str_view(password),
{
    match (email, password) {
        (Some(e), Some(p)) => Some((String::from_str(e), String::from_str(p))),
        _ => None,
    }
}

} // verus!

verus! {

/// The host can optionally end with a slash: configuring a host with a
/// trailing slash gives the same host as configuring it without, and a
/// host without one is used as it is; so for the API host and for the
/// game-server host alike.
pub proof fn law_trailing_slash_is_optional(host: Seq<char>)
    requires
        host.len() == 0 || host.last() != '/',
    ensures
        trimmed_host(host.push('/')) == host,
        trimmed_host(host) == host,
        api_host_of(Some(host.push('/'))) == host,
        api_host_of(Some(host)) == host,
        game_host_of(Some(host.push('/'))) == host,
        game_host_of(Some(host)) == host,
{
    assert(host.push('/').drop_last() =~= host);
}

} // verus!
