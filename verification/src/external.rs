//! The calls into other crates and into the parts of std that vstd gives
//! no specification. Each item here states what the called code does; its
//! body is taken on trust.
use base64::Engine;
use std::any::{Any, TypeId};
use std::collections::HashMap;
use vstd::prelude::*;

verus! {

// ---------------------------------------------------------------- base64

#[verifier::external_type_specification]
#[verifier::external_body]
pub struct ExDecodeError(base64::DecodeError);

/// The bytes that the text `input` stands for in base64 with the URL-safe
/// alphabet (`-` and `_`) and no padding, the encoding of JWT segments, as
/// `base64::engine::general_purpose::URL_SAFE_NO_PAD` decodes it; `None`
/// where that engine rejects the text.
pub uninterp spec fn base64_url_safe_no_pad(input: Seq<char>) -> Option<Seq<u8>>;

/// Decodes `input` with `base64`'s `URL_SAFE_NO_PAD` engine
/// (`Engine::decode`). The contract claims that the result is the one that
/// [`base64_url_safe_no_pad`] names: a function of the text alone, an error
/// exactly where it names none.
#[verifier::external_body]
pub(crate) fn decode_url_safe_no_pad(input: &str) -> (r: Result<Vec<u8>, base64::DecodeError>)
    ensures
        r is Ok <==> base64_url_safe_no_pad(input@) is Some,
        r matches Ok(bytes) ==> base64_url_safe_no_pad(input@) == Some(bytes@),
{
    base64::engine::general_purpose::URL_SAFE_NO_PAD.decode(input)
}

// ------------------------------------------------------------ serde_json

#[verifier::external_type_specification]
#[verifier::external_body]
pub struct ExJsonError(serde_json::Error);

/// What `serde_json` finds in the JSON text `document` under `key`: `None`
/// where `serde_json::from_slice` rejects the text as JSON; else
/// `Some(Some(s))` where the document is an object whose member `key` is the
/// string `s`, and `Some(None)` where it is not (no object, no such member,
/// or a member of another kind), as indexing a `serde_json::Value` by `key`
/// and `Value::as_str` tell.
pub uninterp spec fn json_string_member(document: Seq<u8>, key: Seq<char>) -> Option<Option<Seq<char>>>;

/// The view of an optional string.
pub open spec fn opt_string_view(s: Option<String>) -> Option<Seq<char>> {
    match s {
        Some(v) => Some(v@),
        None => None,
    }
}

/// Parses `document` with `serde_json::from_slice` into a
/// `serde_json::Value`, indexes it by `key` and reads the string there with
/// `Value::as_str`. The contract claims that the outcome is the one that
/// [`json_string_member`] names: an error exactly where the text is no JSON,
/// else the member's string where there is one.
#[verifier::external_body]
pub(crate) fn json_string_member_of(document: &[u8], key: &str) -> (r: Result<Option<String>, serde_json::Error>)
    ensures
        r is Ok <==> json_string_member(document@, key@) is Some,
        r matches Ok(found) ==> json_string_member(document@, key@) == Some(opt_string_view(found)),
{
    let value: serde_json::Value = serde_json::from_slice(document)?;
    Ok(value[key].as_str().map(|s| s.to_owned()))
}

// ------------------------------------------------------------------- url

#[verifier::external_type_specification]
#[verifier::external_body]
pub struct ExUrlParseError(url::ParseError);

/// How `url::Url` writes out the URL that it parses from `input`
/// (`Url::parse`, then `Url::as_str`); `None` where `Url::parse` rejects
/// the text.
pub uninterp spec fn url_serialization(input: Seq<char>) -> Option<Seq<char>>;

/// Parses `input` with `url::Url::parse` and writes the URL out with
/// `Url::as_str`. The contract claims that the outcome is the one that
/// [`url_serialization`] names: a function of the text alone, an error
/// exactly where it names none.
#[verifier::external_body]
pub(crate) fn parse_url(input: &str) -> (r: Result<String, url::ParseError>)
    ensures
        r is Ok <==> url_serialization(input@) is Some,
        r matches Ok(url) ==> url_serialization(input@) == Some(url@),
{
    url::Url::parse(input).map(|url| url.as_str().to_owned())
}

// ------------------------------------------------------------- std::any

#[verifier::external_type_specification]
#[verifier::external_body]
pub struct ExTypeId(TypeId);

/// `std::any::TypeId::of` for the two packet types that handlers are looked
/// up by: the identifier of [`Ping`](crate::api::packets::Ping), then the
/// one of [`PlayerInitPacket`](crate::api::packets::PlayerInitPacket). std
/// documents a `TypeId` as a globally unique identifier of its type, so the
/// two differ; which value stands for which type is the compiler's choice
/// and is not claimed.
#[verifier::external_body]
pub(crate) fn packet_type_ids() -> (r: (TypeId, TypeId))
    ensures
        r.0 != r.1,
{
    (TypeId::of::<crate::api::packets::Ping>(), TypeId::of::<crate::api::packets::PlayerInitPacket>())
}

/// A `std::collections::HashMap` from the `TypeId` of a type to one boxed
/// value of that type. a `dyn Any` value has no specification in vstd, so
/// the map is hidden here; its contents are named by [`stored_types`].
#[verifier::external_body]
pub struct TypeMap {
    map: HashMap<TypeId, Box<dyn Any + Send + Sync>>,
}

/// The type identifiers under which a [`TypeMap`] holds a value.
pub uninterp spec fn stored_types(m: TypeMap) -> Set<TypeId>;

/// An empty map (`HashMap::new`): it holds no value.
#[verifier::external_body]
pub(crate) fn type_map_new() -> (m: TypeMap)
    ensures
        stored_types(m) == Set::<TypeId>::empty(),
{
    TypeMap { map: HashMap::new() }
}

/// `HashMap::insert` of the boxed `value` under `TypeId::of::<T>()`, which
/// it returns; the map then holds a value under that identifier, and under
/// the others what it held before.
#[verifier::external_body]
pub(crate) fn type_map_insert<T: Send + Sync + 'static>(m: &mut TypeMap, value: T) -> (key: TypeId)
    ensures
        stored_types(*final(m)) == stored_types(*old(m)).insert(key),
{
    let key = TypeId::of::<T>();
    // The boxed value is written through the map's slot, which the entry
    // API hands out, rather than passed to `insert`.
    let slot = m.map.entry(key).or_insert_with(|| Box::new(()));
    *slot = Box::new(value);
    key
}

/// `HashMap::remove` under `TypeId::of::<T>()` (returned as the first
/// component), with the value, which has type `T`, taken out of its box by
/// `Box::<dyn Any>::downcast`. A value comes back exactly where the map held
/// one under that identifier; afterwards it holds none there.
#[verifier::external_body]
pub(crate) fn type_map_remove<T: Send + Sync + 'static>(m: &mut TypeMap) -> (r: (TypeId, Option<T>))
    ensures
        stored_types(*final(m)) == stored_types(*old(m)).remove(r.0),
        r.1 is Some <==> stored_types(*old(m)).contains(r.0),
{
    let key = TypeId::of::<T>();
    (key, m.map.remove(&key).and_then(|boxed| boxed.downcast::<T>().ok()).map(|b| *b))
}

/// `HashMap::get` under `TypeId::of::<T>()` (returned as the first
/// component), with the value seen as a `T` by `downcast_ref`. A value comes
/// back exactly where the map holds one under that identifier.
#[verifier::external_body]
pub(crate) fn type_map_get<T: Send + Sync + 'static>(m: &TypeMap) -> (r: (TypeId, Option<&T>))
    ensures
        r.1 is Some <==> stored_types(*m).contains(r.0),
{
    let key = TypeId::of::<T>();
    (key, m.map.get(&key).and_then(|boxed| boxed.downcast_ref::<T>()))
}

/// `HashMap::get_mut` under `TypeId::of::<T>()` (returned as the first
/// component), with the value seen as a `T` by `downcast_mut`. A value comes
/// back exactly where the map holds one under that identifier; the
/// identifiers held do not change.
#[verifier::external_body]
pub(crate) fn type_map_get_mut<T: Send + Sync + 'static>(m: &mut TypeMap) -> (r: (TypeId, Option<&mut T>))
    ensures
        r.1 is Some <==> stored_types(*old(m)).contains(r.0),
        stored_types(*final(m)) == stored_types(*old(m)),
{
    let key = TypeId::of::<T>();
    (key, m.map.get_mut(&key).and_then(|boxed| boxed.downcast_mut::<T>()))
}

/// `HashMap::contains_key` under `TypeId::of::<T>()`, which it returns as
/// the first component.
#[verifier::external_body]
pub(crate) fn type_map_contains<T: Send + Sync + 'static>(m: &TypeMap) -> (r: (TypeId, bool))
    ensures
        r.1 == stored_types(*m).contains(r.0),
{
    let key = TypeId::of::<T>();
    (key, m.map.contains_key(&key))
}

} // verus!
