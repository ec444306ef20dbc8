//! The rules of the `#[handler]` attribute: which functions it accepts as
//! packet handlers, and how it calls them.
use vstd::prelude::*;

verus! {

/// A parameter of a function that `#[handler]` is put on.
#[derive(Clone, Debug)]
pub enum HandlerParam {
    /// `self`, in any form.
    Receiver,
    /// A parameter whose pattern is a plain identifier, with that name.
    Ident(String),
    /// A parameter with any other pattern.
    Other,
}

/// What `#[handler]` reads of the function it is put on.
#[derive(Clone, Debug)]
pub struct HandlerSignature {
    /// The function's name.
    pub name: String,
    /// Whether the function is `async`.
    pub is_async: bool,
    /// The function's parameters, in order.
    pub params: Vec<HandlerParam>,
}

/// How a handler is called: the user's function is renamed to
/// `inner_name`, and called with the packet (where it takes one) and the
/// channel; its result is awaited where the function is `async`.
#[derive(Clone, Debug)]
pub struct HandlerShape {
    /// Whether the call of the user's function is awaited.
    pub awaited: bool,
    /// The new name of the user's function: its name after `__`.
    pub inner_name: String,
    /// The parameter that receives the packet, where there is one.
    pub packet: Option<String>,
    /// The parameter that receives the channel.
    pub channel: String,
}

/// Why `#[handler]` refuses a function.
#[derive(Clone, Copy, Debug, PartialEq, Eq, Structural)]
pub enum HandlerError {
    /// The parameter at `index` is `self`.
    TakesSelf { index: usize },
    /// The parameter at `index` is no plain identifier.
    NotSimpleIdent { index: usize },
    /// The function takes neither one nor two parameters.
    WrongArity,
}

/// Whether the parameters before `n` are all plain identifiers.
pub open spec fn idents_before(params: Seq<HandlerParam>, n: int) -> bool {
    forall|j: int| 0 <= j < n ==> #[trigger] params[j] is Ident
}

/// The name of a plain-identifier parameter.
pub open spec fn param_name(p: HandlerParam) -> Seq<char> {
    match p {
        HandlerParam::Ident(name) => name@,
        _ => Seq::empty(),
    }
}

/// The error message that `#[handler]` reports.
pub open spec fn error_message(e: HandlerError) -> Seq<char> {
    match e {
        HandlerError::TakesSelf { .. } => "#[handler] functions cannot take `self`"@,
        HandlerError::NotSimpleIdent { .. } => "#[handler] parameters must be simple identifiers"@,
        HandlerError::WrongArity => "#[handler] expects `(channel)` or `(packet, channel)`"@,
    }
}

impl HandlerError {
    /// The error message that `#[handler]` reports.
    pub fn message(&self) -> (m: String)
        ensures
            m@ == error_message(*self),
    {
        match self {
            HandlerError::TakesSelf { .. } => String::from_str("#[handler] functions cannot take `self`"),
            HandlerError::NotSimpleIdent { .. } => String::from_str("#[handler] parameters must be simple identifiers"),
            HandlerError::WrongArity => String::from_str("#[handler] expects `(channel)` or `(packet, channel)`"),
        }
    }
}

/// Checks a function for `#[handler]` and says how to call it. The
/// function may be `async` or not; its call is awaited where it is. Each
/// parameter, from the first, must be a plain identifier (the first that is
/// not is reported); and there must be one parameter (the channel) or two
/// (the packet, then the channel).
pub fn handler_shape(sig: &HandlerSignature) -> (r: Result<HandlerShape, HandlerError>)
    ensures
        match r {
            Err(HandlerError::TakesSelf { index }) => index < sig.params@.len()
                && sig.params@[index as int] is Receiver && idents_before(sig.params@, index as int),
            Err(HandlerError::NotSimpleIdent { index }) => index < sig.params@.len()
                && sig.params@[index as int] is Other && idents_before(sig.params@, index as int),
            Err(HandlerError::WrongArity) => idents_before(sig.params@, sig.params@.len() as int)
                && sig.params@.len() != 1 && sig.params@.len() != 2,
            Ok(shape) => {
                &&& idents_before(sig.params@, sig.params@.len() as int)
                &&& shape.awaited == sig.is_async
                &&& shape.inner_name@ == "__"@ + sig.name@
                &&& sig.params@.len() == 1 ==> shape.packet is None && shape.channel@ == param_name(sig.params@[0])
                &&& sig.params@.len() == 2 ==> (shape.packet matches Some(p) && p@ == param_name(sig.params@[0])
                    && shape.channel@ == param_name(sig.params@[1]))
                &&& sig.params@.len() == 1 || sig.params@.len() == 2
            },
        },
{
    let n = sig.params.len();
    let mut i: usize = 0;
    while i < n
        invariant
            n == sig.params@.len(),
            i <= n,
            idents_before(sig.params@, i as int),
        decreases n - i,
    {
        match &sig.params[i] {
            HandlerParam::Receiver => return Err(HandlerError::TakesSelf { index: i }),
            HandlerParam::Other => return Err(HandlerError::NotSimpleIdent { index: i }),
            HandlerParam::Ident(_) => {},
        }
        i = i + 1;
    }
    let mut inner_name = String::from_str("__");
    inner_name.append(sig.name.as_str());
    if n == 1 {
        let channel = ident_name(&sig.params[0]);
        Ok(HandlerShape { awaited: sig.is_async, inner_name, packet: None, channel })
    } else if n == 2 {
        let packet = ident_name(&sig.params[0]);
        let channel = ident_name(&sig.params[1]);
        Ok(HandlerShape { awaited: sig.is_async, inner_name, packet: Some(packet), channel })
    } else {
        Err(HandlerError::WrongArity)
    }
}

/// The name of a plain-identifier parameter.
fn ident_name(p: &HandlerParam) -> (name: String)
    requires
        *p is Ident,
    ensures
        name@ == param_name(*p),
{
    match p {
        HandlerParam::Ident(name) => name.clone(),
        _ => String::new(),
    }
}

} // verus!
