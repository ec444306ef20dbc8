use pixelwalker::handler::{handler_shape, HandlerError, HandlerParam, HandlerSignature};

fn sig(is_async: bool, params: Vec<HandlerParam>) -> HandlerSignature {
    HandlerSignature { name: "handle_ping".to_string(), is_async, params }
}

fn ident(s: &str) -> HandlerParam {
    HandlerParam::Ident(s.to_string())
}

#[test]
fn one_parameter_is_the_channel() {
    let shape = handler_shape(&sig(true, vec![ident("channel")])).unwrap();
    assert_eq!(shape.inner_name, "__handle_ping");
    assert_eq!(shape.packet, None);
    assert_eq!(shape.channel, "channel");
}

#[test]
fn async_handlers_are_awaited() {
    assert!(handler_shape(&sig(true, vec![ident("channel")])).unwrap().awaited);
}

#[test]
fn plain_handlers_are_accepted_and_not_awaited() {
    // `pub fn handle_ping(ping: &Ping, channel: Channel) { channel.send(ping); }`
    let shape = handler_shape(&sig(false, vec![ident("ping"), ident("channel")])).unwrap();
    assert!(!shape.awaited);
    assert_eq!(shape.inner_name, "__handle_ping");
    assert_eq!(shape.packet, Some("ping".to_string()));
    assert_eq!(shape.channel, "channel");
}

#[test]
fn two_parameters_are_packet_and_channel() {
    let shape = handler_shape(&sig(true, vec![ident("ping"), ident("channel")])).unwrap();
    assert_eq!(shape.packet, Some("ping".to_string()));
    assert_eq!(shape.channel, "channel");
}

#[test]
fn refusals_in_order() {
    let e = handler_shape(&sig(false, vec![HandlerParam::Receiver])).unwrap_err();
    assert_eq!(e, HandlerError::TakesSelf { index: 0 });
    let e = handler_shape(&sig(true, vec![ident("a"), HandlerParam::Receiver, HandlerParam::Other])).unwrap_err();
    assert_eq!(e, HandlerError::TakesSelf { index: 1 });
    assert_eq!(e.message(), "#[handler] functions cannot take `self`");
    let e = handler_shape(&sig(true, vec![HandlerParam::Other, HandlerParam::Receiver])).unwrap_err();
    assert_eq!(e, HandlerError::NotSimpleIdent { index: 0 });
    assert_eq!(e.message(), "#[handler] parameters must be simple identifiers");
    let e = handler_shape(&sig(true, vec![])).unwrap_err();
    assert_eq!(e, HandlerError::WrongArity);
    assert_eq!(e.message(), "#[handler] expects `(channel)` or `(packet, channel)`");
    let e = handler_shape(&sig(true, vec![ident("a"), ident("b"), ident("c")])).unwrap_err();
    assert_eq!(e, HandlerError::WrongArity);
}
