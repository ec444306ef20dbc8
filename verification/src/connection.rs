//! The decisions of the connection to the game server: what the client does
//! with each thing that happens on its websocket.
use vstd::prelude::*;

verus! {

/// What can happen while the client listens on its websocket.
#[derive(Clone, Copy, Debug, PartialEq, Eq, Structural)]
pub enum ChannelEvent {
    /// The user interrupted the program (Ctrl-C).
    Interrupted,
    /// The websocket has no more messages.
    Ended,
    /// Reading the next message failed.
    ReceiveFailed,
    /// A text message came.
    Text,
    /// A binary message came: a world packet.
    Binary,
    /// The server closed the connection, with a close frame or without.
    Closed { with_frame: bool },
    /// A ping, pong or raw frame came.
    Control,
}

/// What the client does about an event.
#[derive(Clone, Copy, Debug, PartialEq, Eq, Structural)]
pub enum ChannelAction {
    /// Close the websocket and stop listening, without error.
    CloseAndStop,
    /// Stop listening, without error.
    Stop,
    /// Stop listening with the error that occurred.
    Fail,
    /// Decode the world packet and hand it to the handlers (a packet that
    /// does not decode stops listening with that error).
    Dispatch,
    /// Go on listening.
    Continue,
}

/// The action for an event: an interrupt closes the websocket and stops;
/// the end of the stream stops; a failed read stops with its error; a
/// binary message is dispatched; text, close and control messages are
/// passed over.
pub open spec fn action_for(event: ChannelEvent) -> ChannelAction {
    match event {
        ChannelEvent::Interrupted => ChannelAction::CloseAndStop,
        ChannelEvent::Ended => ChannelAction::Stop,
        ChannelEvent::ReceiveFailed => ChannelAction::Fail,
        ChannelEvent::Binary => ChannelAction::Dispatch,
        ChannelEvent::Text => ChannelAction::Continue,
        ChannelEvent::Closed { .. } => ChannelAction::Continue,
        ChannelEvent::Control => ChannelAction::Continue,
    }
}

/// Decides what the listening loop does about `event`.
pub fn next_action(event: ChannelEvent) -> (action: ChannelAction)
    ensures
        action == action_for(event),
{
    match event {
        ChannelEvent::Interrupted => ChannelAction::CloseAndStop,
        ChannelEvent::Ended => ChannelAction::Stop,
        ChannelEvent::ReceiveFailed => ChannelAction::Fail,
        ChannelEvent::Binary => ChannelAction::Dispatch,
        ChannelEvent::Text => ChannelAction::Continue,
        ChannelEvent::Closed { .. } => ChannelAction::Continue,
        ChannelEvent::Control => ChannelAction::Continue,
    }
}

/// The handlers that a client in a world has registered, in the order of
/// their registration: each packet is handed to them in that order.
pub struct HandlerList<H> {
    list: Vec<H>,
}

impl<H> View for HandlerList<H> {
    type V = Seq<H>;

    closed spec fn view(&self) -> Seq<H> {
        self.list@
    }
}

impl<H> HandlerList<H> {
    /// A list with no handler.
    pub fn new() -> (l: Self)
        ensures
            l@ == Seq::<H>::empty(),
    {
        HandlerList { list: Vec::new() }
    }

    /// Registers the handlers `added`, after those registered before.
    pub fn mount(self, added: Vec<H>) -> (l: Self)
        ensures
            l@ == self@ + added@,
    {
        let mut list = self.list;
        let mut added = added;
        list.append(&mut added);
        HandlerList { list }
    }

    /// The registered handlers, in the order of their registration.
    pub fn handlers(&self) -> (h: &[H])
        ensures
            h@ == self@,
    {
        self.list.as_slice()
    }

    /// The amount of registered handlers.
    pub fn len(&self) -> (n: usize)
        ensures
            n == self@.len(),
    {
        self.list.len()
    }
}

} // verus!
