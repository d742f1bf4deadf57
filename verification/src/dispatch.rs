//! Hands each token to the matching callback of a handler.

use vstd::prelude::*;
use crate::parser::{TelnetToken, TokenView};

verus! {

/// Receives runs of text.
///
/// Each implementation says, in `data_effect`, how receiving some text
/// changes the endpoint. Implementations outside this crate are not checked.
pub trait DataEndpoint: Sized {
    /// Whether receiving `data` takes the endpoint from `before` to `after`.
    spec fn data_effect(before: Self, data: Seq<u8>, after: Self) -> bool;

    fn on_data(&mut self, data: &[u8])
        ensures
            Self::data_effect(*old(self), data@, *final(self)),
    ;
}

/// The unit endpoint ignores text.
impl DataEndpoint for () {
    open spec fn data_effect(before: (), data: Seq<u8>, after: ()) -> bool {
        true
    }

    fn on_data(&mut self, _data: &[u8]) {
    }
}

/// Receives commands, with the channel of a negotiation.
///
/// Each implementation says, in `command_effect`, how receiving a command
/// changes the endpoint. Implementations outside this crate are not checked.
pub trait CommandEndpoint: Sized {
    /// Whether receiving `command` on `channel` takes the endpoint from
    /// `before` to `after`.
    spec fn command_effect(before: Self, channel: Option<u8>, command: u8, after: Self) -> bool;

    fn on_command(&mut self, channel: Option<u8>, command: u8)
        ensures
            Self::command_effect(*old(self), channel, command, *final(self)),
    ;
}

/// The unit endpoint ignores commands.
impl CommandEndpoint for () {
    open spec fn command_effect(before: (), channel: Option<u8>, command: u8, after: ()) -> bool {
        true
    }

    fn on_command(&mut self, _channel: Option<u8>, _command: u8) {
    }
}

/// A handler of both text and commands.
pub trait DispatchEndpoint: DataEndpoint + CommandEndpoint {

}

impl<T> DispatchEndpoint for T where T: DataEndpoint + CommandEndpoint {

}

/// The callback that a token goes to, with its arguments.
#[derive(Debug, Clone, Copy, PartialEq, Eq)]
pub enum Delivery<'a> {
    /// `on_data` with this text.
    Data(&'a [u8]),
    /// `on_command` with this channel and command.
    Command { channel: Option<u8>, command: u8 },
}

/// The mathematical content of a delivery.
pub ghost enum DeliveryView {
    Data(Seq<u8>),
    Command { channel: Option<u8>, command: u8 },
}

impl<'a> View for Delivery<'a> {
    type V = DeliveryView;

    open spec fn view(&self) -> DeliveryView {
        match *self {
            Delivery::Data(d) => DeliveryView::Data(d@),
            Delivery::Command { channel, command } => DeliveryView::Command { channel, command },
        }
    }
}

/// Where a token goes: text to `on_data`; a plain command to `on_command`
/// with no channel; a negotiation to `on_command` with its channel.
pub open spec fn delivery_of(token: TokenView) -> DeliveryView {
    match token {
        TokenView::Text(t) => DeliveryView::Data(t),
        TokenView::Command(c) => DeliveryView::Command { channel: None, command: c },
        TokenView::Negotiation { command, channel } => DeliveryView::Command {
            channel: Some(channel),
            command,
        },
    }
}

/// Decides which callback `dispatch` calls for a token, and with what.
pub fn delivery<'a>(token: TelnetToken<'a>) -> (d: Delivery<'a>)
    ensures
        d@ == delivery_of(token@),
        token matches TelnetToken::Text(t) ==> d == Delivery::Data(t),
        token matches TelnetToken::Command(c) ==> d == (Delivery::Command {
            channel: None,
            command: c,
        }),
        token matches TelnetToken::Negotiation { command, channel } ==> d == (Delivery::Command {
            channel: Some(channel),
            command,
        }),
{
    match token {
        TelnetToken::Text(text) => Delivery::Data(text),
        TelnetToken::Command(command) => Delivery::Command { channel: None, command: command },
        TelnetToken::Negotiation { command, channel } => Delivery::Command {
            channel: Some(channel),
            command: command,
        },
    }
}

/// Text goes to `on_data` unchanged; a plain command goes to `on_command`
/// with no channel; a negotiation goes to `on_command` with its own channel
/// byte, for every command byte.
pub proof fn lemma_delivery_cases(text: Seq<u8>, command: u8, channel: u8)
    ensures
        delivery_of(TokenView::Text(text)) == DeliveryView::Data(text),
        delivery_of(TokenView::Command(command)) == (DeliveryView::Command {
            channel: None,
            command,
        }),
        delivery_of(TokenView::Negotiation { command, channel }) == (DeliveryView::Command {
            channel: Some(channel),
            command,
        }),
{
}

/// A negotiation and a plain command with the same command byte reach the
/// same callback, and differ only in that the negotiation carries its
/// channel.
pub proof fn lemma_negotiation_carries_channel(command: u8, channel: u8)
    ensures
        delivery_of(TokenView::Negotiation { command, channel }) != delivery_of(TokenView::Command(command)),
        delivery_of(TokenView::Negotiation { command, channel }) matches DeliveryView::Command {
            channel: Some(ch),
            ..
        } && ch == channel,
{
}

/// What dispatching a token does to a handler: the effect of the callback
/// that `delivery_of` picks, with its arguments.
pub open spec fn dispatch_effect<T: DispatchEndpoint>(before: T, token: TokenView, after: T) -> bool {
    match delivery_of(token) {
        DeliveryView::Data(text) => T::data_effect(before, text, after),
        DeliveryView::Command { channel, command } => T::command_effect(before, channel, command, after),
    }
}

/// Calls the handler's callback for the token, as `delivery` decides.
pub fn dispatch<T>(token: TelnetToken, handler: &mut T) where T: DispatchEndpoint
    ensures
        dispatch_effect(*old(handler), token@, *final(handler)),
{
    match delivery(token) {
        Delivery::Data(text) => {
            handler.on_data(text);
        },
        Delivery::Command { channel, command } => {
            handler.on_command(channel, command);
        },
    }
}

} // verus!
