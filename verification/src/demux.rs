//! Demultiplexes dispatched tokens onto channels: tracks the channel that a
//! subnegotiation opened and forwards events to a channel handler.

use vstd::prelude::*;
use std::io::Write;
use crate::iac;
use crate::qstate::{QState, QAttitude, initial_qstate};
use crate::dispatch::{DataEndpoint, CommandEndpoint, DeliveryView, delivery_of, dispatch_effect};
use crate::analyzer::analyze_spec;
use crate::parser::TokenView;

verus! {

/// An event that a channel handler receives.
pub ghost enum ChannelEvent {
    Data { channel: Option<u8>, data: Seq<u8> },
    Command { channel: Option<u8>, command: u8 },
    Enable(Option<u8>),
    Disable(Option<u8>),
    Focus(Option<u8>),
    Blur(Option<u8>),
    ShouldEnable { channel: Option<u8>, attitude: QAttitude },
}

/// Receives events per channel (`None`: the main stream).
///
/// Each implementation says, in `handles`, how an event changes the handler
/// and which answer it gives (`should_enable` answers; the other callbacks
/// answer `false`). Implementations outside this crate are not checked.
pub trait ChannelHandler: Sized {
    /// Whether handling `event` takes the handler from `before` to `after`
    /// with the answer `answer`.
    spec fn handles(before: Self, event: ChannelEvent, after: Self, answer: bool) -> bool;

    fn on_data(&mut self, channel: Option<u8>, data: &[u8])
        ensures
            Self::handles(*old(self), ChannelEvent::Data { channel, data: data@ }, *final(self), false),
    ;

    fn on_command(&mut self, channel: Option<u8>, command: u8)
        ensures
            Self::handles(*old(self), ChannelEvent::Command { channel, command }, *final(self), false),
    ;

    fn on_enable(&mut self, channel: Option<u8>)
        ensures
            Self::handles(*old(self), ChannelEvent::Enable(channel), *final(self), false),
    ;

    fn on_disable(&mut self, channel: Option<u8>)
        ensures
            Self::handles(*old(self), ChannelEvent::Disable(channel), *final(self), false),
    ;

    fn on_focus(&mut self, channel: Option<u8>)
        ensures
            Self::handles(*old(self), ChannelEvent::Focus(channel), *final(self), false),
    ;

    fn on_blur(&mut self, channel: Option<u8>)
        ensures
            Self::handles(*old(self), ChannelEvent::Blur(channel), *final(self), false),
    ;

    fn should_enable(&mut self, channel: Option<u8>, attitude: QAttitude) -> (r: bool)
        ensures
            Self::handles(*old(self), ChannelEvent::ShouldEnable { channel, attitude }, *final(self), r),
    ;
}

/// The unit handler ignores every event and answers `false` to every
/// question.
impl ChannelHandler for () {
    open spec fn handles(before: (), event: ChannelEvent, after: (), answer: bool) -> bool {
        !answer
    }

    fn on_data(&mut self, _channel: Option<u8>, _data: &[u8]) {
    }

    fn on_command(&mut self, _channel: Option<u8>, _command: u8) {
    }

    fn on_enable(&mut self, _channel: Option<u8>) {
    }

    fn on_disable(&mut self, _channel: Option<u8>) {
    }

    fn on_focus(&mut self, _channel: Option<u8>) {
    }

    fn on_blur(&mut self, _channel: Option<u8>) {
    }

    fn should_enable(&mut self, _channel: Option<u8>, _attitude: QAttitude) -> (r: bool) {
        false
    }
}

/// The demultiplexer's state, kept between events: the option state of
/// every channel and the channel that a subnegotiation has opened.
#[derive(Clone, Copy)]
pub struct TelnetDemuxState {
    pub qstate: [QState; 256],
    pub active_channel: Option<u8>,
}

impl TelnetDemuxState {
    pub fn new() -> (s: TelnetDemuxState)
        ensures
            forall|i: int| 0 <= i < 256 ==> #[trigger] s.qstate@[i] == initial_qstate(),
            s.active_channel == None::<u8>,
    {
        TelnetDemuxState { qstate: [QState::new(); 256], active_channel: None }
    }
}

/// What the demultiplexer does with a command.
#[derive(Debug, Clone, Copy, PartialEq, Eq, Structural)]
pub enum DemuxAction {
    /// Tell the parent that this channel lost focus.
    Blur(Option<u8>),
    /// Tell the parent that this channel gained focus.
    Focus(u8),
    /// Pass the command on to the parent.
    Forward { channel: Option<u8>, command: u8 },
    /// An option negotiation (WILL, WONT, DO or DONT) on a channel; it is
    /// reported, not passed on.
    Negotiate { verb: u8, option: u8 },
}

/// Whether a command is one of the four option negotiation verbs.
pub open spec fn is_negotiation_verb(command: u8) -> bool {
    command == iac::WILL || command == iac::WONT || command == iac::DO || command == iac::DONT
}

/// The action for a command on `channel` while `active` is the open channel,
/// and the open channel afterwards. SE on the main stream blurs and closes
/// the open channel; SB on a channel focuses and opens it; a negotiation
/// verb is reported; anything else is forwarded.
pub open spec fn command_decision(active: Option<u8>, channel: Option<u8>, command: u8) -> (
    DemuxAction,
    Option<u8>,
) {
    match channel {
        None => if command == iac::SE {
            (DemuxAction::Blur(active), None)
        } else {
            (DemuxAction::Forward { channel, command }, active)
        },
        Some(ch) => if is_negotiation_verb(command) {
            (DemuxAction::Negotiate { verb: command, option: ch }, active)
        } else if command == iac::SB {
            (DemuxAction::Focus(ch), Some(ch))
        } else {
            (DemuxAction::Forward { channel, command }, active)
        },
    }
}

/// Decides what the demultiplexer does with a command.
pub fn decide_command(active: Option<u8>, channel: Option<u8>, command: u8) -> (r: (
    DemuxAction,
    Option<u8>,
))
    ensures
        r == command_decision(active, channel, command),
{
    match channel {
        None => {
            if command == iac::SE {
                (DemuxAction::Blur(active), None)
            } else {
                (DemuxAction::Forward { channel: channel, command: command }, active)
            }
        },
        Some(ch) => {
            if command == iac::WILL || command == iac::WONT || command == iac::DO || command
                == iac::DONT {
                (DemuxAction::Negotiate { verb: command, option: ch }, active)
            } else if command == iac::SB {
                (DemuxAction::Focus(ch), Some(ch))
            } else {
                (DemuxAction::Forward { channel: channel, command: command }, active)
            }
        },
    }
}

/// The name of a negotiation verb.
fn verb_name(command: u8) -> (name: &'static str)
    requires
        is_negotiation_verb(command),
    ensures
        command == iac::WILL ==> name@ == "WILL"@,
        command == iac::WONT ==> name@ == "WONT"@,
        command == iac::DO ==> name@ == "DO"@,
        command == iac::DONT ==> name@ == "DONT"@,
{
    if command == iac::WILL {
        "WILL"
    } else if command == iac::WONT {
        "WONT"
    } else if command == iac::DO {
        "DO"
    } else {
        "DONT"
    }
}

/// Writes a line `IAC <verb> <channel>` to standard output through
/// `std::io::stdout`. Nothing is claimed of it; a failed write is ignored.
#[verifier::external_body]
fn report_negotiation(verb: &str, channel: u8) {
    let _ = writeln!(std::io::stdout(), "IAC {} {}", verb, channel);
}

/// A demultiplexer for one event: it borrows the kept state and the parent
/// that receives the channel events.
pub struct TelnetDemux<'state, 'parent, Parent: 'parent> {
    pub parent: &'parent mut Parent,
    pub state: &'state mut TelnetDemuxState,
}

impl<'state, 'parent, Parent> TelnetDemux<'state, 'parent, Parent> {
    pub fn new(state: &'state mut TelnetDemuxState, parent: &'parent mut Parent) -> (d: TelnetDemux<
        'state,
        'parent,
        Parent,
    >)
        ensures
            *d.state == *old(state),
            *d.parent == *old(parent),
            *final(d.parent) == *final(parent),
            *final(d.state) == *final(state),
    {
        TelnetDemux { state: state, parent: parent }
    }
}

/// What an action does to the parent: the matching callback, with its
/// arguments, or nothing for a negotiation, which is only reported.
pub open spec fn action_effect<P: ChannelHandler>(before: P, action: DemuxAction, after: P) -> bool {
    match action {
        DemuxAction::Blur(previous) => P::handles(before, ChannelEvent::Blur(previous), after, false),
        DemuxAction::Focus(ch) => P::handles(before, ChannelEvent::Focus(Some(ch)), after, false),
        DemuxAction::Forward { channel, command } => P::handles(
            before,
            ChannelEvent::Command { channel, command },
            after,
            false,
        ),
        DemuxAction::Negotiate { .. } => after == before,
    }
}

/// What a command does to a demultiplexer: the state moves to the open
/// channel that `command_decision` gives (the option states stay), and the
/// parent undergoes the decided action.
pub open spec fn demux_command_effect<'state, 'parent, Parent: ChannelHandler>(
    before: TelnetDemux<'state, 'parent, Parent>,
    channel: Option<u8>,
    command: u8,
    after: TelnetDemux<'state, 'parent, Parent>,
) -> bool {
    let (action, active) = command_decision(before.state.active_channel, channel, command);
    &&& after.state.active_channel == active
    &&& after.state.qstate == before.state.qstate
    &&& action_effect(*before.parent, action, *after.parent)
}

impl<'state, 'parent, Parent> DataEndpoint for TelnetDemux<'state, 'parent, Parent> where
    Parent: ChannelHandler,
 {
    /// Text goes to the parent on the open channel; the state stays.
    open spec fn data_effect(
        before: TelnetDemux<'state, 'parent, Parent>,
        data: Seq<u8>,
        after: TelnetDemux<'state, 'parent, Parent>,
    ) -> bool {
        &&& *after.state == *before.state
        &&& Parent::handles(
            *before.parent,
            ChannelEvent::Data { channel: before.state.active_channel, data },
            *after.parent,
            false,
        )
    }


    /// Text goes to the open channel.
    fn on_data(&mut self, data: &[u8])
        ensures
            *final(self).state == *old(self).state,
            *final(final(self).state) == *final(old(self).state),
            Parent::handles(
                *old(self).parent,
                ChannelEvent::Data { channel: old(self).state.active_channel, data: data@ },
                *final(self).parent,
                false,
            ),
            *final(final(self).parent) == *final(old(self).parent),
    {
        let channel = self.state.active_channel;
        self.parent.on_data(channel, data);
    }
}

impl<'state, 'parent, Parent> CommandEndpoint for TelnetDemux<'state, 'parent, Parent> where
    Parent: ChannelHandler,
 {
    /// The decided effect (`demux_command_effect`).
    open spec fn command_effect(
        before: TelnetDemux<'state, 'parent, Parent>,
        channel: Option<u8>,
        command: u8,
        after: TelnetDemux<'state, 'parent, Parent>,
    ) -> bool {
        demux_command_effect(before, channel, command, after)
    }


    fn on_command(&mut self, channel: Option<u8>, command: u8)
        ensures
            demux_command_effect(*old(self), channel, command, *final(self)),
            *final(final(self).state) == *final(old(self).state),
            *final(final(self).parent) == *final(old(self).parent),
    {
        let (action, active) = decide_command(self.state.active_channel, channel, command);
        match action {
            DemuxAction::Blur(previous) => {
                self.parent.on_blur(previous);
            },
            DemuxAction::Focus(ch) => {
                self.parent.on_focus(Some(ch));
            },
            DemuxAction::Forward { channel, command } => {
                self.parent.on_command(channel, command);
            },
            DemuxAction::Negotiate { verb, option } => {
                report_negotiation(verb_name(verb), option);
            },
        }
        self.state.active_channel = active;
    }
}

/// What each command does, for every open channel: on the main stream, SE
/// blurs the open channel and closes it and any other command is forwarded
/// with no channel; on a channel, WILL, WONT, DO and DONT are reported as a
/// negotiation of that channel, SB focuses and opens the channel, and any
/// other command is forwarded with its channel. Only SB and SE change the
/// open channel.
pub proof fn lemma_command_decision_cases(active: Option<u8>, channel: u8, command: u8)
    ensures
        command == iac::SE ==> command_decision(active, None, command) == (
            DemuxAction::Blur(active),
            None::<u8>,
        ),
        command != iac::SE ==> command_decision(active, None, command) == (
            DemuxAction::Forward { channel: None, command },
            active,
        ),
        (command == iac::WILL || command == iac::WONT || command == iac::DO || command == iac::DONT)
            ==> command_decision(active, Some(channel), command) == (
            DemuxAction::Negotiate { verb: command, option: channel },
            active,
        ),
        command == iac::SB ==> command_decision(active, Some(channel), command) == (
            DemuxAction::Focus(channel),
            Some(channel),
        ),
        !(command == iac::WILL || command == iac::WONT || command == iac::DO || command == iac::DONT
            || command == iac::SB) ==> command_decision(active, Some(channel), command) == (
            DemuxAction::Forward { channel: Some(channel), command },
            active,
        ),
{
}

/// After SB on a channel, SE on the main stream blurs exactly that channel
/// and closes it.
pub proof fn lemma_focus_then_blur(active: Option<u8>, channel: u8)
    ensures
        ({
            let (focus, opened) = command_decision(active, Some(channel), iac::SB);
            let (blur, closed) = command_decision(opened, None, iac::SE);
            &&& focus == DemuxAction::Focus(channel)
            &&& blur == DemuxAction::Blur(Some(channel))
            &&& closed == None::<u8>
        }),
{
}

/// Only SB on a channel or SE on the main stream changes the open channel.
pub proof fn lemma_open_channel_frame(active: Option<u8>, channel: Option<u8>, command: u8)
    requires
        !(channel is Some && command == iac::SB),
        !(channel is None && command == iac::SE),
    ensures
        command_decision(active, channel, command).1 == active,
{
}

/// The demultiplexer and the analyzer track the same open channel: for every
/// token, dispatching it to a `TelnetDemux` (data leaves the channel as it
/// is; a command goes through `command_decision`) moves the open channel
/// exactly as `TelnetDemuxer::analyze` does.
pub proof fn lemma_agrees_with_analyzer(active: Option<u8>, token: TokenView)
    ensures
        analyze_spec(active, token).1 == match delivery_of(token) {
            DeliveryView::Data(_) => active,
            DeliveryView::Command { channel, command } => command_decision(active, channel, command).1,
        },
{
}

/// Dispatching a token into a demultiplexer moves its open channel exactly
/// as `TelnetDemuxer::analyze` does: SB on a channel opens it, SE on the main
/// stream closes it, anything else leaves it.
pub proof fn lemma_dispatch_moves_open_channel<'state, 'parent, Parent: ChannelHandler>(
    before: TelnetDemux<'state, 'parent, Parent>,
    token: TokenView,
    after: TelnetDemux<'state, 'parent, Parent>,
)
    requires
        dispatch_effect(before, token, after),
    ensures
        old(after.state).active_channel == analyze_spec(old(before.state).active_channel, token).1,
        old(after.state).qstate == old(before.state).qstate,
{
    lemma_agrees_with_analyzer(before.state.active_channel, token);
}

} // verus!
