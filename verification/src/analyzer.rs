//! A demultiplexer that labels each token with the channel it belongs to.

use vstd::prelude::*;
use crate::iac;
use crate::parser::{TelnetToken, TokenView};

verus! {

/// Per-option status bytes, one per option code.
#[derive(Clone, Copy)]
struct QState {
    status: [u8; 256],
}

impl QState {
    fn new() -> (q: QState)
        ensures
            forall|i: int| 0 <= i < 256 ==> #[trigger] q.status@[i] == 0,
    {
        QState { status: [0u8; 256] }
    }
}

/// Tracks which channel a subnegotiation has opened.
#[derive(Clone, Copy)]
pub struct TelnetDemuxer {
    active_channel: Option<u8>,
    qstate: QState,
}

/// A token as the demuxer passes it on: text, or a command byte.
#[derive(Debug, Clone, Copy, PartialEq, Eq)]
pub enum TelnetPacket<'a> {
    Text(&'a [u8]),
    Command(u8),
}

/// A packet with the channel it belongs to (`None`: the main stream).
#[derive(Debug, Clone, Copy, PartialEq, Eq)]
pub struct ChannelData<'a> {
    pub channel: Option<u8>,
    pub message: TelnetPacket<'a>,
}

/// The mathematical content of a packet.
pub ghost enum PacketView {
    Text(Seq<u8>),
    Command(u8),
}

/// The mathematical content of a labelled packet.
pub ghost struct ChannelDataView {
    pub channel: Option<u8>,
    pub message: PacketView,
}

impl<'a> View for TelnetPacket<'a> {
    type V = PacketView;

    open spec fn view(&self) -> PacketView {
        match *self {
            TelnetPacket::Text(t) => PacketView::Text(t@),
            TelnetPacket::Command(c) => PacketView::Command(c),
        }
    }
}

impl<'a> View for ChannelData<'a> {
    type V = ChannelDataView;

    open spec fn view(&self) -> ChannelDataView {
        ChannelDataView { channel: self.channel, message: self.message@ }
    }
}

/// What `analyze` yields for a token while `active` is the open channel,
/// and which channel is open afterwards. Text belongs to the open channel; a
/// plain command belongs to the main stream, and SE closes the open
/// channel; a negotiation belongs to its channel, and SB opens it.
pub open spec fn analyze_spec(active: Option<u8>, token: TokenView) -> (ChannelDataView, Option<u8>) {
    match token {
        TokenView::Text(t) => (ChannelDataView { channel: active, message: PacketView::Text(t) }, active),
        TokenView::Command(c) => (
            ChannelDataView { channel: None, message: PacketView::Command(c) },
            if c == iac::SE {
                None
            } else {
                active
            },
        ),
        TokenView::Negotiation { command, channel } => (
            ChannelDataView { channel: Some(channel), message: PacketView::Command(command) },
            if command == iac::SB {
                Some(channel)
            } else {
                active
            },
        ),
    }
}

impl TelnetDemuxer {
    /// The channel that a subnegotiation has opened, if any.
    pub closed spec fn active(&self) -> Option<u8> {
        self.active_channel
    }

    /// The per-option status bytes.
    pub closed spec fn option_status(&self) -> Seq<u8> {
        self.qstate.status@
    }

    pub fn new() -> (d: TelnetDemuxer)
        ensures
            d.active() == None::<u8>,
            d.option_status() == Seq::new(256, |i: int| 0u8),
    {
        let d = TelnetDemuxer { active_channel: None, qstate: QState::new() };
        assert(d.option_status() =~= Seq::new(256, |i: int| 0u8));
        d
    }

    pub fn analyze<'a>(&mut self, token: TelnetToken<'a>) -> (r: ChannelData<'a>)
        ensures
            (r@, final(self).active()) == analyze_spec(old(self).active(), token@),
            final(self).option_status() == old(self).option_status(),
            token matches TelnetToken::Text(t) ==> r.channel == old(self).active()
                && r.message == TelnetPacket::Text(t)
                && final(self).active() == old(self).active(),
            token matches TelnetToken::Command(c) ==> r.channel == None::<u8>
                && r.message == TelnetPacket::Command(c),
            token matches TelnetToken::Negotiation { command, channel } ==> r.channel == Some(channel)
                && r.message == TelnetPacket::Command(command),
    {
        match token {
            TelnetToken::Text(data) => {
                ChannelData { channel: self.active_channel, message: TelnetPacket::Text(data) }
            },
            TelnetToken::Command(command) => {
                if command == iac::SE {
                    self.active_channel = None;
                }
                ChannelData { channel: None, message: TelnetPacket::Command(command) }
            },
            TelnetToken::Negotiation { command, channel } => {
                if command == iac::SB {
                    self.active_channel = Some(channel);
                }
                ChannelData { channel: Some(channel), message: TelnetPacket::Command(command) }
            },
        }
    }
}

/// Text that follows an SB negotiation on a channel belongs to that channel,
/// whatever channel was open before.
pub proof fn lemma_subnegotiation_opens_channel(active: Option<u8>, channel: u8, text: Seq<u8>)
    ensures
        ({
            let after_sb = analyze_spec(active, TokenView::Negotiation { command: iac::SB, channel }).1;
            analyze_spec(after_sb, TokenView::Text(text)).0.channel == Some(channel)
        }),
{
}

/// Text that follows an SE command belongs to the main stream again.
pub proof fn lemma_se_closes_channel(active: Option<u8>, text: Seq<u8>)
    ensures
        ({
            let after_se = analyze_spec(active, TokenView::Command(iac::SE)).1;
            analyze_spec(after_se, TokenView::Text(text)).0.channel == None::<u8>
        }),
{
}

/// Text is labelled with the channel that is open, and leaves it open.
pub proof fn lemma_text_belongs_to_open_channel(active: Option<u8>, text: Seq<u8>)
    ensures
        analyze_spec(active, TokenView::Text(text)).0 == (ChannelDataView {
            channel: active,
            message: PacketView::Text(text),
        }),
        analyze_spec(active, TokenView::Text(text)).1 == active,
{
}

/// A plain command belongs to the main stream whatever channel is open; SE
/// closes the open channel and any other command leaves it as it is.
pub proof fn lemma_command_belongs_to_main_stream(active: Option<u8>, command: u8)
    ensures
        analyze_spec(active, TokenView::Command(command)).0 == (ChannelDataView {
            channel: None,
            message: PacketView::Command(command),
        }),
        command == iac::SE ==> analyze_spec(active, TokenView::Command(command)).1 == None::<u8>,
        command != iac::SE ==> analyze_spec(active, TokenView::Command(command)).1 == active,
{
}

/// A negotiation belongs to its own channel whatever channel is open, for
/// every command byte; SB opens that channel and any other command leaves
/// the open channel as it is.
pub proof fn lemma_negotiation_belongs_to_its_channel(active: Option<u8>, command: u8, channel: u8)
    ensures
        analyze_spec(active, TokenView::Negotiation { command, channel }).0 == (ChannelDataView {
            channel: Some(channel),
            message: PacketView::Command(command),
        }),
        command == iac::SB ==> analyze_spec(active, TokenView::Negotiation { command, channel }).1
            == Some(channel),
        command != iac::SB ==> analyze_spec(active, TokenView::Negotiation { command, channel }).1
            == active,
{
}

/// Only an SB negotiation or an SE command changes the open channel.
pub proof fn lemma_open_channel_frame(active: Option<u8>, token: TokenView)
    requires
        !(token matches TokenView::Negotiation { command, .. } && command == iac::SB),
        token != TokenView::Command(iac::SE),
    ensures
        analyze_spec(active, token).1 == active,
{
}

} // verus!
