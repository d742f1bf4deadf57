use lib::analyzer::{ChannelData, TelnetDemuxer, TelnetPacket};
use lib::demux::{decide_command, ChannelEvent, ChannelHandler, DemuxAction, TelnetDemux, TelnetDemuxState};
use lib::dispatch::{delivery, dispatch, CommandEndpoint, DataEndpoint, Delivery};
use lib::iac;
use lib::parser::TelnetToken;
use lib::qstate::{QAttitude, QState, QStateUni};
use lib::registry::{EndpointRegistry, Route, TelnetChannel};

#[derive(Default)]
struct Log(Vec<String>);

impl DataEndpoint for Log {
    fn data_effect(_before: Self, _data: vstd::seq::Seq<u8>, _after: Self) -> bool {
        true
    }
    fn on_data(&mut self, data: &[u8]) {
        self.0.push(format!("data {:?}", data));
    }
}

impl CommandEndpoint for Log {
    fn command_effect(_before: Self, _channel: Option<u8>, _command: u8, _after: Self) -> bool {
        true
    }
    fn on_command(&mut self, channel: Option<u8>, command: u8) {
        self.0.push(format!("command {:?} {}", channel, command));
    }
}

impl ChannelHandler for Log {
    fn handles(_before: Self, _event: ChannelEvent, _after: Self, _answer: bool) -> bool {
        true
    }
    fn on_data(&mut self, channel: Option<u8>, data: &[u8]) {
        self.0.push(format!("data {:?} {:?}", channel, data));
    }
    fn on_command(&mut self, channel: Option<u8>, command: u8) {
        self.0.push(format!("command {:?} {}", channel, command));
    }
    fn on_enable(&mut self, channel: Option<u8>) {
        self.0.push(format!("enable {:?}", channel));
    }
    fn on_disable(&mut self, channel: Option<u8>) {
        self.0.push(format!("disable {:?}", channel));
    }
    fn on_focus(&mut self, channel: Option<u8>) {
        self.0.push(format!("focus {:?}", channel));
    }
    fn on_blur(&mut self, channel: Option<u8>) {
        self.0.push(format!("blur {:?}", channel));
    }
    fn should_enable(&mut self, channel: Option<u8>, _attitude: QAttitude) -> bool {
        self.0.push(format!("should_enable {:?}", channel));
        true
    }
}

struct Tagged(&'static str);

impl TelnetChannel<Log> for Tagged {
    fn receives(
        _before: &Self,
        _parent_before: Log,
        _event: ChannelEvent,
        _after: &Self,
        _parent_after: Log,
        _answer: bool,
    ) -> bool {
        true
    }

    fn on_data(&mut self, parent: &mut Log, channel: Option<u8>, data: &[u8]) {
        parent.0.push(format!("{} data {:?} {:?}", self.0, channel, data));
    }
    fn on_command(&mut self, parent: &mut Log, channel: Option<u8>, command: u8) {
        parent.0.push(format!("{} command {:?} {}", self.0, channel, command));
    }
    fn on_focus(&mut self, parent: &mut Log, channel: Option<u8>) {
        parent.0.push(format!("{} focus {:?}", self.0, channel));
    }
    fn on_enable(&mut self, _parent: &mut Log, _channel: Option<u8>) {}
    fn on_disable(&mut self, _parent: &mut Log, _channel: Option<u8>) {}
    fn on_blur(&mut self, _parent: &mut Log, _channel: Option<u8>) {}
    fn should_enable(&mut self, _parent: &mut Log, _channel: Option<u8>, _attitude: QAttitude) -> bool {
        false
    }
}

#[test]
fn qstate_enabled_classes() {
    assert!(!QStateUni::Disabled.is_enabled());
    assert!(!QStateUni::AwaitEnable.is_enabled());
    assert!(QStateUni::Enabled.is_enabled());
    assert!(QStateUni::AwaitDisable.is_enabled());
    assert!(QStateUni::Disabled.is_disabled());
    assert!(QStateUni::AwaitEnable.is_disabled());
    assert!(!QStateUni::Enabled.is_disabled());
    assert!(!QStateUni::AwaitDisable.is_disabled());
}

#[test]
fn qstate_new_and_active() {
    let q = QState::new();
    assert_eq!(q, QState { local: QStateUni::Disabled, remote: QStateUni::Disabled });
    assert!(!q.is_active(QAttitude::Local));
    assert!(!q.is_active(QAttitude::Remote));
    let q = QState { local: QStateUni::AwaitDisable, remote: QStateUni::AwaitEnable };
    assert!(q.is_active(QAttitude::Local));
    assert!(!q.is_active(QAttitude::Remote));
}

#[test]
fn delivery_of_each_token() {
    assert_eq!(delivery(TelnetToken::Text(b"hi")), Delivery::Data(b"hi"));
    assert_eq!(delivery(TelnetToken::Command(0xF1)), Delivery::Command { channel: None, command: 0xF1 });
    assert_eq!(
        delivery(TelnetToken::Negotiation { command: 0xFD, channel: 3 }),
        Delivery::Command { channel: Some(3), command: 0xFD }
    );
}

#[test]
fn dispatch_calls_the_handler() {
    let mut log = Log::default();
    dispatch(TelnetToken::Text(b"x"), &mut log);
    dispatch(TelnetToken::Command(0xF1), &mut log);
    dispatch(TelnetToken::Negotiation { command: 0xFB, channel: 1 }, &mut log);
    assert_eq!(log.0, vec!["data [120]", "command None 241", "command Some(1) 251"]);
    // The unit handler accepts everything.
    dispatch(TelnetToken::Text(b"x"), &mut ());
}

#[test]
fn analyzer_labels_channels() {
    let mut d = TelnetDemuxer::new();
    assert_eq!(
        d.analyze(TelnetToken::Text(b"a")),
        ChannelData { channel: None, message: TelnetPacket::Text(b"a") }
    );
    assert_eq!(
        d.analyze(TelnetToken::Negotiation { command: iac::SB, channel: 24 }),
        ChannelData { channel: Some(24), message: TelnetPacket::Command(iac::SB) }
    );
    assert_eq!(
        d.analyze(TelnetToken::Text(b"b")),
        ChannelData { channel: Some(24), message: TelnetPacket::Text(b"b") }
    );
    // Other negotiations do not move the open channel.
    assert_eq!(
        d.analyze(TelnetToken::Negotiation { command: iac::WILL, channel: 1 }),
        ChannelData { channel: Some(1), message: TelnetPacket::Command(iac::WILL) }
    );
    assert_eq!(d.analyze(TelnetToken::Text(b"c")).channel, Some(24));
    assert_eq!(
        d.analyze(TelnetToken::Command(iac::SE)),
        ChannelData { channel: None, message: TelnetPacket::Command(iac::SE) }
    );
    assert_eq!(d.analyze(TelnetToken::Text(b"d")).channel, None);
}

#[test]
fn demux_state_new() {
    let s = TelnetDemuxState::new();
    assert_eq!(s.active_channel, None);
    assert!(s.qstate.iter().all(|q| *q == QState::new()));
}

#[test]
fn decide_command_table() {
    assert_eq!(decide_command(Some(4), None, iac::SE), (DemuxAction::Blur(Some(4)), None));
    assert_eq!(decide_command(Some(4), None, 0xF1), (DemuxAction::Forward { channel: None, command: 0xF1 }, Some(4)));
    assert_eq!(decide_command(None, Some(9), iac::SB), (DemuxAction::Focus(9), Some(9)));
    for verb in [iac::WILL, iac::WONT, iac::DO, iac::DONT] {
        assert_eq!(decide_command(None, Some(9), verb), (DemuxAction::Negotiate { verb, option: 9 }, None));
    }
    assert_eq!(decide_command(None, Some(9), 0x42), (DemuxAction::Forward { channel: Some(9), command: 0x42 }, None));
    // SE on a channel is forwarded, not a blur.
    assert_eq!(decide_command(Some(2), Some(9), iac::SE), (DemuxAction::Forward { channel: Some(9), command: iac::SE }, Some(2)));
}

#[test]
fn demux_focus_data_blur() {
    let mut state = TelnetDemuxState::new();
    let mut log = Log::default();
    let tokens = [
        TelnetToken::Text(b"a"),
        TelnetToken::Negotiation { command: iac::SB, channel: 32 },
        TelnetToken::Text(b"b"),
        TelnetToken::Negotiation { command: iac::WILL, channel: 1 },
        TelnetToken::Negotiation { command: 0x42, channel: 5 },
        TelnetToken::Command(iac::SE),
        TelnetToken::Command(0xF1),
        TelnetToken::Text(b"c"),
    ];
    for token in tokens {
        let mut demux = TelnetDemux::new(&mut state, &mut log);
        dispatch(token, &mut demux);
    }
    assert_eq!(
        log.0,
        vec![
            "data None [97]",
            "focus Some(32)",
            "data Some(32) [98]",
            "command Some(5) 66",
            "blur Some(32)",
            "command None 241",
            "data None [99]",
        ]
    );
    assert_eq!(state.active_channel, None);
}

#[test]
fn registry_routes() {
    let mut parent = Log::default();
    let mut main = Tagged("main");
    let mut foo = Tagged("foo");
    {
        let mut registry: EndpointRegistry<'_, Log, Tagged> = EndpointRegistry::new(&mut parent);
        assert_eq!(registry.route_channel(None), Route::Parent);
        assert_eq!(registry.route_channel(Some(32)), Route::Parent);
        assert_eq!(registry.route_command(0x42), Route::Parent);
        registry.set_main(&mut main);
        let id = registry.add_endpoint(&mut foo);
        assert_eq!(id, 0);
        registry.map_command(0x42, id);
        registry.map_channel(32, id);
        assert_eq!(registry.route_channel(None), Route::Main);
        assert_eq!(registry.route_channel(Some(32)), Route::Endpoint(0));
        assert_eq!(registry.route_channel(Some(33)), Route::Parent);
        assert_eq!(registry.route_command(0x42), Route::Endpoint(0));
        assert_eq!(registry.route_command(0x43), Route::Parent);

        registry.on_data(None, b"m");
        registry.on_data(Some(32), b"f");
        registry.on_data(Some(7), b"p");
        registry.on_command(Some(7), 0x42);
        registry.on_command(None, 0x43);
        registry.on_focus(Some(32));
        // `foo` ignores a blur.
        registry.on_blur(Some(32));
        registry.on_blur(Some(8));
        assert!(!registry.should_enable(Some(32), QAttitude::Local));
        assert!(registry.should_enable(Some(9), QAttitude::Remote));
        registry.on_enable(None);
        registry.on_disable(Some(9));
    }
    assert_eq!(
        parent.0,
        vec![
            "main data None [109]",
            "foo data Some(32) [102]",
            "data Some(7) [112]",
            "foo command Some(7) 66",
            "command None 67",
            "foo focus Some(32)",
            "blur Some(8)",
            "should_enable Some(9)",
            "disable Some(9)",
        ]
    );
}

#[test]
fn registry_without_main_falls_back_to_parent() {
    let mut parent = Log::default();
    {
        let mut registry: EndpointRegistry<'_, Log, Tagged> = EndpointRegistry::new(&mut parent);
        registry.on_data(None, b"z");
        registry.on_enable(None);
    }
    assert_eq!(parent.0, vec!["data None [122]", "enable None"]);
}

#[test]
fn demux_and_analyzer_track_the_same_channel() {
    let tokens = [
        TelnetToken::Negotiation { command: iac::SB, channel: 3 },
        TelnetToken::Text(b"x"),
        TelnetToken::Negotiation { command: iac::DO, channel: 4 },
        TelnetToken::Command(0xF1),
        TelnetToken::Negotiation { command: iac::SB, channel: 6 },
        TelnetToken::Command(iac::SE),
        TelnetToken::Text(b"y"),
    ];
    let mut analyzer = TelnetDemuxer::new();
    let mut state = TelnetDemuxState::new();
    let mut parent = ();
    let mut open = None;
    for token in tokens {
        let labelled = analyzer.analyze(token);
        if let TelnetPacket::Text(_) = labelled.message {
            assert_eq!(labelled.channel, open);
        }
        let mut demux = TelnetDemux::new(&mut state, &mut parent);
        dispatch(token, &mut demux);
        open = state.active_channel;
        let probe = analyzer.analyze(TelnetToken::Text(b""));
        assert_eq!(probe.channel, open);
    }
}
