use lib::parser::{ParseState, TelnetToken, TelnetTokenizer};

fn collect<'b>(tokenizer: &mut TelnetTokenizer, data: &'b [u8]) -> Vec<TelnetToken<'b>> {
    let mut stream = tokenizer.tokenize(data);
    let mut out = Vec::new();
    while let Some(token) = stream.next() {
        out.push(token);
    }
    out
}

#[test]
fn new_tokenizer_is_neutral_with_default_long_commands() {
    let t = TelnetTokenizer::new();
    assert_eq!(t.state, ParseState::Neutral);
    for c in 0..256usize {
        assert_eq!(t.is_long_command[c], (250..=254).contains(&c), "command {}", c);
    }
}

#[test]
fn plain_text_is_one_token() {
    let mut t = TelnetTokenizer::new();
    let tokens = collect(&mut t, b"hello, world");
    assert_eq!(tokens, vec![TelnetToken::Text(b"hello, world")]);
    assert_eq!(t.state, ParseState::Neutral);
}

#[test]
fn empty_chunk_yields_nothing() {
    let mut t = TelnetTokenizer::new();
    assert_eq!(collect(&mut t, b""), vec![]);
    assert_eq!(t.state, ParseState::Neutral);
    let mut stream = t.tokenize(b"");
    assert_eq!(stream.step_parser(), None);
}

#[test]
fn escaped_iac_is_text() {
    let mut t = TelnetTokenizer::new();
    let tokens = collect(&mut t, b"a\xFF\xFFb");
    assert_eq!(
        tokens,
        vec![TelnetToken::Text(b"a"), TelnetToken::Text(b"\xFF"), TelnetToken::Text(b"b")]
    );
}

#[test]
fn plain_command() {
    let mut t = TelnetTokenizer::new();
    assert_eq!(collect(&mut t, b"\xFF\xF4rest"), vec![TelnetToken::Command(0xF4), TelnetToken::Text(b"rest")]);
}

#[test]
fn negotiation_takes_a_channel_byte() {
    let mut t = TelnetTokenizer::new();
    assert_eq!(
        collect(&mut t, b"\xFF\xFB\x01\xFF\xFA\x20"),
        vec![
            TelnetToken::Negotiation { command: 0xFB, channel: 0x01 },
            TelnetToken::Negotiation { command: 0xFA, channel: 0x20 },
        ]
    );
    assert_eq!(t.state, ParseState::Neutral);
}

#[test]
fn carriage_return_forms() {
    let mut t = TelnetTokenizer::new();
    assert_eq!(collect(&mut t, b"a\r\nb"), vec![TelnetToken::Text(b"a"), TelnetToken::Text(b"\r\n"), TelnetToken::Text(b"b")]);
    assert_eq!(collect(&mut t, b"\r\0b"), vec![TelnetToken::Text(b"\r"), TelnetToken::Text(b"b")]);
    // A bare carriage return: the following byte is kept.
    assert_eq!(collect(&mut t, b"\rxy"), vec![TelnetToken::Text(b"\r"), TelnetToken::Text(b"xy")]);
}

#[test]
fn step_parser_steps_one_at_a_time() {
    let mut t = TelnetTokenizer::new();
    let mut stream = t.tokenize(b"\xFF\xFA\x05");
    // IAC: no token yet.
    assert_eq!(stream.step_parser(), None);
    assert_eq!(stream.state.state, ParseState::Command);
    assert_eq!(stream.data, b"\xFA\x05");
    // SB takes a channel byte: no token yet.
    assert_eq!(stream.step_parser(), None);
    assert_eq!(stream.state.state, ParseState::Subchannel(0xFA));
    assert_eq!(stream.step_parser(), Some(TelnetToken::Negotiation { command: 0xFA, channel: 5 }));
    assert_eq!(stream.state.state, ParseState::Neutral);
    assert_eq!(stream.data, b"");
}

#[test]
fn state_carries_across_chunks() {
    // A command split over two chunks decodes as if it came in one.
    let mut t = TelnetTokenizer::new();
    assert_eq!(collect(&mut t, b"\xFF"), vec![]);
    assert_eq!(t.state, ParseState::Command);
    assert_eq!(collect(&mut t, b"\xFB"), vec![]);
    assert_eq!(t.state, ParseState::Subchannel(0xFB));
    assert_eq!(collect(&mut t, b"\x18tail"), vec![TelnetToken::Negotiation { command: 0xFB, channel: 0x18 }, TelnetToken::Text(b"tail")]);

    let mut whole = TelnetTokenizer::new();
    assert_eq!(
        collect(&mut whole, b"\xFF\xFB\x18tail"),
        vec![TelnetToken::Negotiation { command: 0xFB, channel: 0x18 }, TelnetToken::Text(b"tail")]
    );
}

#[test]
fn carriage_return_split_across_chunks() {
    let mut t = TelnetTokenizer::new();
    assert_eq!(collect(&mut t, b"ab\r"), vec![TelnetToken::Text(b"ab")]);
    assert_eq!(t.state, ParseState::Carriage);
    assert_eq!(collect(&mut t, b"\ncd"), vec![TelnetToken::Text(b"\r\n"), TelnetToken::Text(b"cd")]);
}

#[test]
fn custom_long_commands() {
    let mut t = TelnetTokenizer::new();
    t.is_long_command = [false; 256];
    assert_eq!(collect(&mut t, b"\xFF\xFB\x01"), vec![TelnetToken::Command(0xFB), TelnetToken::Text(b"\x01")]);
    t.is_long_command[0x42] = true;
    assert_eq!(collect(&mut t, b"\xFF\x42\x07"), vec![TelnetToken::Negotiation { command: 0x42, channel: 7 }]);
}

#[test]
fn sample_stream() {
    let stream: [&[u8]; 3] = [b"abcdef\xFF\xFA\x20h", b"ello", b", world!\xFF\xF0\xFF\x42\xFF\xFE\x42"];
    let mut t = TelnetTokenizer::new();
    let mut all = Vec::new();
    for data in stream.iter() {
        all.extend(collect(&mut t, data));
    }
    assert_eq!(
        all,
        vec![
            TelnetToken::Text(b"abcdef"),
            TelnetToken::Negotiation { command: 0xFA, channel: 0x20 },
            TelnetToken::Text(b"h"),
            TelnetToken::Text(b"ello"),
            TelnetToken::Text(b", world!"),
            TelnetToken::Command(0xF0),
            TelnetToken::Command(0x42),
            TelnetToken::Negotiation { command: 0xFE, channel: 0x42 },
        ]
    );
}

#[test]
fn next_returns_none_only_when_exhausted() {
    let mut t = TelnetTokenizer::new();
    let mut stream = t.tokenize(b"ab\xFF\xFA");
    assert_eq!(stream.next(), Some(TelnetToken::Text(b"ab")));
    assert_eq!(stream.next(), None);
    assert!(stream.data.is_empty());
    assert_eq!(stream.state.state, ParseState::Subchannel(0xFA));
}

#[test]
fn neutral_text_never_holds_markers() {
    let mut t = TelnetTokenizer::new();
    for token in collect(&mut t, b"one\rtwo\xFF\xF1three\r\nfour") {
        if let TelnetToken::Text(text) = token {
            if text != b"\r\n" && text != b"\r" {
                assert!(!text.contains(&b'\r') && !text.contains(&0xFF));
            }
        }
    }
}

fn escape(x: &[u8]) -> Vec<u8> {
    let mut out = Vec::new();
    for &b in x {
        match b {
            0xFF => out.extend_from_slice(&[0xFF, 0xFF]),
            b'\r' => out.extend_from_slice(&[b'\r', 0]),
            _ => out.push(b),
        }
    }
    out
}

#[test]
fn escaped_bytes_round_trip() {
    let samples: [&[u8]; 5] = [b"", b"plain", b"\xFF", b"a\rb\xFF\xFFc\r\n\x00\xFB", b"\r\r\xFF\r"];
    for x in samples.iter() {
        let escaped = escape(x);
        let mut t = TelnetTokenizer::new();
        let mut joined = Vec::new();
        for token in collect(&mut t, &escaped) {
            match token {
                TelnetToken::Text(text) => joined.extend_from_slice(text),
                other => panic!("unexpected token {:?}", other),
            }
        }
        assert_eq!(&joined[..], *x);
        assert_eq!(t.state, ParseState::Neutral);
    }
}

fn merge(tokens: Vec<TelnetToken>) -> Vec<Result<Vec<u8>, String>> {
    let mut out: Vec<Result<Vec<u8>, String>> = Vec::new();
    for token in tokens {
        match token {
            TelnetToken::Text(text) => {
                if let Some(Ok(last)) = out.last_mut() {
                    last.extend_from_slice(text);
                } else {
                    out.push(Ok(text.to_vec()));
                }
            }
            other => out.push(Err(format!("{:?}", other))),
        }
    }
    out
}

#[test]
fn chunk_boundaries_do_not_change_merged_tokens() {
    let whole: &[u8] = b"ab\r\ncd\xFF\xF1ef\xFF\xFB\x03g\r\0h\rx\xFF\xFFy";
    let mut reference = TelnetTokenizer::new();
    let expected = merge(collect(&mut reference, whole));
    for split in 0..=whole.len() {
        let (a, b) = whole.split_at(split);
        let mut t = TelnetTokenizer::new();
        let mut tokens = collect(&mut t, a);
        tokens.extend(collect(&mut t, b));
        assert_eq!(merge(tokens), expected, "split at {}", split);
        assert_eq!(t.state, reference.state);
    }
}
