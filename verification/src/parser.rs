//! The telnet tokenizer: splits a byte stream into text runs, commands and
//! option negotiations, keeping its state between chunks of input.

use vstd::prelude::*;
use vstd::slice::slice_subrange;
use crate::iac;

verus! {

/// Where the tokenizer stands between two bytes of the stream.
#[derive(Debug, Clone, Copy, PartialEq, Eq, Structural)]
pub enum ParseState {
    /// Reading plain text.
    Neutral,
    /// A carriage return was read.
    Carriage,
    /// An IAC byte was read.
    Command,
    /// An IAC and a command that takes a channel byte were read.
    Subchannel(u8),
}

/// One token of the stream. Text borrows from the input where it can.
#[derive(Debug, Clone, Copy, PartialEq, Eq)]
pub enum TelnetToken<'a> {
    Text(&'a [u8]),
    Command(u8),
    Negotiation { command: u8, channel: u8 },
}

/// The mathematical content of a token.
pub ghost enum TokenView {
    Text(Seq<u8>),
    Command(u8),
    Negotiation { command: u8, channel: u8 },
}

impl<'a> View for TelnetToken<'a> {
    type V = TokenView;

    open spec fn view(&self) -> TokenView {
        match *self {
            TelnetToken::Text(t) => TokenView::Text(t@),
            TelnetToken::Command(c) => TokenView::Command(c),
            TelnetToken::Negotiation { command, channel } => TokenView::Negotiation {
                command,
                channel,
            },
        }
    }
}

/// The content of an optional token.
pub open spec fn opt_token_view(t: Option<TelnetToken>) -> Option<TokenView> {
    match t {
        Some(tok) => Some(tok@),
        None => None,
    }
}

/// Bytes that end a run of plain text: carriage return and IAC.
pub open spec fn is_marker(b: u8) -> bool {
    b == 13 || b == iac::IAC
}

/// The length of the longest prefix of `data` that holds no marker byte.
pub open spec fn text_run(data: Seq<u8>) -> nat
    decreases data.len(),
{
    if data.len() == 0 {
        0
    } else if is_marker(data[0]) {
        0
    } else {
        1 + text_run(data.drop_first())
    }
}

/// The commands that a tokenizer made by `TelnetTokenizer::new` treats as
/// followed by a channel byte: WILL, WONT, DO, DONT and SB.
pub open spec fn default_long_command(cmd: int) -> bool {
    250 <= cmd <= 254
}

/// One step of the tokenizer on non-empty `data`: the token it yields (if
/// any), the state it moves to, and the input that is left.
/// `long` tells, for each command byte, whether a channel byte follows it.
pub open spec fn step_spec(state: ParseState, long: Seq<bool>, data: Seq<u8>) -> (
    Option<TokenView>,
    ParseState,
    Seq<u8>,
) {
    match state {
        ParseState::Neutral => {
            let k = text_run(data);
            if k == data.len() {
                (Some(TokenView::Text(data)), ParseState::Neutral, Seq::empty())
            } else {
                (
                    if k == 0 {
                        None
                    } else {
                        Some(TokenView::Text(data.take(k as int)))
                    },
                    if data[k as int] == 13 {
                        ParseState::Carriage
                    } else {
                        ParseState::Command
                    },
                    data.skip(k as int + 1),
                )
            }
        },
        ParseState::Carriage => {
            if data[0] == 10 {
                (Some(TokenView::Text(seq![13u8, 10u8])), ParseState::Neutral, data.skip(1))
            } else if data[0] == 0 {
                (Some(TokenView::Text(seq![13u8])), ParseState::Neutral, data.skip(1))
            } else {
                // A bare carriage return: yield it and leave the byte in place.
                (Some(TokenView::Text(seq![13u8])), ParseState::Neutral, data)
            }
        },
        ParseState::Command => {
            if long[data[0] as int] {
                (None, ParseState::Subchannel(data[0]), data.skip(1))
            } else if data[0] == iac::IAC {
                (Some(TokenView::Text(seq![iac::IAC])), ParseState::Neutral, data.skip(1))
            } else {
                (Some(TokenView::Command(data[0])), ParseState::Neutral, data.skip(1))
            }
        },
        ParseState::Subchannel(command) => {
            (
                Some(TokenView::Negotiation { command, channel: data[0] }),
                ParseState::Neutral,
                data.skip(1),
            )
        },
    }
}

/// What the tokenizer's `next` does: take steps until one yields a token or
/// the input is exhausted.
pub open spec fn next_spec(state: ParseState, long: Seq<bool>, data: Seq<u8>) -> (
    Option<TokenView>,
    ParseState,
    Seq<u8>,
)
    decreases data.len(),
{
    if data.len() == 0 {
        (None, state, data)
    } else {
        let (tok, s, rest) = step_spec(state, long, data);
        if tok is Some {
            (tok, s, rest)
        } else {
            next_spec(s, long, rest)
        }
    }
}

/// The tokenizer: its state between chunks, and the table that tells which
/// command bytes are followed by a channel byte.
pub struct TelnetTokenizer {
    pub state: ParseState,
    /// Entry `c` tells whether the command byte `c` is followed by a channel
    /// byte. Any predicate on command bytes can be written in this table.
    pub is_long_command: [bool; 256],
}

impl TelnetTokenizer {
    pub fn new() -> (t: TelnetTokenizer)
        ensures
            t.state == ParseState::Neutral,
            forall|c: int| 0 <= c < 256 ==> #[trigger] t.is_long_command@[c] == default_long_command(c),
    {
        let mut table = [false; 256];
        let mut c: usize = 250;
        while c <= 254
            invariant
                250 <= c <= 255,
                table@.len() == 256,
                forall|j: int| 0 <= j < 256 ==> table@[j] == (250 <= j < c),
            decreases 255 - c,
        {
            table[c] = true;
            c = c + 1;
        }
        TelnetTokenizer { state: ParseState::Neutral, is_long_command: table }
    }

    /// Starts tokenizing one chunk of input; the state reached at the end of
    /// the chunk stays in the tokenizer for the next chunk.
    pub fn tokenize<'a, 'b>(&'a mut self, data: &'b [u8]) -> (s: TokenStream<'a, 'b>)
        ensures
            *s.state == *old(self),
            s.data@ == data@,
            *final(self) == *final(s.state),
    {
        TokenStream { state: self, data: data }
    }
}

/// A chunk of input being tokenized, tied to the tokenizer whose state it
/// advances.
pub struct TokenStream<'a, 'b> {
    pub state: &'a mut TelnetTokenizer,
    pub data: &'b [u8],
}

type ParseResult<'b> = (Option<TelnetToken<'b>>, ParseState, &'b [u8]);

/// A literal carriage return, line feed.
fn crlf_text() -> (t: &'static [u8])
    ensures
        t@ == seq![13u8, 10u8],
{
    &[13u8, 10u8]
}

/// A literal carriage return.
fn cr_text() -> (t: &'static [u8])
    ensures
        t@ == seq![13u8],
{
    &[13u8]
}

/// A literal IAC byte.
fn iac_text() -> (t: &'static [u8])
    ensures
        t@ == seq![iac::IAC],
{
    &[iac::IAC]
}

/// The characterisation of `text_run`: the first marker's index, or the
/// length when there is none.
pub proof fn lemma_text_run(data: Seq<u8>, k: int)
    requires
        0 <= k <= data.len(),
        forall|j: int| 0 <= j < k ==> !is_marker(#[trigger] data[j]),
        k == data.len() || is_marker(data[k]),
    ensures
        text_run(data) == k,
    decreases k,
{
    if k > 0 {
        assert forall|j: int| 0 <= j < k - 1 implies !is_marker(#[trigger] data.drop_first()[j]) by {
            assert(data.drop_first()[j] == data[j + 1]);
        }
        lemma_text_run(data.drop_first(), k - 1);
    }
}


/// The defining properties of `text_run`: it does not exceed the length,
/// no byte before it is a marker, and the byte at it, if any, is one.
pub proof fn lemma_text_run_props(data: Seq<u8>)
    ensures
        text_run(data) <= data.len(),
        forall|j: int| 0 <= j < text_run(data) ==> !is_marker(#[trigger] data[j]),
        text_run(data) < data.len() ==> is_marker(data[text_run(data) as int]),
    decreases data.len(),
{
    if data.len() > 0 && !is_marker(data[0]) {
        lemma_text_run_props(data.drop_first());
        assert forall|j: int| 0 <= j < text_run(data) implies !is_marker(#[trigger] data[j]) by {
            if j > 0 {
                assert(data[j] == data.drop_first()[j - 1]);
            }
        }
    }
}

/// Every step on non-empty input leaves a suffix of that input, and a step
/// that yields no token consumes at least one byte.
pub proof fn lemma_step_progress(state: ParseState, long: Seq<bool>, data: Seq<u8>)
    requires
        data.len() > 0,
    ensures
        ({
            let (tok, s, rest) = step_spec(state, long, data);
            &&& rest.len() <= data.len()
            &&& rest == data.skip(data.len() - rest.len())
            &&& (tok is None ==> rest.len() < data.len())
        }),
{
    lemma_text_run_props(data);
    let (tok, s, rest) = step_spec(state, long, data);
    if state is Neutral && text_run(data) == data.len() {
        assert(rest == data.skip(data.len() - rest.len()));
    }
}

/// A text token yielded from the neutral state never holds a carriage
/// return or an IAC byte: those always start a new token.
pub proof fn lemma_neutral_text_has_no_marker(long: Seq<bool>, data: Seq<u8>)
    requires
        data.len() > 0,
    ensures
        step_spec(ParseState::Neutral, long, data).0 matches Some(TokenView::Text(t)) ==> forall|
            j: int,
        |
            0 <= j < t.len() ==> !is_marker(#[trigger] t[j]),
{
    lemma_text_run_props(data);
}

/// `next` yields nothing only when it has used up the whole chunk.
pub proof fn lemma_next_none_exhausts(state: ParseState, long: Seq<bool>, data: Seq<u8>)
    ensures
        next_spec(state, long, data).0 is None ==> next_spec(state, long, data).2.len() == 0,
    decreases data.len(),
{
    if data.len() > 0 {
        let (tok, s, rest) = step_spec(state, long, data);
        if tok is None {
            lemma_step_progress(state, long, data);
            lemma_next_none_exhausts(s, long, rest);
        }
    }
}

/// Plain text, with no carriage return and no IAC, comes back whole as one
/// text token, and the tokenizer stays neutral.
pub proof fn lemma_plain_text(long: Seq<bool>, data: Seq<u8>)
    requires
        data.len() > 0,
        forall|j: int| 0 <= j < data.len() ==> !is_marker(#[trigger] data[j]),
    ensures
        next_spec(ParseState::Neutral, long, data) == (
            Some(TokenView::Text(data)),
            ParseState::Neutral,
            Seq::<u8>::empty(),
        ),
{
    lemma_text_run(data, data.len() as int);
}

/// A doubled IAC is the escaped data byte 0xFF, unless 0xFF is configured
/// as a command followed by a channel byte.
pub proof fn lemma_escaped_iac(long: Seq<bool>, rest: Seq<u8>)
    requires
        long.len() == 256,
        !long[iac::IAC as int],
    ensures
        next_spec(ParseState::Neutral, long, seq![iac::IAC, iac::IAC] + rest) == (
            Some(TokenView::Text(seq![iac::IAC])),
            ParseState::Neutral,
            rest,
        ),
{
    reveal_with_fuel(next_spec, 2);
    let data = seq![iac::IAC, iac::IAC] + rest;
    lemma_text_run(data, 0);
    assert(data.skip(1)[0] == iac::IAC);
    assert(data.skip(1).skip(1) == rest);
}

/// IAC followed by a plain command byte is that command.
pub proof fn lemma_plain_command(long: Seq<bool>, c: u8, rest: Seq<u8>)
    requires
        long.len() == 256,
        !long[c as int],
        c != iac::IAC,
    ensures
        next_spec(ParseState::Neutral, long, seq![iac::IAC, c] + rest) == (
            Some(TokenView::Command(c)),
            ParseState::Neutral,
            rest,
        ),
{
    reveal_with_fuel(next_spec, 2);
    let data = seq![iac::IAC, c] + rest;
    lemma_text_run(data, 0);
    assert(data.skip(1)[0] == c);
    assert(data.skip(1).skip(1) == rest);
}

/// IAC, a command that takes a channel, and a channel byte form one
/// negotiation.
pub proof fn lemma_negotiation(long: Seq<bool>, c: u8, channel: u8, rest: Seq<u8>)
    requires
        long.len() == 256,
        long[c as int],
    ensures
        next_spec(ParseState::Neutral, long, seq![iac::IAC, c, channel] + rest) == (
            Some(TokenView::Negotiation { command: c, channel }),
            ParseState::Neutral,
            rest,
        ),
{
    reveal_with_fuel(next_spec, 3);
    let data = seq![iac::IAC, c, channel] + rest;
    lemma_text_run(data, 0);
    let d1 = data.skip(1);
    assert(d1[0] == c);
    let d2 = d1.skip(1);
    assert(d2.len() > 0);
    assert(d2[0] == channel);
    assert(d2.skip(1) == rest);
}

/// Carriage return and line feed come back together as one text token; a
/// carriage return followed by NUL is a lone carriage return, and the NUL
/// is dropped.
pub proof fn lemma_carriage_return(long: Seq<bool>, rest: Seq<u8>)
    ensures
        next_spec(ParseState::Neutral, long, seq![13u8, 10u8] + rest) == (
            Some(TokenView::Text(seq![13u8, 10u8])),
            ParseState::Neutral,
            rest,
        ),
        next_spec(ParseState::Neutral, long, seq![13u8, 0u8] + rest) == (
            Some(TokenView::Text(seq![13u8])),
            ParseState::Neutral,
            rest,
        ),
{
    reveal_with_fuel(next_spec, 2);
    let a = seq![13u8, 10u8] + rest;
    lemma_text_run(a, 0);
    assert(a.skip(1)[0] == 10u8);
    assert(a.skip(1).skip(1) == rest);
    let b = seq![13u8, 0u8] + rest;
    lemma_text_run(b, 0);
    assert(b.skip(1)[0] == 0u8);
    assert(b.skip(1).skip(1) == rest);
}

/// A carriage return followed by any other byte is yielded alone, and that
/// byte is kept for the next token.
pub proof fn lemma_bare_carriage_return(long: Seq<bool>, b: u8, rest: Seq<u8>)
    requires
        b != 10,
        b != 0,
    ensures
        next_spec(ParseState::Neutral, long, seq![13u8, b] + rest) == (
            Some(TokenView::Text(seq![13u8])),
            ParseState::Neutral,
            seq![b] + rest,
        ),
{
    reveal_with_fuel(next_spec, 2);
    let a = seq![13u8, b] + rest;
    lemma_text_run(a, 0);
    assert(a.skip(1)[0] == b);
    assert(a.skip(1) == seq![b] + rest);
}

/// One step on a prefix that yields no token is the same step on any
/// longer input.
proof fn lemma_silent_step_extends(state: ParseState, long: Seq<bool>, a: Seq<u8>, b: Seq<u8>)
    requires
        a.len() > 0,
        step_spec(state, long, a).0 is None,
    ensures
        step_spec(state, long, a + b) == (
            None::<TokenView>,
            step_spec(state, long, a).1,
            step_spec(state, long, a).2 + b,
        ),
{
    lemma_text_run_props(a);
    assert((a + b)[0] == a[0]);
    if state is Neutral {
        lemma_text_run(a + b, 0);
        assert((a + b).skip(1) == a.skip(1) + b);
    } else {
        assert((a + b).skip(1) == a.skip(1) + b);
    }
}

/// Chunk boundaries do not matter for bytes that yield no token: feeding
/// `a` and then `b` as separate chunks gives the same next token, state and
/// remaining input as feeding `a + b` at once, whenever `a` alone yields no
/// token (so the tokenizer's state carries what `a` began, such as a command
/// split across two chunks).
pub proof fn lemma_chunk_split(state: ParseState, long: Seq<bool>, a: Seq<u8>, b: Seq<u8>)
    requires
        next_spec(state, long, a).0 is None,
    ensures
        next_spec(state, long, a + b) == next_spec(next_spec(state, long, a).1, long, b),
    decreases a.len(),
{
    if a.len() == 0 {
        assert(a + b == b);
    } else {
        let (tok, s, rest) = step_spec(state, long, a);
        lemma_step_progress(state, long, a);
        lemma_silent_step_extends(state, long, a, b);
        assert((a + b).len() > 0);
        lemma_chunk_split(s, long, rest, b);
    }
}

impl<'a, 'b> TokenStream<'a, 'b> {
    fn carriage_state(&self) -> (r: ParseResult<'b>)
        requires
            self.data@.len() > 0,
        ensures
            (opt_token_view(r.0), r.1, r.2@) == step_spec(
                ParseState::Carriage,
                old(self.state).is_long_command@,
                self.data@,
            ),
    {
        if self.data[0] == 10 {
            (Some(TelnetToken::Text(crlf_text())), ParseState::Neutral, slice_subrange(self.data, 1, self.data.len()))
        } else if self.data[0] == 0 {
            (Some(TelnetToken::Text(cr_text())), ParseState::Neutral, slice_subrange(self.data, 1, self.data.len()))
        } else {
            (Some(TelnetToken::Text(cr_text())), ParseState::Neutral, self.data)
        }
    }

    fn command_state(&self) -> (r: ParseResult<'b>)
        requires
            self.data@.len() > 0,
        ensures
            (opt_token_view(r.0), r.1, r.2@) == step_spec(
                ParseState::Command,
                old(self.state).is_long_command@,
                self.data@,
            ),
    {
        let b = self.data[0];
        let rest = slice_subrange(self.data, 1, self.data.len());
        if self.state.is_long_command[b as usize] {
            (None, ParseState::Subchannel(b), rest)
        } else if b == iac::IAC {
            (Some(TelnetToken::Text(iac_text())), ParseState::Neutral, rest)
        } else {
            (Some(TelnetToken::Command(b)), ParseState::Neutral, rest)
        }
    }

    fn subchannel_state(&self, command: u8) -> (r: ParseResult<'b>)
        requires
            self.data@.len() > 0,
        ensures
            (opt_token_view(r.0), r.1, r.2@) == step_spec(
                ParseState::Subchannel(command),
                old(self.state).is_long_command@,
                self.data@,
            ),
    {
        (
            Some(TelnetToken::Negotiation { command: command, channel: self.data[0] }),
            ParseState::Neutral,
            slice_subrange(self.data, 1, self.data.len()),
        )
    }

    fn neutral_state(&self) -> (r: ParseResult<'b>)
        requires
            self.data@.len() > 0,
        ensures
            (opt_token_view(r.0), r.1, r.2@) == step_spec(
                ParseState::Neutral,
                old(self.state).is_long_command@,
                self.data@,
            ),
    {
        let data = self.data;
        let len = data.len();
        let mut idx: usize = 0;
        while idx < len && !(data[idx] == 13 || data[idx] == iac::IAC)
            invariant
                len == data@.len(),
                0 <= idx <= len,
                forall|j: int| 0 <= j < idx ==> !is_marker(#[trigger] data@[j]),
            decreases len - idx,
        {
            idx = idx + 1;
        }
        proof {
            lemma_text_run(data@, idx as int);
        }
        if idx < len {
            let token = if idx == 0 {
                None
            } else {
                Some(TelnetToken::Text(slice_subrange(data, 0, idx)))
            };
            let state = if data[idx] == 13 {
                ParseState::Carriage
            } else {
                ParseState::Command
            };
            (token, state, slice_subrange(data, idx + 1, len))
        } else {
            // The whole block is text.
            proof {
                assert(data@.subrange(0, len as int) == data@);
            }
            (Some(TelnetToken::Text(data)), ParseState::Neutral, slice_subrange(data, len, len))
        }
    }

    /// Takes one step of the tokenizer. Returns `None` without a change when
    /// the chunk is exhausted, and also for a step that yields no token.
    pub fn step_parser(&mut self) -> (r: Option<TelnetToken<'b>>)
        ensures
            old(self).data@.len() == 0 ==> r is None && final(self).data@ == old(self).data@
                && *final(self).state == *old(self).state,
            old(self).data@.len() > 0 ==> (opt_token_view(r), final(self).state.state, final(self).data@)
                == step_spec(
                old(self).state.state,
                old(self).state.is_long_command@,
                old(self).data@,
            ),
            final(self).state.is_long_command == old(self).state.is_long_command,
            *final(final(self).state) == *final(old(self).state),
    {
        if self.data.len() == 0 {
            return None;
        }
        let (token, state, data) = match self.state.state {
            ParseState::Neutral => self.neutral_state(),
            ParseState::Carriage => self.carriage_state(),
            ParseState::Command => self.command_state(),
            ParseState::Subchannel(command) => self.subchannel_state(command),
        };
        self.state.state = state;
        self.data = data;
        token
    }

    /// Yields the next token of the chunk, taking as many steps as that
    /// needs; `None` once the chunk is exhausted.
    pub fn next(&mut self) -> (r: Option<TelnetToken<'b>>)
        ensures
            (opt_token_view(r), final(self).state.state, final(self).data@) == next_spec(
                old(self).state.state,
                old(self).state.is_long_command@,
                old(self).data@,
            ),
            final(self).state.is_long_command == old(self).state.is_long_command,
            *final(final(self).state) == *final(old(self).state),
    {
        let ghost long = self.state.is_long_command@;
        let ghost goal = next_spec(self.state.state, long, self.data@);
        while self.data.len() > 0
            invariant
                self.state.is_long_command@ == long,
                self.state.is_long_command == old(self).state.is_long_command,
                *final(self.state) == *final(old(self).state),
                next_spec(self.state.state, long, self.data@) == goal,
                goal == next_spec(old(self).state.state, long, old(self).data@),
            decreases self.data@.len(),
        {
            let token = self.step_parser();
            if token.is_some() {
                return token;
            }
        }
        None
    }
}

} // verus!
