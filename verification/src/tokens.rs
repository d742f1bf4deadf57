//! The whole token sequence of a chunk, and the laws that hold of it: an
//! escaped byte string comes back as its text, and chunk boundaries do not
//! change the stream once adjacent text runs are joined.

use vstd::prelude::*;
use crate::iac;
use crate::parser::{
    ParseState, TokenView, is_marker, text_run, step_spec, next_spec, lemma_text_run,
    lemma_text_run_props, lemma_step_progress,
};

verus! {

/// A measure that every step of the tokenizer lowers: two per byte left,
/// plus one while a carriage return waits for the next byte (the one step
/// that may consume nothing).
pub open spec fn step_measure(state: ParseState, data: Seq<u8>) -> nat {
    2 * data.len() + if state is Carriage {
        1nat
    } else {
        0nat
    }
}

/// Every step on non-empty input lowers `step_measure`.
pub proof fn lemma_step_lowers_measure(state: ParseState, long: Seq<bool>, data: Seq<u8>)
    requires
        data.len() > 0,
    ensures
        step_measure(step_spec(state, long, data).1, step_spec(state, long, data).2)
            < step_measure(state, data),
{
    lemma_text_run_props(data);
    lemma_step_progress(state, long, data);
}

/// All the tokens that the tokenizer yields for `data` from `state`, in
/// order, and the state it ends in.
pub open spec fn tokens_of(state: ParseState, long: Seq<bool>, data: Seq<u8>) -> (
    Seq<TokenView>,
    ParseState,
)
    decreases step_measure(state, data),
{
    if data.len() == 0 {
        (Seq::empty(), state)
    } else {
        let (tok, s, rest) = step_spec(state, long, data);
        proof {
            lemma_step_lowers_measure(state, long, data);
        }
        let (later, end) = tokens_of(s, long, rest);
        (
            match tok {
                Some(t) => seq![t] + later,
                None => later,
            },
            end,
        )
    }
}


/// `next` yields the tokens of `tokens_of` one at a time: its token is the
/// first of them and the rest are those of what it leaves; when it yields
/// none, there are none and the chunk is used up.
pub proof fn lemma_next_yields_tokens(state: ParseState, long: Seq<bool>, data: Seq<u8>)
    ensures
        ({
            let (tok, s, rest) = next_spec(state, long, data);
            match tok {
                Some(t) => tokens_of(state, long, data) == (
                    seq![t] + tokens_of(s, long, rest).0,
                    tokens_of(s, long, rest).1,
                ),
                None => tokens_of(state, long, data) == (Seq::<TokenView>::empty(), s) && rest.len() == 0,
            }
        }),
    decreases data.len(),
{
    if data.len() > 0 {
        let (tok, s, rest) = step_spec(state, long, data);
        lemma_step_progress(state, long, data);
        if tok is None {
            lemma_next_yields_tokens(s, long, rest);
        }
    }
}

/// The text of a token sequence made of text alone, joined; `None` when it
/// holds a command or a negotiation.
pub open spec fn text_of(tokens: Seq<TokenView>) -> Option<Seq<u8>>
    decreases tokens.len(),
{
    if tokens.len() == 0 {
        Some(Seq::empty())
    } else {
        match tokens[0] {
            TokenView::Text(t) => match text_of(tokens.drop_first()) {
                Some(rest) => Some(t + rest),
                None => None,
            },
            _ => None,
        }
    }
}

/// `text_of` on a sequence with a first token.
proof fn lemma_text_of_cons(t: TokenView, ts: Seq<TokenView>)
    ensures
        text_of(seq![t] + ts) == match t {
            TokenView::Text(x) => match text_of(ts) {
                Some(rest) => Some(x + rest),
                None => None,
            },
            _ => None::<Seq<u8>>,
        },
{
    assert((seq![t] + ts).drop_first() =~= ts);
    assert((seq![t] + ts)[0] == t);
}

/// Text in the neutral state: a plain byte in front of the input is a plain
/// byte in front of the text, and the end state stays.
proof fn lemma_plain_byte_text(long: Seq<bool>, c: u8, r: Seq<u8>)
    requires
        !is_marker(c),
    ensures
        text_of(tokens_of(ParseState::Neutral, long, seq![c] + r).0) == match text_of(
            tokens_of(ParseState::Neutral, long, r).0,
        ) {
            Some(t) => Some(seq![c] + t),
            None => None::<Seq<u8>>,
        },
        tokens_of(ParseState::Neutral, long, seq![c] + r).1 == tokens_of(ParseState::Neutral, long, r).1,
{
    let d = seq![c] + r;
    lemma_text_run_props(r);
    let k: int = text_run(r) as int;
    assert forall|j: int| 0 <= j < k + 1 implies !is_marker(#[trigger] d[j]) by {
        if j > 0 {
            assert(d[j] == r[j - 1]);
        }
    }
    if k < r.len() {
        assert(d[k + 1] == r[k]);
    }
    lemma_text_run(d, k + 1);
    if k == r.len() {
        assert(d.take(k + 1) =~= d);
        assert(step_spec(ParseState::Neutral, long, d) == (Some(TokenView::Text(d)), ParseState::Neutral, Seq::<u8>::empty()));
        assert(tokens_of(ParseState::Neutral, long, Seq::<u8>::empty()).0 =~= Seq::<TokenView>::empty());
        assert(tokens_of(ParseState::Neutral, long, d).0 == seq![TokenView::Text(d)] + Seq::<TokenView>::empty());
        lemma_text_of_cons(TokenView::Text(d), Seq::empty());
        assert(text_of(Seq::<TokenView>::empty()) == Some(Seq::<u8>::empty()));
        assert(d + Seq::<u8>::empty() =~= d);
        assert(text_of(tokens_of(ParseState::Neutral, long, d).0) == Some(d));
        if r.len() == 0 {
            assert(d =~= seq![c]);
            assert(text_of(tokens_of(ParseState::Neutral, long, r).0) == Some(Seq::<u8>::empty()));
        } else {
            lemma_text_of_cons(TokenView::Text(r), Seq::empty());
            assert(r.take(k) =~= r);
            assert(r + Seq::<u8>::empty() =~= r);
        }
    } else {
        let s = step_spec(ParseState::Neutral, long, r).1;
        let rest = r.skip(k + 1);
        assert(d.skip(k + 2) =~= rest);
        assert(d.take(k + 1) =~= seq![c] + r.take(k));
        let later = tokens_of(s, long, rest).0;
        lemma_text_of_cons(TokenView::Text(seq![c] + r.take(k)), later);
        if k > 0 {
            lemma_text_of_cons(TokenView::Text(r.take(k)), later);
            match text_of(later) {
                Some(t) => {
                    assert(seq![c] + r.take(k) + t =~= seq![c] + (r.take(k) + t));
                },
                None => {},
            }
        } else {
            assert(r.take(0) =~= Seq::<u8>::empty());
            assert(seq![c] + Seq::<u8>::empty() =~= seq![c]);
        }
    }
}

/// The escaped form of a byte string: every IAC doubled, and every carriage
/// return followed by NUL.
pub open spec fn escape(x: Seq<u8>) -> Seq<u8>
    decreases x.len(),
{
    if x.len() == 0 {
        Seq::empty()
    } else {
        (if x[0] == iac::IAC {
            seq![iac::IAC, iac::IAC]
        } else if x[0] == 13 {
            seq![13u8, 0u8]
        } else {
            seq![x[0]]
        }) + escape(x.drop_first())
    }
}

/// Escaping round-trips: tokenizing the escaped form of any byte string
/// from the neutral state yields text alone, whose bytes joined are that
/// string, and ends neutral (unless 0xFF is configured as a command that
/// takes a channel byte).
pub proof fn lemma_escape_round_trip(long: Seq<bool>, x: Seq<u8>)
    requires
        long.len() == 256,
        !long[iac::IAC as int],
    ensures
        text_of(tokens_of(ParseState::Neutral, long, escape(x)).0) == Some(x),
        tokens_of(ParseState::Neutral, long, escape(x)).1 == ParseState::Neutral,
    decreases x.len(),
{
    if x.len() > 0 {
        let x1 = x.drop_first();
        lemma_escape_round_trip(long, x1);
        let e1 = escape(x1);
        assert(x =~= seq![x[0]] + x1);
        if x[0] == iac::IAC {
            let d = seq![iac::IAC, iac::IAC] + e1;
            assert(escape(x) == d);
            lemma_text_run(d, 0);
            let d1 = d.skip(1);
            assert(d1 =~= seq![iac::IAC] + e1);
            assert(d1[0] == iac::IAC);
            assert(d1.skip(1) =~= e1);
            assert(tokens_of(ParseState::Neutral, long, d) == tokens_of(ParseState::Command, long, d1));
            let later = tokens_of(ParseState::Neutral, long, e1).0;
            assert(tokens_of(ParseState::Command, long, d1).0 == seq![TokenView::Text(seq![iac::IAC])] + later);
            lemma_text_of_cons(TokenView::Text(seq![iac::IAC]), later);
        } else if x[0] == 13 {
            let d = seq![13u8, 0u8] + e1;
            assert(escape(x) == d);
            lemma_text_run(d, 0);
            let d1 = d.skip(1);
            assert(d1 =~= seq![0u8] + e1);
            assert(d1[0] == 0u8);
            assert(d1.skip(1) =~= e1);
            assert(tokens_of(ParseState::Neutral, long, d) == tokens_of(ParseState::Carriage, long, d1));
            let later = tokens_of(ParseState::Neutral, long, e1).0;
            assert(tokens_of(ParseState::Carriage, long, d1).0 == seq![TokenView::Text(seq![13u8])] + later);
            lemma_text_of_cons(TokenView::Text(seq![13u8]), later);
        } else {
            assert(escape(x) == seq![x[0]] + e1);
            lemma_plain_byte_text(long, x[0], e1);
        }
    }
}

/// A token in front of a sequence whose adjacent text runs are already
/// joined: a text token joins a text token that follows it.
pub open spec fn join_front(t: TokenView, rest: Seq<TokenView>) -> Seq<TokenView> {
    match t {
        TokenView::Text(x) => if rest.len() > 0 {
            match rest[0] {
                TokenView::Text(y) => seq![TokenView::Text(x + y)] + rest.drop_first(),
                _ => seq![t] + rest,
            }
        } else {
            seq![t] + rest
        },
        _ => seq![t] + rest,
    }
}

/// A token sequence with every run of adjacent text tokens joined into one.
pub open spec fn merge_text(tokens: Seq<TokenView>) -> Seq<TokenView>
    decreases tokens.len(),
{
    if tokens.len() == 0 {
        Seq::empty()
    } else {
        join_front(tokens[0], merge_text(tokens.drop_first()))
    }
}

/// `merge_text` on a sequence with a first token.
proof fn lemma_merge_cons(t: TokenView, ts: Seq<TokenView>)
    ensures
        merge_text(seq![t] + ts) == join_front(t, merge_text(ts)),
{
    assert((seq![t] + ts).drop_first() =~= ts);
    assert((seq![t] + ts)[0] == t);
}

/// Two text tokens in front join into one.
proof fn lemma_join_texts(x: Seq<u8>, y: Seq<u8>, z: Seq<TokenView>)
    ensures
        join_front(TokenView::Text(x), join_front(TokenView::Text(y), z)) == join_front(
            TokenView::Text(x + y),
            z,
        ),
{
    if z.len() > 0 {
        match z[0] {
            TokenView::Text(w) => {
                let inner = seq![TokenView::Text(y + w)] + z.drop_first();
                assert(inner[0] == TokenView::Text(y + w));
                assert(inner.drop_first() =~= z.drop_first());
                assert(x + (y + w) =~= (x + y) + w);
            },
            _ => {
                let inner = seq![TokenView::Text(y)] + z;
                assert(inner[0] == TokenView::Text(y));
                assert(inner.drop_first() =~= z);
            },
        }
    } else {
        let inner = seq![TokenView::Text(y)] + z;
        assert(inner[0] == TokenView::Text(y));
        assert(inner.drop_first() =~= z);
    }
}

/// In the neutral state, a plain byte in front of the input is a text
/// token `[c]` in front of the joined tokens, and the end state stays.
proof fn lemma_plain_byte_merge(long: Seq<bool>, c: u8, r: Seq<u8>)
    requires
        !is_marker(c),
    ensures
        merge_text(tokens_of(ParseState::Neutral, long, seq![c] + r).0) == join_front(
            TokenView::Text(seq![c]),
            merge_text(tokens_of(ParseState::Neutral, long, r).0),
        ),
        tokens_of(ParseState::Neutral, long, seq![c] + r).1 == tokens_of(ParseState::Neutral, long, r).1,
{
    let d = seq![c] + r;
    lemma_text_run_props(r);
    let k: int = text_run(r) as int;
    assert forall|j: int| 0 <= j < k + 1 implies !is_marker(#[trigger] d[j]) by {
        if j > 0 {
            assert(d[j] == r[j - 1]);
        }
    }
    if k < r.len() {
        assert(d[k + 1] == r[k]);
    }
    lemma_text_run(d, k + 1);
    assert(tokens_of(ParseState::Neutral, long, Seq::<u8>::empty()).0 =~= Seq::<TokenView>::empty());
    assert(merge_text(Seq::<TokenView>::empty()) =~= Seq::<TokenView>::empty());
    if k == r.len() {
        assert(d.take(k + 1) =~= d);
        assert(tokens_of(ParseState::Neutral, long, d).0 == seq![TokenView::Text(d)] + Seq::<TokenView>::empty());
        lemma_merge_cons(TokenView::Text(d), Seq::empty());
        if r.len() == 0 {
            assert(d =~= seq![c]);
        } else {
            assert(r.take(k) =~= r);
            assert(tokens_of(ParseState::Neutral, long, r).0 == seq![TokenView::Text(r)] + Seq::<TokenView>::empty());
            lemma_merge_cons(TokenView::Text(r), Seq::empty());
            lemma_join_texts(seq![c], r, Seq::empty());
            assert(join_front(TokenView::Text(r), Seq::<TokenView>::empty()) =~= seq![TokenView::Text(r)]);
            assert(join_front(TokenView::Text(d), Seq::<TokenView>::empty()) =~= seq![TokenView::Text(d)]);
            let one = seq![TokenView::Text(r)];
            assert(one[0] == TokenView::Text(r));
            assert(one.drop_first() =~= Seq::<TokenView>::empty());
        }
    } else {
        let s = step_spec(ParseState::Neutral, long, r).1;
        let rest = r.skip(k + 1);
        assert(d.skip(k + 2) =~= rest);
        assert(d.take(k + 1) =~= seq![c] + r.take(k));
        let later = tokens_of(s, long, rest).0;
        lemma_merge_cons(TokenView::Text(seq![c] + r.take(k)), later);
        if k > 0 {
            lemma_merge_cons(TokenView::Text(r.take(k)), later);
            lemma_join_texts(seq![c], r.take(k), merge_text(later));
        } else {
            assert(r.take(0) =~= Seq::<u8>::empty());
            assert(seq![c] + Seq::<u8>::empty() =~= seq![c]);
        }
    }
}

/// Input with no carriage return and no IAC in front of `b`, in the neutral
/// state, is one text token in front of the joined tokens of `b`.
proof fn lemma_plain_prefix_merge(long: Seq<bool>, a: Seq<u8>, b: Seq<u8>)
    requires
        a.len() > 0,
        forall|j: int| 0 <= j < a.len() ==> !is_marker(#[trigger] a[j]),
    ensures
        merge_text(tokens_of(ParseState::Neutral, long, a + b).0) == join_front(
            TokenView::Text(a),
            merge_text(tokens_of(ParseState::Neutral, long, b).0),
        ),
        tokens_of(ParseState::Neutral, long, a + b).1 == tokens_of(ParseState::Neutral, long, b).1,
    decreases a.len(),
{
    let c = a[0];
    let a1 = a.drop_first();
    assert(a + b =~= seq![c] + (a1 + b));
    lemma_plain_byte_merge(long, c, a1 + b);
    if a1.len() == 0 {
        assert(a1 + b =~= b);
        assert(a =~= seq![c]);
    } else {
        assert forall|j: int| 0 <= j < a1.len() implies !is_marker(#[trigger] a1[j]) by {
            assert(a1[j] == a[j + 1]);
        }
        lemma_plain_prefix_merge(long, a1, b);
        lemma_join_texts(seq![c], a1, merge_text(tokens_of(ParseState::Neutral, long, b).0));
        assert(seq![c] + a1 =~= a);
    }
}

/// A step that ends inside `a` is the same step on `a + b`, with `b` left
/// behind it.
proof fn lemma_step_extends(state: ParseState, long: Seq<bool>, a: Seq<u8>, b: Seq<u8>)
    requires
        a.len() > 0,
        !(state is Neutral && text_run(a) == a.len()),
    ensures
        step_spec(state, long, a + b) == (
            step_spec(state, long, a).0,
            step_spec(state, long, a).1,
            step_spec(state, long, a).2 + b,
        ),
{
    lemma_text_run_props(a);
    assert((a + b)[0] == a[0]);
    assert((a + b).skip(1) =~= a.skip(1) + b);
    if state is Neutral {
        let k: int = text_run(a) as int;
        assert forall|j: int| 0 <= j < k implies !is_marker(#[trigger] (a + b)[j]) by {
            assert((a + b)[j] == a[j]);
        }
        assert((a + b)[k] == a[k]);
        lemma_text_run(a + b, k);
        assert((a + b).take(k) =~= a.take(k));
        assert((a + b).skip(k + 1) =~= a.skip(k + 1) + b);
    }
}

/// Chunk boundaries do not change the token stream once adjacent text runs
/// are joined: the tokens of `a` followed by those of `b` (from the state
/// `a` ends in) join into the same sequence as the tokens of `a + b`, and
/// the tokenizer ends in the same state.
pub proof fn lemma_chunks_merge(state: ParseState, long: Seq<bool>, a: Seq<u8>, b: Seq<u8>)
    ensures
        merge_text(
            tokens_of(state, long, a).0 + tokens_of(tokens_of(state, long, a).1, long, b).0,
        ) == merge_text(tokens_of(state, long, a + b).0),
        tokens_of(tokens_of(state, long, a).1, long, b).1 == tokens_of(state, long, a + b).1,
    decreases step_measure(state, a),
{
    if a.len() == 0 {
        assert(a + b =~= b);
        assert(Seq::<TokenView>::empty() + tokens_of(state, long, b).0 =~= tokens_of(state, long, b).0);
    } else {
        lemma_text_run_props(a);
        let (tok, s1, r1) = step_spec(state, long, a);
        let mid = tokens_of(state, long, a).1;
        let tb = tokens_of(mid, long, b).0;
        if state is Neutral && text_run(a) == a.len() {
            assert(a.take(a.len() as int) =~= a);
            assert(tokens_of(ParseState::Neutral, long, Seq::<u8>::empty()).0 =~= Seq::<TokenView>::empty());
            assert(tokens_of(state, long, a).0 == seq![TokenView::Text(a)] + Seq::<TokenView>::empty());
            assert(seq![TokenView::Text(a)] + Seq::<TokenView>::empty() + tb =~= seq![TokenView::Text(a)] + tb);
            lemma_merge_cons(TokenView::Text(a), tb);
            lemma_plain_prefix_merge(long, a, b);
        } else {
            lemma_step_lowers_measure(state, long, a);
            lemma_step_extends(state, long, a, b);
            lemma_step_progress(state, long, a);
            lemma_chunks_merge(s1, long, r1, b);
            let t1 = tokens_of(s1, long, r1).0;
            let t1b = tokens_of(s1, long, r1 + b).0;
            assert((a + b).len() > 0);
            match tok {
                Some(t) => {
                    assert(seq![t] + t1 + tb =~= seq![t] + (t1 + tb));
                    lemma_merge_cons(t, t1 + tb);
                    lemma_merge_cons(t, t1b);
                },
                None => {
                },
            }
        }
    }
}

} // verus!
