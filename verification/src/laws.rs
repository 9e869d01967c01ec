//! Properties the renderer is proved to keep, stated on their own so a
//! reader can see them without following the function contracts.

use vstd::prelude::*;

use crate::pattern::{plain_fmt, Field, Fmt, TokenV};
use crate::record::{parts_ok, record_of_parts, PartsV, RecordV};
use crate::render::{fmt_applied, render_chars, spaces, token_chars};

verus! {

/// A layout of just the message placeholder and the line terminator
/// reproduces the record's message exactly, terminated by a newline:
/// rendering never escapes, trims or reorders the message text, whatever
/// the record, the context store and the color flag.
pub proof fn lemma_message_round_trip(r: RecordV, m: Seq<(Seq<char>, Seq<char>)>, color: bool)
    ensures
        render_chars(
            seq![TokenV::Field(Field::Message, plain_fmt()), TokenV::Newline],
            r,
            m,
            color,
        ) == r.message + seq!['\n'],
{
    let ts = seq![TokenV::Field(Field::Message, plain_fmt()), TokenV::Newline];
    assert(ts.drop_first() =~= seq![TokenV::Newline]);
    assert(seq![TokenV::Newline].drop_first() =~= Seq::<TokenV>::empty());
    assert(render_chars(Seq::<TokenV>::empty(), r, m, color) == Seq::<char>::empty());
    assert(render_chars(seq![TokenV::Newline], r, m, color) == seq!['\n'] + Seq::<char>::empty());
    assert(token_chars(ts[0], r, m, color) == r.message);
    assert(render_chars(ts, r, m, color) == r.message + (seq!['\n'] + Seq::<char>::empty()));
    assert(r.message + (seq!['\n'] + Seq::<char>::empty()) =~= r.message + seq!['\n']);
}

/// Decoding followed by rendering: plain fields that validate decode to
/// a record whose rendering under a message-only layout is exactly the
/// input's message text, newline-terminated.
pub proof fn lemma_decode_render_message(p: PartsV, m: Seq<(Seq<char>, Seq<char>)>, color: bool)
    requires
        parts_ok(p),
    ensures
        render_chars(
            seq![TokenV::Field(Field::Message, plain_fmt()), TokenV::Newline],
            record_of_parts(p),
            m,
            color,
        ) == p.message + seq!['\n'],
{
    lemma_message_round_trip(record_of_parts(p), m, color);
}

/// A value longer than the precision renders cut to exactly `precision`
/// characters: the value's first `precision` characters.
pub proof fn lemma_truncation(f: Fmt, s: Seq<char>, p: usize)
    requires
        f.precision == Some(p),
        f.width is None,
        s.len() > p,
    ensures
        fmt_applied(f, s) == s.take(p as int),
        fmt_applied(f, s).len() == p,
{
}

/// A value shorter than the width renders padded with spaces to exactly
/// `width` characters, on the side the alignment names: spaces after the
/// value when it is left-aligned, before it otherwise.
pub proof fn lemma_padding(f: Fmt, s: Seq<char>, w: usize)
    requires
        f.width == Some(w),
        f.precision is None,
        s.len() < w,
    ensures
        fmt_applied(f, s).len() == w,
        f.left ==> fmt_applied(f, s) == s + spaces((w - s.len()) as nat),
        !f.left ==> fmt_applied(f, s) == spaces((w - s.len()) as nat) + s,
{
}

} // verus!
