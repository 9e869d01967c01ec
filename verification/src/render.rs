//! The renderer: walks a compiled layout against one record and its
//! context store, producing the output line.
//!
//! Rendering is a pure function of the layout, the record, the store and
//! the color flag; it cannot fail, so no partial line is ever written.

use vstd::prelude::*;

use crate::context::{build_context, ctx_chars, ctx_model, CtxStore};
use crate::level::{color_prefix, color_prefix_chars, color_suffix, color_suffix_chars, level_chars};
use crate::pattern::{CompiledPattern, Field, Fmt, Token, TokenV};
use crate::record::{LogRecord, RecordV};
use crate::text::{chars_of, string_from_chars};

verus! {

/// `n` space characters.
pub open spec fn spaces(n: nat) -> Seq<char> {
    Seq::new(n, |i: int| ' ')
}

/// The text cut to at most `p` characters, when a precision is given.
pub open spec fn truncated(s: Seq<char>, p: Option<usize>) -> Seq<char> {
    match p {
        Some(p) => if s.len() > p {
            s.take(p as int)
        } else {
            s
        },
        None => s,
    }
}

/// The text padded with spaces to at least `w` characters, when a width
/// is given: after the text when `left` holds, before it otherwise.
pub open spec fn padded(s: Seq<char>, w: Option<usize>, left: bool) -> Seq<char> {
    match w {
        Some(w) => if s.len() < w {
            if left {
                s + spaces((w - s.len()) as nat)
            } else {
                spaces((w - s.len()) as nat) + s
            }
        } else {
            s
        },
        None => s,
    }
}

/// A format applied to text: truncation first, then padding.
pub open spec fn fmt_applied(f: Fmt, s: Seq<char>) -> Seq<char> {
    padded(truncated(s, f.precision), f.width, f.left)
}

/// The raw text of a structured field; a missing optional field renders
/// as empty text.
pub open spec fn field_chars(f: Field, r: RecordV) -> Seq<char> {
    match f {
        Field::Level => level_chars(r.level),
        Field::Target => r.target,
        Field::Message => r.message,
    }
}

/// The text one token contributes to the output line.
pub open spec fn token_chars(
    t: TokenV,
    r: RecordV,
    m: Seq<(Seq<char>, Seq<char>)>,
    color: bool,
) -> Seq<char> {
    match t {
        TokenV::Lit(c) => seq![c],
        TokenV::Field(f, fmt) => fmt_applied(fmt, field_chars(f, r)),
        TokenV::Highlight(fi, fo) => {
            let text = fmt_applied(fo, fmt_applied(fi, level_chars(r.level)));
            if color {
                color_prefix(r.level) + text + color_suffix(r.level)
            } else {
                text
            }
        },
        TokenV::Context(key, fmt) => fmt_applied(fmt, ctx_chars(m, key)),
        TokenV::Newline => seq!['\n'],
    }
}

/// The whole line a token sequence renders to.
pub open spec fn render_chars(
    ts: Seq<TokenV>,
    r: RecordV,
    m: Seq<(Seq<char>, Seq<char>)>,
    color: bool,
) -> Seq<char>
    decreases ts.len(),
{
    if ts.len() == 0 {
        Seq::<char>::empty()
    } else {
        token_chars(ts[0], r, m, color) + render_chars(ts.drop_first(), r, m, color)
    }
}

/// Rendering one more token appends that token's text.
pub proof fn lemma_render_snoc(
    ts: Seq<TokenV>,
    i: int,
    r: RecordV,
    m: Seq<(Seq<char>, Seq<char>)>,
    color: bool,
)
    requires
        0 <= i < ts.len(),
    ensures
        render_chars(ts.take(i + 1), r, m, color) == render_chars(ts.take(i), r, m, color)
            + token_chars(ts[i], r, m, color),
    decreases i,
{
    if i == 0 {
        assert(ts.take(1).drop_first() =~= Seq::<TokenV>::empty());
        assert(ts.take(1)[0] == ts[0]);
        assert(ts.take(1).len() == 1);
        assert(render_chars(Seq::<TokenV>::empty(), r, m, color) == Seq::<char>::empty());
        assert(render_chars(ts.take(1).drop_first(), r, m, color) == Seq::<char>::empty());
        assert(render_chars(ts.take(1), r, m, color) == token_chars(ts[0], r, m, color)
            + Seq::<char>::empty());
        assert(token_chars(ts[0], r, m, color) + Seq::<char>::empty() =~= token_chars(
            ts[0],
            r,
            m,
            color,
        ));
        assert(Seq::<char>::empty() + token_chars(ts[0], r, m, color) =~= token_chars(
            ts[0],
            r,
            m,
            color,
        ));
    } else {
        let tail = ts.drop_first();
        lemma_render_snoc(tail, i - 1, r, m, color);
        assert(ts.take(i + 1).drop_first() =~= tail.take(i));
        assert(ts.take(i).drop_first() =~= tail.take(i - 1));
        assert(ts.take(i + 1)[0] == ts[0]);
        assert(ts.take(i)[0] == ts[0]);
        assert(tail[i - 1] == ts[i]);
        let a = token_chars(ts[0], r, m, color);
        let b = render_chars(tail.take(i - 1), r, m, color);
        let c = token_chars(ts[i], r, m, color);
        assert((a + b) + c =~= a + (b + c));
    }
}

/// Applies truncation and padding to a piece of text.
pub fn apply_fmt(f: Fmt, text: Vec<char>) -> (r: Vec<char>)
    ensures
        r@ == fmt_applied(f, text@),
{
    let mut v = text;
    if let Some(p) = f.precision {
        if v.len() > p {
            let ghost before = v@;
            v.truncate(p);
            proof {
                assert(v@ =~= before.take(p as int));
            }
        }
    }
    let ghost cut = v@;
    if let Some(w) = f.width {
        if v.len() < w {
            if f.left {
                while v.len() < w
                    invariant
                        cut.len() <= v@.len() <= w,
                        v@ =~= cut + spaces((v@.len() - cut.len()) as nat),
                    decreases w - v@.len(),
                {
                    v.push(' ');
                    proof {
                        assert(v@ =~= cut + spaces((v@.len() - cut.len()) as nat));
                    }
                }
                proof {
                    assert(v@ =~= cut + spaces((w - cut.len()) as nat));
                }
            } else {
                let pad = w - v.len();
                let mut out: Vec<char> = Vec::new();
                let mut k: usize = 0;
                while k < pad
                    invariant
                        k <= pad,
                        out@ =~= spaces(k as nat),
                    decreases pad - k,
                {
                    out.push(' ');
                    k = k + 1;
                    proof {
                        assert(out@ =~= spaces(k as nat));
                    }
                }
                out.append(&mut v);
                proof {
                    assert(out@ =~= spaces(pad as nat) + cut);
                }
                v = out;
            }
        }
    }
    v
}

/// The text one compiled token renders to.
fn render_token(t: &Token, rec: &LogRecord, ctx: &CtxStore, color: bool) -> (r: Vec<char>)
    ensures
        r@ == token_chars(t@, rec@, ctx@, color),
{
    match t {
        Token::Lit(c) => {
            let mut v: Vec<char> = Vec::new();
            v.push(*c);
            proof {
                assert(v@ =~= seq![*c]);
            }
            v
        },
        Token::Field(f, fmt) => {
            let base: Vec<char> = match f {
                Field::Level => chars_of(rec.level.name()),
                Field::Target => chars_of(rec.target.as_str()),
                Field::Message => chars_of(rec.message.as_str()),
            };
            apply_fmt(*fmt, base)
        },
        Token::Highlight(fi, fo) => {
            let name = chars_of(rec.level.name());
            let inner = apply_fmt(*fi, name);
            let mut text = apply_fmt(*fo, inner);
            if color {
                let mut out = color_prefix_chars(rec.level);
                out.append(&mut text);
                let mut suffix = color_suffix_chars(rec.level);
                out.append(&mut suffix);
                out
            } else {
                text
            }
        },
        Token::Context(key, fmt) => {
            let base: Vec<char> = match ctx.get(key) {
                Some(v) => crate::text::clone_chars(v),
                None => Vec::new(),
            };
            proof {
                assert(base@ == ctx_chars(ctx@, key@));
            }
            apply_fmt(*fmt, base)
        },
        Token::Newline => {
            let mut v: Vec<char> = Vec::new();
            v.push('\n');
            proof {
                assert(v@ =~= seq!['\n']);
            }
            v
        },
    }
}

/// Renders one record against a compiled layout and an already-built
/// context store: exactly the concatenation of each token's text, in
/// order.
pub fn render(p: &CompiledPattern, rec: &LogRecord, ctx: &CtxStore, color: bool) -> (r: String)
    ensures
        r@ == render_chars(p@, rec@, ctx@, color),
{
    let mut out: Vec<char> = Vec::new();
    let mut i: usize = 0;
    while i < p.tokens.len()
        invariant
            i <= p.tokens@.len(),
            p@.len() == p.tokens@.len(),
            out@ == render_chars(p@.take(i as int), rec@, ctx@, color),
        decreases p.tokens@.len() - i,
    {
        let mut piece = render_token(&p.tokens[i], rec, ctx, color);
        proof {
            lemma_render_snoc(p@, i as int, rec@, ctx@, color);
            assert(p@[i as int] == p.tokens@[i as int]@);
        }
        out.append(&mut piece);
        i = i + 1;
    }
    proof {
        assert(p@.take(p@.len() as int) =~= p@);
    }
    string_from_chars(&out)
}

/// Renders one record end to end: builds the record's own fresh context
/// store and walks the layout.  The line depends only on the layout, the
/// record and the color flag — the store holds the record's own tags and
/// timestamp text, so nothing from any other record can appear.
pub fn render_line(p: &CompiledPattern, rec: &LogRecord, color: bool) -> (r: String)
    ensures
        exists|ts: Seq<char>|
            r@ == render_chars(p@, rec@, ctx_model(rec@, ts), color),
{
    let ctx = build_context(rec);
    let out = render(p, rec, &ctx, color);
    proof {
        let ts = ctx@.last().1;
        assert(out@ == render_chars(p@, rec@, ctx_model(rec@, ts), color));
    }
    out
}

} // verus!
