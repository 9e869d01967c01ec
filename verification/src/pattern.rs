//! The layout language and its compiler.
//!
//! A layout specification is a sequence of literal characters and
//! placeholders.  `{` always begins a placeholder:
//!
//! * `{l}` the level, `{t}` the target, `{m}` the message;
//! * `{n}` the line terminator;
//! * `{X(key)}` a diagnostic-context lookup by key;
//! * `{h({l})}` the level wrapped in severity-dependent color;
//! * every placeholder except `{n}` accepts a `:<width.precision`
//!   suffix: `width` pads with spaces (on the right when `<` is given,
//!   on the left otherwise) and `precision` cuts longer text.
//!
//! A bare `{l}` with no suffix, inside `{h(...)}` or not, defaults to
//! width 5, padded on the right, so that the five level names line up.
//! A malformed specification is refused at compile time; there is no
//! per-record fallback for a broken layout.

use vstd::prelude::*;

use crate::text::chars_of;

verus! {

/// How a placeholder's rendered text is padded and truncated.
#[derive(Clone, Copy)]
pub struct Fmt {
    /// Minimum width: shorter text is padded with spaces.
    pub width: Option<usize>,
    /// Maximum width: longer text is cut to this many characters.
    pub precision: Option<usize>,
    /// Pad on the right of the text (true) or on the left (false).
    pub left: bool,
}

/// The format of a placeholder written without any suffix.
pub open spec fn plain_fmt() -> Fmt {
    Fmt { width: None, precision: None, left: false }
}

/// The format a bare `{l}` defaults to: the level names line up in a
/// five-character column.
pub open spec fn level_default_fmt() -> Fmt {
    Fmt { width: Some(5), precision: None, left: true }
}

/// A structured field a placeholder can name.
#[derive(Clone, Copy)]
pub enum Field {
    Level,
    Target,
    Message,
}

/// One compiled element of a layout.
pub enum Token {
    /// One character of literal text.
    Lit(char),
    /// A structured field with its format.
    Field(Field, Fmt),
    /// The level, formatted (inner format, then outer format) and wrapped
    /// in severity color when color is on.
    Highlight(Fmt, Fmt),
    /// A diagnostic-context lookup by key.
    Context(Vec<char>, Fmt),
    /// The line terminator.
    Newline,
}

/// The mathematical form of a compiled element.
pub enum TokenV {
    Lit(char),
    Field(Field, Fmt),
    Highlight(Fmt, Fmt),
    Context(Seq<char>, Fmt),
    Newline,
}

impl View for Token {
    type V = TokenV;

    open spec fn view(&self) -> TokenV {
        match self {
            Token::Lit(c) => TokenV::Lit(*c),
            Token::Field(f, m) => TokenV::Field(*f, *m),
            Token::Highlight(a, b) => TokenV::Highlight(*a, *b),
            Token::Context(k, m) => TokenV::Context(k@, *m),
            Token::Newline => TokenV::Newline,
        }
    }
}

/// The views of a token vector, in order.
pub open spec fn toks_view(ts: Seq<Token>) -> Seq<TokenV> {
    ts.map_values(|t: Token| t@)
}

/// A decimal digit.
pub open spec fn is_digit_char(c: char) -> bool {
    '0' <= c && c <= '9'
}

/// The value of a decimal digit.
pub open spec fn digit_val(c: char) -> nat {
    if c == '0' {
        0
    } else if c == '1' {
        1
    } else if c == '2' {
        2
    } else if c == '3' {
        3
    } else if c == '4' {
        4
    } else if c == '5' {
        5
    } else if c == '6' {
        6
    } else if c == '7' {
        7
    } else if c == '8' {
        8
    } else {
        9
    }
}

/// Reads a run of digits starting at `i` into `acc`; a number too large
/// for the machine is malformed.
pub open spec fn spec_number(s: Seq<char>, i: nat, acc: nat) -> Option<(nat, nat)>
    decreases s.len() - i,
{
    if i < s.len() && is_digit_char(s[i as int]) {
        if acc * 10 + digit_val(s[i as int]) > usize::MAX {
            None
        } else {
            spec_number(s, i + 1, acc * 10 + digit_val(s[i as int]))
        }
    } else {
        Some((acc, i))
    }
}

/// Reads the optional `.precision` part after the width.
pub open spec fn spec_fmt_prec(s: Seq<char>, k: nat, f: Fmt) -> Option<(Fmt, nat)> {
    if k < s.len() && s[k as int] == '.' {
        if k + 1 < s.len() && is_digit_char(s[k + 1 as int]) {
            match spec_number(s, k + 1, 0) {
                Some((p, m)) => Some(
                    (Fmt { width: f.width, precision: Some(p as usize), left: f.left }, m),
                ),
                None => None,
            }
        } else {
            None
        }
    } else {
        Some((f, k))
    }
}

/// Reads what follows a `:`: optional `<`, optional width, optional
/// `.precision`.
pub open spec fn spec_fmt_body(s: Seq<char>, i: nat) -> Option<(Fmt, nat)> {
    let left = i < s.len() && s[i as int] == '<';
    let j = if left {
        i + 1
    } else {
        i
    };
    if j < s.len() && is_digit_char(s[j as int]) {
        match spec_number(s, j, 0) {
            Some((w, k)) => spec_fmt_prec(
                s,
                k,
                Fmt { width: Some(w as usize), precision: None, left },
            ),
            None => None,
        }
    } else {
        spec_fmt_prec(s, j, Fmt { width: None, precision: None, left })
    }
}

/// Reads a format suffix if one stands at `i`, else yields the default.
pub open spec fn spec_fmt_opt(s: Seq<char>, i: nat, dflt: Fmt) -> Option<(Fmt, nat)> {
    if i < s.len() && s[i as int] == ':' {
        spec_fmt_body(s, i + 1)
    } else {
        Some((dflt, i))
    }
}

/// The position of the `)` that closes a context key, or the end of the
/// text if none follows.
pub open spec fn spec_key_end(s: Seq<char>, i: nat) -> nat
    decreases s.len() - i,
{
    if i >= s.len() {
        i
    } else if s[i as int] == ')' {
        i
    } else {
        spec_key_end(s, i + 1)
    }
}

/// Reads a field placeholder's format suffix and closing brace.
pub open spec fn spec_field_rest(s: Seq<char>, i: nat, f: Field, dflt: Fmt) -> Option<
    (TokenV, nat),
> {
    match spec_fmt_opt(s, i, dflt) {
        Some((fmt, j)) => if j < s.len() && s[j as int] == '}' {
            Some((TokenV::Field(f, fmt), j + 1))
        } else {
            None
        },
        None => None,
    }
}

/// Reads the rest of an `{X(key)...}` placeholder, from after the `X`.
pub open spec fn spec_context(s: Seq<char>, i: nat) -> Option<(TokenV, nat)> {
    if i < s.len() && s[i as int] == '(' {
        let e = spec_key_end(s, i + 1);
        if e < s.len() {
            match spec_fmt_opt(s, e + 1, plain_fmt()) {
                Some((fmt, j)) => if j < s.len() && s[j as int] == '}' {
                    Some((TokenV::Context(s.subrange(i + 1 as int, e as int), fmt), j + 1))
                } else {
                    None
                },
                None => None,
            }
        } else {
            None
        }
    } else {
        None
    }
}

/// Reads the rest of an `{h({l}...)...}` placeholder, from after the `h`.
/// Only the level may stand inside a highlight.
pub open spec fn spec_highlight(s: Seq<char>, i: nat) -> Option<(TokenV, nat)> {
    if i + 2 < s.len() && s[i as int] == '(' && s[i + 1 as int] == '{' && s[i + 2 as int] == 'l' {
        match spec_fmt_opt(s, i + 3, level_default_fmt()) {
            Some((fi, j)) => if j + 1 < s.len() && s[j as int] == '}' && s[j + 1 as int] == ')' {
                match spec_fmt_opt(s, j + 2, plain_fmt()) {
                    Some((fo, k)) => if k < s.len() && s[k as int] == '}' {
                        Some((TokenV::Highlight(fi, fo), k + 1))
                    } else {
                        None
                    },
                    None => None,
                }
            } else {
                None
            },
            None => None,
        }
    } else {
        None
    }
}

/// Reads the placeholder that begins at `i`, just after its `{`.
pub open spec fn spec_placeholder(s: Seq<char>, i: nat) -> Option<(TokenV, nat)> {
    if i >= s.len() {
        None
    } else if s[i as int] == 'l' {
        spec_field_rest(s, i + 1, Field::Level, level_default_fmt())
    } else if s[i as int] == 't' {
        spec_field_rest(s, i + 1, Field::Target, plain_fmt())
    } else if s[i as int] == 'm' {
        spec_field_rest(s, i + 1, Field::Message, plain_fmt())
    } else if s[i as int] == 'n' {
        if i + 1 < s.len() && s[i + 1 as int] == '}' {
            Some((TokenV::Newline, i + 2))
        } else {
            None
        }
    } else if s[i as int] == 'X' {
        spec_context(s, i + 1)
    } else if s[i as int] == 'h' {
        spec_highlight(s, i + 1)
    } else {
        None
    }
}

/// Reads the token that begins at `i` (which must lie in the text).
pub open spec fn spec_token(s: Seq<char>, i: nat) -> Option<(TokenV, nat)> {
    if s[i as int] == '{' {
        spec_placeholder(s, i + 1)
    } else {
        Some((TokenV::Lit(s[i as int]), i + 1))
    }
}

/// Parses the whole suffix of the layout text from `i`; `None` is a
/// malformed specification.
pub open spec fn parse_items(s: Seq<char>, i: nat) -> Option<Seq<TokenV>>
    decreases s.len() - i,
{
    if i >= s.len() {
        Some(Seq::<TokenV>::empty())
    } else {
        match spec_token(s, i) {
            Some((t, j)) => if i < j <= s.len() {
                match parse_items(s, j) {
                    Some(rest) => Some(seq![t] + rest),
                    None => None,
                }
            } else {
                None
            },
            None => None,
        }
    }
}

/// What a layout specification compiles to, if it is well formed.
pub open spec fn spec_pattern(s: Seq<char>) -> Option<Seq<TokenV>> {
    parse_items(s, 0)
}

/// A malformed layout specification, refused at startup.
#[derive(Clone, Copy, Debug)]
pub struct PatternError {
    /// The position of the character the compiler stopped at.
    pub at: usize,
}

/// An immutable compiled layout, shared by every record rendered.
pub struct CompiledPattern {
    /// The compiled elements, in order.
    pub tokens: Vec<Token>,
}

impl View for CompiledPattern {
    type V = Seq<TokenV>;

    open spec fn view(&self) -> Seq<TokenV> {
        toks_view(self.tokens@)
    }
}

/// A decimal digit, decided.
fn is_digit(c: char) -> (r: bool)
    ensures
        r == is_digit_char(c),
{
    '0' <= c && c <= '9'
}

/// The value of a decimal digit.
fn digit_of(c: char) -> (d: usize)
    requires
        is_digit_char(c),
    ensures
        d as nat == digit_val(c),
        d <= 9,
{
    if c == '0' {
        0
    } else if c == '1' {
        1
    } else if c == '2' {
        2
    } else if c == '3' {
        3
    } else if c == '4' {
        4
    } else if c == '5' {
        5
    } else if c == '6' {
        6
    } else if c == '7' {
        7
    } else if c == '8' {
        8
    } else {
        9
    }
}

fn exec_number(s: &Vec<char>, i: usize, acc: usize) -> (r: Option<(usize, usize)>)
    requires
        i <= s@.len(),
    ensures
        (match r {
            Some((v, j)) => spec_number(s@, i as nat, acc as nat) == Some((v as nat, j as nat))
                && i <= j <= s@.len(),
            None => spec_number(s@, i as nat, acc as nat) is None,
        }),
    decreases s@.len() - i,
{
    if i < s.len() && is_digit(s[i]) {
        let d = digit_of(s[i]);
        match acc.checked_mul(10) {
            Some(m) => match m.checked_add(d) {
                Some(v) => exec_number(s, i + 1, v),
                None => None,
            },
            None => {
                proof {
                    assert(acc * 10 + digit_val(s@[i as int]) > usize::MAX);
                }
                None
            },
        }
    } else {
        Some((acc, i))
    }
}

fn exec_fmt_prec(s: &Vec<char>, k: usize, f: Fmt) -> (r: Option<(Fmt, usize)>)
    requires
        k <= s@.len(),
    ensures
        (match r {
            Some((fmt, m)) => spec_fmt_prec(s@, k as nat, f) == Some((fmt, m as nat)) && k <= m
                <= s@.len(),
            None => spec_fmt_prec(s@, k as nat, f) is None,
        }),
{
    if k < s.len() && s[k] == '.' {
        if k + 1 < s.len() && is_digit(s[k + 1]) {
            match exec_number(s, k + 1, 0) {
                Some((p, m)) => Some(
                    (Fmt { width: f.width, precision: Some(p), left: f.left }, m),
                ),
                None => None,
            }
        } else {
            None
        }
    } else {
        Some((f, k))
    }
}

fn exec_fmt_body(s: &Vec<char>, i: usize) -> (r: Option<(Fmt, usize)>)
    requires
        i <= s@.len(),
    ensures
        (match r {
            Some((fmt, j)) => spec_fmt_body(s@, i as nat) == Some((fmt, j as nat)) && i <= j
                <= s@.len(),
            None => spec_fmt_body(s@, i as nat) is None,
        }),
{
    let left = i < s.len() && s[i] == '<';
    let j = if left {
        i + 1
    } else {
        i
    };
    if j < s.len() && is_digit(s[j]) {
        match exec_number(s, j, 0) {
            Some((w, k)) => exec_fmt_prec(s, k, Fmt { width: Some(w), precision: None, left }),
            None => None,
        }
    } else {
        exec_fmt_prec(s, j, Fmt { width: None, precision: None, left })
    }
}

fn exec_fmt_opt(s: &Vec<char>, i: usize, dflt: Fmt) -> (r: Option<(Fmt, usize)>)
    requires
        i <= s@.len(),
    ensures
        (match r {
            Some((fmt, j)) => spec_fmt_opt(s@, i as nat, dflt) == Some((fmt, j as nat)) && i <= j
                <= s@.len(),
            None => spec_fmt_opt(s@, i as nat, dflt) is None,
        }),
{
    if i < s.len() && s[i] == ':' {
        exec_fmt_body(s, i + 1)
    } else {
        Some((dflt, i))
    }
}

fn exec_key_end(s: &Vec<char>, i: usize) -> (r: usize)
    requires
        i <= s@.len(),
    ensures
        r as nat == spec_key_end(s@, i as nat),
        i <= r <= s@.len(),
    decreases s@.len() - i,
{
    if i >= s.len() {
        i
    } else if s[i] == ')' {
        i
    } else {
        exec_key_end(s, i + 1)
    }
}

/// The characters of `s` between `from` and `to`.
fn copy_range(s: &Vec<char>, from: usize, to: usize) -> (r: Vec<char>)
    requires
        from <= to <= s@.len(),
    ensures
        r@ == s@.subrange(from as int, to as int),
{
    let mut v: Vec<char> = Vec::new();
    let mut i: usize = from;
    while i < to
        invariant
            from <= i <= to <= s@.len(),
            v@ == s@.subrange(from as int, i as int),
        decreases to - i,
    {
        v.push(s[i]);
        i = i + 1;
        proof {
            assert(v@ =~= s@.subrange(from as int, i as int));
        }
    }
    v
}

fn exec_placeholder(s: &Vec<char>, i: usize) -> (r: Option<(Token, usize)>)
    requires
        i <= s@.len(),
    ensures
        (match r {
            Some((t, j)) => spec_placeholder(s@, i as nat) == Some((t@, j as nat)) && i < j
                <= s@.len(),
            None => spec_placeholder(s@, i as nat) is None,
        }),
{
    if i >= s.len() {
        return None;
    }
    let c = s[i];
    if c == 'l' || c == 't' || c == 'm' {
        let fld = if c == 'l' {
            Field::Level
        } else if c == 't' {
            Field::Target
        } else {
            Field::Message
        };
        let dflt = if c == 'l' {
            Fmt { width: Some(5), precision: None, left: true }
        } else {
            Fmt { width: None, precision: None, left: false }
        };
        match exec_fmt_opt(s, i + 1, dflt) {
            Some((fmt, j)) => {
                if j < s.len() && s[j] == '}' {
                    Some((Token::Field(fld, fmt), j + 1))
                } else {
                    None
                }
            },
            None => None,
        }
    } else if c == 'n' {
        if i + 1 < s.len() && s[i + 1] == '}' {
            Some((Token::Newline, i + 2))
        } else {
            None
        }
    } else if c == 'X' {
        if i + 1 < s.len() && s[i + 1] == '(' {
            let e = exec_key_end(s, i + 2);
            if e < s.len() {
                let key = copy_range(s, i + 2, e);
                match exec_fmt_opt(s, e + 1, Fmt { width: None, precision: None, left: false }) {
                    Some((fmt, j)) => {
                        if j < s.len() && s[j] == '}' {
                            Some((Token::Context(key, fmt), j + 1))
                        } else {
                            None
                        }
                    },
                    None => None,
                }
            } else {
                None
            }
        } else {
            None
        }
    } else if c == 'h' {
        if s.len() > 3 && i < s.len() - 3 && s[i + 1] == '(' && s[i + 2] == '{' && s[i + 3]
            == 'l' {
            match exec_fmt_opt(s, i + 4, Fmt { width: Some(5), precision: None, left: true }) {
                Some((fi, j)) => {
                    if s.len() > 1 && j < s.len() - 1 && s[j] == '}' && s[j + 1] == ')' {
                        match exec_fmt_opt(
                            s,
                            j + 2,
                            Fmt { width: None, precision: None, left: false },
                        ) {
                            Some((fo, k)) => {
                                if k < s.len() && s[k] == '}' {
                                    Some((Token::Highlight(fi, fo), k + 1))
                                } else {
                                    None
                                }
                            },
                            None => None,
                        }
                    } else {
                        None
                    }
                },
                None => None,
            }
        } else {
            None
        }
    } else {
        None
    }
}

fn exec_token(s: &Vec<char>, i: usize) -> (r: Option<(Token, usize)>)
    requires
        i < s@.len(),
    ensures
        (match r {
            Some((t, j)) => spec_token(s@, i as nat) == Some((t@, j as nat)) && i < j <= s@.len(),
            None => spec_token(s@, i as nat) is None,
        }),
{
    // binding the length makes the machine bound on the positions known
    let _n = s.len();
    if s[i] == '{' {
        exec_placeholder(s, i + 1)
    } else {
        Some((Token::Lit(s[i]), i + 1))
    }
}

/// Compiles a layout specification, once at startup.  A malformed
/// specification is a fatal configuration error, never a per-record
/// fallback.
pub fn compile(pattern: &str) -> (r: Result<CompiledPattern, PatternError>)
    ensures
        r is Ok <==> spec_pattern(pattern@) is Some,
        r matches Ok(p) ==> Some(p@) == spec_pattern(pattern@),
{
    let s = chars_of(pattern);
    let mut toks: Vec<Token> = Vec::new();
    let mut i: usize = 0;
    while i < s.len()
        invariant
            i <= s@.len(),
            s@ == pattern@,
            (match parse_items(s@, i as nat) {
                Some(rest) => parse_items(s@, 0) == Some(toks_view(toks@) + rest),
                None => parse_items(s@, 0) is None,
            }),
        decreases s@.len() - i,
    {
        let ghost prior = toks@;
        match exec_token(&s, i) {
            Some((t, j)) => {
                let ghost tv = t@;
                toks.push(t);
                proof {
                    assert(toks_view(toks@) =~= toks_view(prior) + seq![tv]);
                    if parse_items(s@, j as nat) is Some {
                        let rest = parse_items(s@, j as nat)->Some_0;
                        assert(parse_items(s@, i as nat) == Some(seq![tv] + rest));
                        assert((toks_view(prior) + seq![tv]) + rest =~= toks_view(prior) + (
                        seq![tv] + rest));
                    }
                }
                i = j;
            },
            None => {
                return Err(PatternError { at: i });
            },
        }
    }
    proof {
        assert(parse_items(s@, i as nat) == Some(Seq::<TokenV>::empty()));
        assert(toks_view(toks@) + Seq::<TokenV>::empty() =~= toks_view(toks@));
    }
    Ok(CompiledPattern { tokens: toks })
}

} // verus!
