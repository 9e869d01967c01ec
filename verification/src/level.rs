//! The ordered severity enumeration and its text forms.

use vstd::prelude::*;

use crate::text::chars_of;

verus! {

/// Severity of a log record, from most to least severe.
#[derive(Clone, Copy, PartialEq, Eq, Structural, Debug)]
pub enum Level {
    Error,
    Warn,
    Info,
    Debug,
    Trace,
}

/// The characters of a level's canonical upper-case name.
pub open spec fn level_chars(l: Level) -> Seq<char> {
    match l {
        Level::Error => seq!['E', 'R', 'R', 'O', 'R'],
        Level::Warn => seq!['W', 'A', 'R', 'N'],
        Level::Info => seq!['I', 'N', 'F', 'O'],
        Level::Debug => seq!['D', 'E', 'B', 'U', 'G'],
        Level::Trace => seq!['T', 'R', 'A', 'C', 'E'],
    }
}

/// ASCII-case-insensitive match of `s` against a name given in its
/// upper-case and lower-case spellings (which must agree in length).
pub open spec fn eq_ci(s: Seq<char>, up: Seq<char>, lo: Seq<char>) -> bool {
    s.len() == up.len() && forall|i: int|
        0 <= i < s.len() ==> #[trigger] s[i] == up[i] || s[i] == lo[i]
}

/// The level named by `s`, if any.  Names match ASCII-case-insensitively,
/// as the severity names of the wider logging ecosystem do.
pub open spec fn level_of_chars(s: Seq<char>) -> Option<Level> {
    if eq_ci(s, seq!['E', 'R', 'R', 'O', 'R'], seq!['e', 'r', 'r', 'o', 'r']) {
        Some(Level::Error)
    } else if eq_ci(s, seq!['W', 'A', 'R', 'N'], seq!['w', 'a', 'r', 'n']) {
        Some(Level::Warn)
    } else if eq_ci(s, seq!['I', 'N', 'F', 'O'], seq!['i', 'n', 'f', 'o']) {
        Some(Level::Info)
    } else if eq_ci(s, seq!['D', 'E', 'B', 'U', 'G'], seq!['d', 'e', 'b', 'u', 'g']) {
        Some(Level::Debug)
    } else if eq_ci(s, seq!['T', 'R', 'A', 'C', 'E'], seq!['t', 'r', 'a', 'c', 'e']) {
        Some(Level::Trace)
    } else {
        None
    }
}

/// Case-insensitive comparison of `s` against one name.
fn eq_ci_exec(s: &Vec<char>, up: &Vec<char>, lo: &Vec<char>) -> (r: bool)
    requires
        up@.len() == lo@.len(),
    ensures
        r == eq_ci(s@, up@, lo@),
{
    if s.len() != up.len() {
        return false;
    }
    let mut i: usize = 0;
    while i < s.len()
        invariant
            i <= s@.len(),
            s@.len() == up@.len() == lo@.len(),
            forall|j: int| 0 <= j < i ==> #[trigger] s@[j] == up@[j] || s@[j] == lo@[j],
        decreases s@.len() - i,
    {
        if s[i] != up[i] && s[i] != lo[i] {
            return false;
        }
        i = i + 1;
    }
    true
}

impl Level {
    /// The canonical upper-case name of the level.
    pub fn name(self) -> (r: &'static str)
        ensures
            r@ == level_chars(self),
    {
        proof {
            reveal_strlit("ERROR");
            reveal_strlit("WARN");
            reveal_strlit("INFO");
            reveal_strlit("DEBUG");
            reveal_strlit("TRACE");
        }
        match self {
            Level::Error => "ERROR",
            Level::Warn => "WARN",
            Level::Info => "INFO",
            Level::Debug => "DEBUG",
            Level::Trace => "TRACE",
        }
    }

    /// Parses a severity name; an unrecognized name is a decode failure,
    /// never a default.
    pub fn parse(s: &Vec<char>) -> (r: Option<Level>)
        ensures
            r == level_of_chars(s@),
    {
        proof {
            reveal_strlit("ERROR");
            reveal_strlit("error");
            reveal_strlit("WARN");
            reveal_strlit("warn");
            reveal_strlit("INFO");
            reveal_strlit("info");
            reveal_strlit("DEBUG");
            reveal_strlit("debug");
            reveal_strlit("TRACE");
            reveal_strlit("trace");
        }
        let error_up = chars_of("ERROR");
        let error_lo = chars_of("error");
        let warn_up = chars_of("WARN");
        let warn_lo = chars_of("warn");
        let info_up = chars_of("INFO");
        let info_lo = chars_of("info");
        let debug_up = chars_of("DEBUG");
        let debug_lo = chars_of("debug");
        let trace_up = chars_of("TRACE");
        let trace_lo = chars_of("trace");
        proof {
            assert(error_up@ =~= seq!['E', 'R', 'R', 'O', 'R']);
            assert(error_lo@ =~= seq!['e', 'r', 'r', 'o', 'r']);
            assert(warn_up@ =~= seq!['W', 'A', 'R', 'N']);
            assert(warn_lo@ =~= seq!['w', 'a', 'r', 'n']);
            assert(info_up@ =~= seq!['I', 'N', 'F', 'O']);
            assert(info_lo@ =~= seq!['i', 'n', 'f', 'o']);
            assert(debug_up@ =~= seq!['D', 'E', 'B', 'U', 'G']);
            assert(debug_lo@ =~= seq!['d', 'e', 'b', 'u', 'g']);
            assert(trace_up@ =~= seq!['T', 'R', 'A', 'C', 'E']);
            assert(trace_lo@ =~= seq!['t', 'r', 'a', 'c', 'e']);
        }
        if eq_ci_exec(s, &error_up, &error_lo) {
            Some(Level::Error)
        } else if eq_ci_exec(s, &warn_up, &warn_lo) {
            Some(Level::Warn)
        } else if eq_ci_exec(s, &info_up, &info_lo) {
            Some(Level::Info)
        } else if eq_ci_exec(s, &debug_up, &debug_lo) {
            Some(Level::Debug)
        } else if eq_ci_exec(s, &trace_up, &trace_lo) {
            Some(Level::Trace)
        } else {
            None
        }
    }
}

/// The control sequence opened before highlighted text of this level;
/// empty for the levels that stay unstyled.
pub open spec fn color_prefix(l: Level) -> Seq<char> {
    match l {
        Level::Error => seq!['\u{1b}', '[', '3', '1', 'm'],
        Level::Warn => seq!['\u{1b}', '[', '3', '3', 'm'],
        _ => Seq::<char>::empty(),
    }
}

/// The control sequence that closes a highlight; empty where no
/// highlight was opened.
pub open spec fn color_suffix(l: Level) -> Seq<char> {
    match l {
        Level::Error => seq!['\u{1b}', '[', '0', 'm'],
        Level::Warn => seq!['\u{1b}', '[', '0', 'm'],
        _ => Seq::<char>::empty(),
    }
}

/// The opening control sequence, as characters.
pub fn color_prefix_chars(l: Level) -> (r: Vec<char>)
    ensures
        r@ == color_prefix(l),
{
    proof {
        reveal_strlit("\u{1b}[31m");
        reveal_strlit("\u{1b}[33m");
    }
    match l {
        Level::Error => {
            let v = chars_of("\u{1b}[31m");
            proof {
                assert(v@ =~= color_prefix(Level::Error));
            }
            v
        },
        Level::Warn => {
            let v = chars_of("\u{1b}[33m");
            proof {
                assert(v@ =~= color_prefix(Level::Warn));
            }
            v
        },
        _ => Vec::new(),
    }
}

/// The closing control sequence, as characters.
pub fn color_suffix_chars(l: Level) -> (r: Vec<char>)
    ensures
        r@ == color_suffix(l),
{
    proof {
        reveal_strlit("\u{1b}[0m");
    }
    match l {
        Level::Error => {
            let v = chars_of("\u{1b}[0m");
            proof {
                assert(v@ =~= color_suffix(Level::Error));
            }
            v
        },
        Level::Warn => {
            let v = chars_of("\u{1b}[0m");
            proof {
                assert(v@ =~= color_suffix(Level::Warn));
            }
            v
        },
        _ => Vec::new(),
    }
}

} // verus!
