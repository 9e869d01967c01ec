//! Per-line decisions of the record pipeline, and the line pump's
//! control state.
//!
//! The host reads lines and performs the structural JSON decoding; the
//! library decides, for each line, what goes to the output stream, what
//! goes to the error channel, and what is silently skipped.  No failed
//! line ever stops the pump: only end of input does.

use vstd::prelude::*;

use crate::record::{parts_ok, record_of_parts, LogRecord, RecordParts};
use crate::text::{all_space, chars_of, push_chars, string_from_chars, trimmed_empty};

verus! {

/// The characters of the error-channel prefix `"Parse failure: "`.
pub open spec fn pf_prefix() -> Seq<char> {
    seq!['P', 'a', 'r', 's', 'e', ' ', 'f', 'a', 'i', 'l', 'u', 'r', 'e', ':', ' ']
}

/// The characters of the error-channel infix `" in "`.
pub open spec fn pf_mid() -> Seq<char> {
    seq![' ', 'i', 'n', ' ']
}

/// The diagnostic line reported for a malformed input line:
/// `Parse failure: <error> in <original line>`.
pub open spec fn parse_failure_chars(err: Seq<char>, line: Seq<char>) -> Seq<char> {
    pf_prefix() + err + pf_mid() + line
}

/// Builds the diagnostic line for a malformed input line.
fn parse_failure_message(err: &String, line: &str) -> (r: String)
    ensures
        r@ == parse_failure_chars(err@, line@),
{
    proof {
        reveal_strlit("Parse failure: ");
        reveal_strlit(" in ");
        assert("Parse failure: "@ =~= pf_prefix());
        assert(" in "@ =~= pf_mid());
    }
    let mut out: Vec<char> = Vec::new();
    push_chars(&mut out, "Parse failure: ");
    push_chars(&mut out, err.as_str());
    push_chars(&mut out, " in ");
    push_chars(&mut out, line);
    proof {
        assert(out@ =~= parse_failure_chars(err@, line@));
    }
    string_from_chars(&out)
}

/// What to do with a line in enveloped mode, once the host has tried to
/// decode the outer envelope.
pub enum EnvStep {
    /// The envelope decoded: its inner message is the record text.
    Inner(String),
    /// The line was malformed and not blank: report this diagnostic on
    /// the error channel, then continue with the next line.
    Report(String),
    /// The line was malformed but blank: skip it silently.
    Ignore,
}

/// Decides the envelope stage.  `parsed` is the host's structural decode
/// of the outer envelope: the inner message text, or the decode error's
/// description.
pub fn envelope_step(line: &str, parsed: Result<String, String>) -> (r: EnvStep)
    ensures
        (parsed matches Ok(m) ==> (r matches EnvStep::Inner(t) && t@ == m@)),
        (parsed is Err && !all_space(line@) ==> (r matches EnvStep::Report(t) && t@
            == parse_failure_chars(parsed->Err_0@, line@))),
        (parsed is Err && all_space(line@) ==> r is Ignore),
{
    match parsed {
        Ok(m) => EnvStep::Inner(m),
        Err(e) => {
            let lc = chars_of(line);
            if trimmed_empty(&lc) {
                EnvStep::Ignore
            } else {
                EnvStep::Report(parse_failure_message(&e, line))
            }
        },
    }
}

/// What to do with record text, once the host has tried to decode it
/// structurally.
pub enum RecStep {
    /// A record decoded and validated: render it.
    Render(LogRecord),
    /// The text was not a record and not blank: pass it through to the
    /// error channel verbatim, unescaped.
    Passthrough(String),
    /// The text was not a record and blank: skip it silently.
    Ignore,
}

/// The fallback for text that did not decode as a record.
fn record_fallback(text: &str) -> (r: RecStep)
    ensures
        !all_space(text@) ==> (r matches RecStep::Passthrough(t) && t@ == text@),
        all_space(text@) ==> r is Ignore,
{
    let c = chars_of(text);
    if trimmed_empty(&c) {
        RecStep::Ignore
    } else {
        RecStep::Passthrough(text.to_owned())
    }
}

/// Decides the record stage.  `parsed` is the host's structural decode
/// of `text` into plain fields, or `None` where the JSON did not fit the
/// record's shape; the library then validates the level name and the
/// timestamp, and a record failing validation falls back exactly as one
/// that did not decode.
pub fn record_step(text: &str, parsed: Option<RecordParts>) -> (r: RecStep)
    ensures
        (parsed is Some && parts_ok(parsed->Some_0@) ==> (r matches RecStep::Render(rec) && rec@
            == record_of_parts(parsed->Some_0@))),
        ((parsed matches Some(p) ==> !parts_ok(p@)) && !all_space(text@) ==> (r matches
            RecStep::Passthrough(t) && t@ == text@)),
        ((parsed matches Some(p) ==> !parts_ok(p@)) && all_space(text@) ==> r is Ignore),
{
    match parsed {
        Some(p) => match LogRecord::from_parts(p) {
            Ok(rec) => RecStep::Render(rec),
            Err(_) => record_fallback(text),
        },
        None => record_fallback(text),
    }
}

/// The input mode: each line is a raw record, or a record wrapped in an
/// envelope whose `message` field holds the record's serialized form.
#[derive(Clone, Copy, PartialEq, Eq, Structural, Debug)]
pub enum Mode {
    Raw,
    Enveloped,
}

/// The pump's control state: it awaits a line until an empty read ends
/// it; a failed decode or render never ends it.
#[derive(Clone, Copy, PartialEq, Eq, Structural, Debug)]
pub enum PumpState {
    AwaitingLine,
    Eof,
}

/// The line pump's bookkeeping: one line is read and fully handled at a
/// time, so no two records are ever in flight together.
pub struct Pump {
    /// The input mode, fixed at startup.
    pub mode: Mode,
    /// The control state.
    pub state: PumpState,
}

impl Pump {
    /// A pump ready to read its first line.
    pub fn new(mode: Mode) -> (r: Pump)
        ensures
            r.mode == mode,
            r.state is AwaitingLine,
    {
        Pump { mode, state: PumpState::AwaitingLine }
    }

    /// An empty read: the input is exhausted and the pump ends cleanly.
    pub fn on_eof(&mut self)
        requires
            old(self).state is AwaitingLine,
        ensures
            final(self).state is Eof,
            final(self).mode == old(self).mode,
    {
        self.state = PumpState::Eof;
    }

    /// Whether the pump has reached its terminal state.
    pub fn finished(&self) -> (r: bool)
        ensures
            r == (self.state is Eof),
    {
        match self.state {
            PumpState::Eof => true,
            PumpState::AwaitingLine => false,
        }
    }
}

} // verus!
