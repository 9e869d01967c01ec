//! The structured log record and its validation.

use vstd::prelude::*;

use crate::clock::{timestamp_valid, ts_parses};
use crate::level::{level_of_chars, Level};
use crate::text::chars_of;

verus! {

/// The characters of an optional text field, if it is present.
pub open spec fn opt_chars(o: Option<String>) -> Option<Seq<char>> {
    match o {
        Some(s) => Some(s@),
        None => None,
    }
}

/// The views of a key/value pair vector, in order.
pub open spec fn pairs_view(v: Seq<(String, String)>) -> Seq<(Seq<char>, Seq<char>)> {
    v.map_values(|p: (String, String)| (p.0@, p.1@))
}

/// The mathematical form of a decoded record.
pub struct RecordV {
    pub time: Seq<char>,
    pub message: Seq<char>,
    pub module: Option<Seq<char>>,
    pub file: Option<Seq<char>>,
    pub line: Option<u32>,
    pub level: Level,
    pub target: Seq<char>,
    pub thread: Option<Seq<char>>,
    pub mdc: Seq<(Seq<char>, Seq<char>)>,
}

/// A decoded structured log entry, ready to render.
pub struct LogRecord {
    /// The timestamp text, with a fixed UTC offset.
    pub time: String,
    /// The log message.
    pub message: String,
    /// Source-location hint.
    pub module: Option<String>,
    /// Source-location hint.
    pub file: Option<String>,
    /// Source-location hint.
    pub line: Option<u32>,
    /// The severity.
    pub level: Level,
    /// The logical emitter.
    pub target: String,
    /// The originating execution unit's name, if any.
    pub thread: Option<String>,
    /// Ambient diagnostic tags carried by the record.
    pub mdc: Vec<(String, String)>,
}

impl View for LogRecord {
    type V = RecordV;

    open spec fn view(&self) -> RecordV {
        RecordV {
            time: self.time@,
            message: self.message@,
            module: opt_chars(self.module),
            file: opt_chars(self.file),
            line: self.line,
            level: self.level,
            target: self.target@,
            thread: opt_chars(self.thread),
            mdc: pairs_view(self.mdc@),
        }
    }
}

/// The plain fields of a structurally decoded record, before the library
/// has validated the level name and the timestamp.  The host fills this
/// from the JSON object.
pub struct RecordParts {
    pub time: String,
    pub message: String,
    pub module: Option<String>,
    pub file: Option<String>,
    pub line: Option<u32>,
    /// The severity name, not yet matched against the five levels.
    pub level: String,
    pub target: String,
    pub thread: Option<String>,
    pub mdc: Vec<(String, String)>,
}

/// The mathematical form of the plain fields.
pub struct PartsV {
    pub time: Seq<char>,
    pub message: Seq<char>,
    pub module: Option<Seq<char>>,
    pub file: Option<Seq<char>>,
    pub line: Option<u32>,
    pub level: Seq<char>,
    pub target: Seq<char>,
    pub thread: Option<Seq<char>>,
    pub mdc: Seq<(Seq<char>, Seq<char>)>,
}

impl View for RecordParts {
    type V = PartsV;

    open spec fn view(&self) -> PartsV {
        PartsV {
            time: self.time@,
            message: self.message@,
            module: opt_chars(self.module),
            file: opt_chars(self.file),
            line: self.line,
            level: self.level@,
            target: self.target@,
            thread: opt_chars(self.thread),
            mdc: pairs_view(self.mdc@),
        }
    }
}

/// Why a structurally sound record was still refused.
#[derive(Clone, Copy, PartialEq, Eq, Structural, Debug)]
pub enum DecodeError {
    /// The level names none of the five severities.
    BadLevel,
    /// The timestamp does not parse as a point in time.
    BadTimestamp,
}

/// Whether the plain fields make a valid record: the level names one of
/// the five severities and the timestamp parses.
pub open spec fn parts_ok(p: PartsV) -> bool {
    level_of_chars(p.level) is Some && ts_parses(p.time)
}

/// The record the plain fields decode to, when they are valid.
pub open spec fn record_of_parts(p: PartsV) -> RecordV {
    RecordV {
        time: p.time,
        message: p.message,
        module: p.module,
        file: p.file,
        line: p.line,
        level: level_of_chars(p.level)->Some_0,
        target: p.target,
        thread: p.thread,
        mdc: p.mdc,
    }
}

impl LogRecord {
    /// Validates plain decoded fields into a record.  An unrecognized
    /// level or an unparsable timestamp is a decode failure, never a
    /// default.
    pub fn from_parts(p: RecordParts) -> (r: Result<LogRecord, DecodeError>)
        ensures
            r is Ok <==> parts_ok(p@),
            r matches Ok(rec) ==> rec@ == record_of_parts(p@),
            r matches Err(e) ==> (e == (if level_of_chars(p@.level) is None {
                DecodeError::BadLevel
            } else {
                DecodeError::BadTimestamp
            })),
    {
        let lvl_chars = chars_of(p.level.as_str());
        let lvl = match Level::parse(&lvl_chars) {
            Some(l) => l,
            None => {
                return Err(DecodeError::BadLevel);
            },
        };
        if !timestamp_valid(p.time.as_str()) {
            return Err(DecodeError::BadTimestamp);
        }
        Ok(
            LogRecord {
                time: p.time,
                message: p.message,
                module: p.module,
                file: p.file,
                line: p.line,
                level: lvl,
                target: p.target,
                thread: p.thread,
                mdc: p.mdc,
            },
        )
    }
}

} // verus!
