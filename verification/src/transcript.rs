//! Transcript lines and recognition events.
//!
//! A line of recognizer output is either provisional (`Interim`, still being
//! refined) or settled (`Final`, appended permanently to the transcript).
//! Scripted corpus text tags each line with a literal prefix telling the two
//! apart.

use vstd::prelude::*;
use crate::text::{spec_starts_with, strip_prefix_of};

verus! {

/// One line of transcript output.
#[derive(Debug, Clone, PartialEq, Eq)]
pub enum Line {
    /// A provisional line, superseded by the next `Final` of the same
    /// utterance.
    Interim(String),
    /// A settled line, appended permanently to the displayed transcript.
    Final(String),
}

impl Line {
    /// Whether this is a provisional line.
    pub open spec fn is_interim(&self) -> bool {
        self is Interim
    }

    /// The text the line carries.
    pub open spec fn text(&self) -> Seq<char> {
        match self {
            Line::Interim(t) => t@,
            Line::Final(t) => t@,
        }
    }
}

/// A copy of `line`, equal to it.
pub fn clone_line(line: &Line) -> (r: Line)
    ensures
        r == *line,
{
    match line {
        Line::Interim(t) => Line::Interim(t.clone()),
        Line::Final(t) => Line::Final(t.clone()),
    }
}

/// Tag marking a provisional line in corpus text.
pub open spec fn interim_prefix() -> Seq<char> {
    "RECOGNIZING: "@
}

/// Tag marking a settled line in corpus text.
pub open spec fn final_prefix() -> Seq<char> {
    "RECOGNIZED: "@
}

/// How one line of corpus text reads: `Some((interim, text))` when it
/// carries one of the two tags, `None` otherwise.
pub open spec fn spec_parse_line(src: Seq<char>) -> Option<(bool, Seq<char>)> {
    if spec_starts_with(src, interim_prefix()) {
        Some((true, src.skip(interim_prefix().len() as int)))
    } else if spec_starts_with(src, final_prefix()) {
        Some((false, src.skip(final_prefix().len() as int)))
    } else {
        None
    }
}

/// The text does not carry either line tag.
#[derive(Debug, Clone, Copy, PartialEq, Eq, Structural)]
pub struct LineParseError;

impl Line {
    /// Read one tagged line of corpus text: the tag picks the variant and
    /// the rest of the line is its text.  Text without a tag is rejected.
    pub fn from_str(s: &str) -> (r: Result<Line, LineParseError>)
        ensures
            r matches Ok(line) ==> spec_parse_line(s@) matches Some(p) && line.is_interim()
                == p.0 && line.text() == p.1,
            r is Err <==> spec_parse_line(s@) is None,
    {
        if let Some(tail) = strip_prefix_of(s, "RECOGNIZING: ") {
            Ok(Line::Interim(tail.to_owned()))
        } else if let Some(tail) = strip_prefix_of(s, "RECOGNIZED: ") {
            Ok(Line::Final(tail.to_owned()))
        } else {
            Err(LineParseError)
        }
    }
}

/// One event of the recognition stream.
#[derive(Debug, Clone, PartialEq, Eq)]
pub enum RecognitionEvent {
    /// The recognizer refined a provisional hypothesis.
    Interim(String),
    /// The recognizer settled an utterance.
    Final(String),
    /// An event-level fault; it is logged and does not end the stream.
    Error(String),
}

/// The transcript line an event turns into: interim and final events map to
/// the matching line variants with the same text, error events to nothing.
pub open spec fn spec_line_for_event(ev: RecognitionEvent) -> Option<Line> {
    match ev {
        RecognitionEvent::Interim(t) => Some(Line::Interim(t)),
        RecognitionEvent::Final(t) => Some(Line::Final(t)),
        RecognitionEvent::Error(_) => None,
    }
}

/// Turn one recognition event into the transcript line it stands for, if
/// any.
pub fn line_for_event(ev: RecognitionEvent) -> (r: Option<Line>)
    ensures
        r == spec_line_for_event(ev),
{
    match ev {
        RecognitionEvent::Interim(t) => Some(Line::Interim(t)),
        RecognitionEvent::Final(t) => Some(Line::Final(t)),
        RecognitionEvent::Error(_) => None,
    }
}

} // verus!
