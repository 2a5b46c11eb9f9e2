//! The activity log: entries with a level and the time of day.

use crate::scan::{
    contains, copy_chars, find, has, spec_find, spec_split, split, string_of, views,
};
use crate::text::{chars_of, is_whitespace_char, whitespace_end};
use vstd::prelude::*;

verus! {

/// Log level, which decides how an entry is drawn.
#[derive(Debug, Clone, Copy, PartialEq, Eq, Structural)]
pub enum LogLevel {
    Info,
    Success,
    Warning,
    Error,
}

/// Log entry for the status panel.
#[derive(Debug, PartialEq, Eq)]
pub struct LogEntry {
    pub timestamp: String,
    pub message: String,
    pub level: LogLevel,
}

/// `chrono::Local::now()` formatted with `%H:%M`: the local time of day
/// when it is called. Nothing is claimed of the text, which depends on the
/// clock and the time zone of the machine. The call panics on a machine
/// whose clock reads a time before 1970, or whose time zone data gives an
/// offset that is out of range.
#[verifier::external_body]
fn local_time_of_day() -> (text: String) {
    chrono::Local::now().format("%H:%M").to_string()
}

impl LogEntry {
    /// An entry of level `Info`.
    pub fn info(message: String) -> (entry: LogEntry)
        ensures
            entry.message == message,
            entry.level == LogLevel::Info,
    {
        LogEntry::new(message, LogLevel::Info)
    }

    /// An entry of level `Success`.
    pub fn success(message: String) -> (entry: LogEntry)
        ensures
            entry.message == message,
            entry.level == LogLevel::Success,
    {
        LogEntry::new(message, LogLevel::Success)
    }

    /// An entry of level `Warning`.
    pub fn warning(message: String) -> (entry: LogEntry)
        ensures
            entry.message == message,
            entry.level == LogLevel::Warning,
    {
        LogEntry::new(message, LogLevel::Warning)
    }

    /// An entry of level `Error`.
    pub fn error(message: String) -> (entry: LogEntry)
        ensures
            entry.message == message,
            entry.level == LogLevel::Error,
    {
        LogEntry::new(message, LogLevel::Error)
    }

    /// An entry with the given message and level, stamped with the local
    /// time of day.
    pub fn new(message: String, level: LogLevel) -> (entry: LogEntry)
        ensures
            entry.message == message,
            entry.level == level,
    {
        LogEntry { timestamp: local_time_of_day(), message, level }
    }
}

impl Clone for LogEntry {
    fn clone(&self) -> (copy: LogEntry)
        ensures
            copy == *self,
    {
        LogEntry {
            timestamp: self.timestamp.clone(),
            message: self.message.clone(),
            level: self.level,
        }
    }
}

/// How many log entries the panel shows in `max_lines` lines: all that
/// fit where it is expanded, at most ten where it is collapsed.
pub fn visible_log_count(max_lines: usize, expanded: bool) -> (count: usize)
    ensures
        count == (if expanded || max_lines <= 10 {
            max_lines
        } else {
            10
        }),
{
    if expanded || max_lines <= 10 {
        max_lines
    } else {
        10
    }
}

/// A piece of the help line, by the way it is drawn.
#[derive(Debug, PartialEq, Eq)]
pub enum HelpSegment {
    /// Blank space.
    Gap(String),
    /// The name of a key.
    Key(String),
    /// What the key does, or plain text.
    Text(String),
}

/// A piece of the help line as text.
pub enum SegmentText {
    Gap(Seq<char>),
    Key(Seq<char>),
    Text(Seq<char>),
}

impl HelpSegment {
    /// The piece as text.
    pub open spec fn text(self) -> SegmentText {
        match self {
            HelpSegment::Gap(gap) => SegmentText::Gap(gap@),
            HelpSegment::Key(key) => SegmentText::Key(key@),
            HelpSegment::Text(text) => SegmentText::Text(text@),
        }
    }
}

/// The pieces of a list as texts.
pub open spec fn segment_texts(list: Seq<HelpSegment>) -> Seq<SegmentText> {
    Seq::new(list.len(), |i: int| list[i].text())
}

/// The pieces of one group of the help line. A group with a colon is a
/// key and, after a space, what the key does; a group without a colon is
/// a key if it holds a slash, and plain text if not.
pub open spec fn group_segments(group: Seq<char>) -> Seq<SegmentText> {
    match spec_find(group, seq![':']) {
        Some(colon) => seq![
            SegmentText::Key(group.subrange(0, colon)),
            SegmentText::Text(
                seq![' '] + group.subrange(
                    whitespace_end(group, colon + 1),
                    group.len() as int,
                ),
            ),
        ],
        None => if contains(group, seq!['/']) {
            seq![SegmentText::Key(group)]
        } else {
            seq![SegmentText::Text(group)]
        },
    }
}

/// The pieces of the first `n` groups: two blanks at the start, and three
/// blanks between each two groups.
pub open spec fn segments_upto(groups: Seq<Seq<char>>, n: int) -> Seq<SegmentText>
    decreases n,
{
    if n <= 0 {
        seq![SegmentText::Gap(seq![' ', ' '])]
    } else {
        segments_upto(groups, n - 1) + (if n > 1 {
            seq![SegmentText::Gap(seq![' ', ' ', ' '])]
        } else {
            Seq::<SegmentText>::empty()
        }) + group_segments(groups[n - 1])
    }
}

/// The pieces of the help line `text`, whose groups two blanks separate.
pub open spec fn spec_help_segments(text: Seq<char>) -> Seq<SegmentText> {
    segments_upto(spec_split(text, seq![' ', ' ']), spec_split(text, seq![' ', ' ']).len() as int)
}

/// Takes the help line apart into the pieces that are drawn in
/// different ways.
pub fn help_segments(text: &str) -> (segments: Vec<HelpSegment>)
    ensures
        segment_texts(segments@) == spec_help_segments(text@),
{
    proof {
        reveal_strlit("  ");
        reveal_strlit(":");
        reveal_strlit("/");
    }
    let chars = chars_of(text);
    let separator = chars_of("  ");
    let colon = chars_of(":");
    let slash = chars_of("/");
    assert(separator@ =~= seq![' ', ' ']);
    assert(colon@ =~= seq![':']);
    assert(slash@ =~= seq!['/']);
    let groups = split(&chars, &separator);
    let mut segments: Vec<HelpSegment> = Vec::new();
    segments.push(HelpSegment::Gap(String::from_str("  ")));
    assert(segment_texts(segments@) =~= segments_upto(views(groups@), 0));
    let mut i: usize = 0;
    while i < groups.len()
        invariant
            i <= groups.len(),
            colon@ == seq![':'],
            slash@ == seq!['/'],
            segment_texts(segments@) == segments_upto(views(groups@), i as int),
        decreases groups.len() - i,
    {
        proof {
            reveal_strlit("   ");
            reveal_strlit(" ");
        }
        let group = &groups[i];
        assert(views(groups@)[i as int] == group@);
        let ghost before = segment_texts(segments@);
        if i > 0 {
            segments.push(HelpSegment::Gap(String::from_str("   ")));
            assert("   "@ =~= seq![' ', ' ', ' ']);
        }
        let ghost gapped = segment_texts(segments@);
        assert(gapped =~= before + (if i > 0 {
            seq![SegmentText::Gap(seq![' ', ' ', ' '])]
        } else {
            Seq::<SegmentText>::empty()
        }));
        match find(group, &colon) {
            Some(at) => {
                let key = copy_chars(group, 0, at);
                let mut from: usize = at + 1;
                while from < group.len() && is_whitespace_char(group[from])
                    invariant
                        at + 1 <= from <= group.len(),
                        whitespace_end(group@, at + 1) == whitespace_end(group@, from as int),
                    decreases group.len() - from,
                {
                    from = from + 1;
                }
                let rest = copy_chars(group, from, group.len());
                let mut action = String::from_str(" ");
                let rest_text = string_of(&rest);
                action.append(rest_text.as_str());
                assert(" "@ =~= seq![' ']);
                segments.push(HelpSegment::Key(string_of(&key)));
                segments.push(HelpSegment::Text(action));
                assert(segment_texts(segments@) =~= gapped + group_segments(group@));
            },
            None => {
                let whole = string_of(group);
                if has(group, &slash) {
                    segments.push(HelpSegment::Key(whole));
                } else {
                    segments.push(HelpSegment::Text(whole));
                }
                assert(segment_texts(segments@) =~= gapped + group_segments(group@));
            },
        }
        i = i + 1;
    }
    segments
}

} // verus!
