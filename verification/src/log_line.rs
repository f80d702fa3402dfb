//! The lines of the log pane, and how a decoded frame becomes lines.

use crate::decoder::FrameView;
use crate::text::{blanks, lines_of, padded, utf8_len};
use vstd::prelude::*;

verus! {

/// The width to which the name of a level is padded.
pub const LEVEL_WIDTH: usize = 7;

/// What `str::to_uppercase` of std makes of a text.
pub uninterp spec fn uppercased(s: Seq<char>) -> Seq<char>;

/// `str::to_uppercase` of std.
#[verifier::external_body]
pub(crate) fn to_uppercase(s: &str) -> (r: String)
    ensures
        r@ == uppercased(s@),
{
    s.to_uppercase()
}

/// One line of the log pane.
#[derive(Debug, Clone, PartialEq, Eq)]
pub enum LogLine {
    /// The first line of a log record: its time stamp, the name of its level
    /// padded to `LEVEL_WIDTH`, and the first line of its message. The level
    /// is set in a colour of its own.
    Record { timestamp: String, level: String, text: String },
    /// A line set plainly: a further line of a record, or a line of help.
    Plain { text: String },
    /// A word from the viewer itself, set apart from the device's log.
    Meta { text: String },
}

/// A line as contracts see it.
pub enum LineView {
    Record { timestamp: Seq<char>, level: Seq<char>, text: Seq<char> },
    Plain { text: Seq<char> },
    Meta { text: Seq<char> },
}

impl View for LogLine {
    type V = LineView;

    open spec fn view(&self) -> LineView {
        match *self {
            LogLine::Record { timestamp, level, text } => LineView::Record {
                timestamp: timestamp@,
                level: level@,
                text: text@,
            },
            LogLine::Plain { text } => LineView::Plain { text: text@ },
            LogLine::Meta { text } => LineView::Meta { text: text@ },
        }
    }
}

/// `a + b`, or the largest number where the sum is larger.
pub open spec fn capped_sum(a: usize, b: usize) -> usize {
    if a + b <= usize::MAX {
        (a + b) as usize
    } else {
        usize::MAX
    }
}

impl LineView {
    /// The width of the line, in bytes of its text.
    pub open spec fn width(self) -> usize {
        match self {
            LineView::Record { timestamp, level, text } => capped_sum(
                capped_sum(utf8_len(timestamp), utf8_len(level)),
                utf8_len(text),
            ),
            LineView::Plain { text } => utf8_len(text),
            LineView::Meta { text } => utf8_len(text),
        }
    }
}

/// The views of a sequence of lines.
pub open spec fn line_views(lines: Seq<LogLine>) -> Seq<LineView> {
    Seq::new(lines.len(), |i: int| lines[i]@)
}

impl LogLine {
    /// The width of the line, in bytes of its text.
    pub fn width(&self) -> (w: usize)
        ensures
            w == self@.width(),
    {
        match self {
            LogLine::Record { timestamp, level, text } => timestamp.as_str().len().saturating_add(
                level.as_str().len(),
            ).saturating_add(text.as_str().len()),
            LogLine::Plain { text } => text.as_str().len(),
            LogLine::Meta { text } => text.as_str().len(),
        }
    }
}

/// The time stamp of a frame as it stands before the level: followed by a
/// space, or a space alone where the frame has none.
pub open spec fn stamp_of(f: FrameView) -> Seq<char> {
    match f.timestamp {
        Some(t) => t.push(' '),
        None => seq![' '],
    }
}

/// The name of a frame's level as it is shown: in upper case and padded, or
/// all spaces where the frame has none.
pub open spec fn label_of(f: FrameView) -> Seq<char> {
    match f.level {
        Some(l) => padded(uppercased(l), LEVEL_WIDTH as nat),
        None => padded(seq![' '], LEVEL_WIDTH as nat),
    }
}

/// How far the further lines of a record are indented: by the width of what
/// stands before the message on its first line.
pub open spec fn indent_of(f: FrameView) -> usize {
    capped_sum(utf8_len(stamp_of(f)), LEVEL_WIDTH)
}

/// The lines that show a frame. Its message, followed by a space, is split
/// at its line breaks. The first line stands behind time stamp and level;
/// each further line is indented so that it starts below the first.
pub open spec fn frame_lines(f: FrameView) -> Seq<LineView> {
    let parts = lines_of(f.message.push(' '));
    Seq::new(
        parts.len(),
        |i: int|
            if i == 0 {
                LineView::Record { timestamp: stamp_of(f), level: label_of(f), text: parts[0] }
            } else {
                LineView::Plain { text: blanks(indent_of(f) as nat) + parts[i] }
            },
    )
}

/// A frame is shown on at least one line.
pub proof fn lemma_frame_has_lines(f: FrameView)
    ensures
        frame_lines(f).len() >= 1,
{
    let s = f.message.push(' ');
    assert(s.len() > 0);
    assert(lines_of(s).len() >= 1);
}

} // verus!
