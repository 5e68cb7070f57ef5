//! What the front end says on the console, as values: which stream a line
//! goes to, the badge it starts with, its colour and its text. Putting the
//! lines on a terminal is left to the caller.

use vstd::prelude::*;

verus! {

/// The stream that a line is written to.
#[derive(Debug, Clone, Copy, PartialEq, Eq)]
pub enum Stream {
    Stdout,
    Stderr,
}

/// The colour of a line.
#[derive(Debug, Clone, Copy, PartialEq, Eq)]
pub enum Tone {
    Yellow,
    Blue,
    Cyan,
    Green,
    Red,
    BrightBlue,
    BrightGreen,
    BrightRed,
}

/// The sign that a line starts with.
#[derive(Debug, Clone, Copy, PartialEq, Eq)]
pub enum Badge {
    /// A step went well.
    Check,
    /// A step went wrong.
    Cross,
    /// Something to take note of.
    Bang,
    /// A request leaves for the backend.
    Globe,
    /// The backend let the front end down.
    Warning,
    /// What the front end does about it.
    Note,
    /// The backend finished the work.
    Done,
    /// The work is done on this machine.
    Tool,
    /// The invocation failed.
    Failure,
}

impl Badge {
    /// The text of a badge.
    pub open spec fn glyph_text(self) -> Seq<char> {
        match self {
            Badge::Check => "[\u{2713}]"@,
            Badge::Cross => "[x]"@,
            Badge::Bang => "[!]"@,
            Badge::Globe => "\u{1F310}"@,
            Badge::Warning => "\u{26A0}\u{FE0F}"@,
            Badge::Note => "\u{2139}\u{FE0F}"@,
            Badge::Done => "\u{2705}"@,
            Badge::Tool => "\u{1F6E0}\u{FE0F}"@,
            Badge::Failure => "\u{274C}"@,
        }
    }

    /// The text that the badge is written as.
    pub fn glyph(&self) -> (r: &'static str)
        ensures
            r@ == self.glyph_text(),
    {
        match self {
            Badge::Check => "[\u{2713}]",
            Badge::Cross => "[x]",
            Badge::Bang => "[!]",
            Badge::Globe => "\u{1F310}",
            Badge::Warning => "\u{26A0}\u{FE0F}",
            Badge::Note => "\u{2139}\u{FE0F}",
            Badge::Done => "\u{2705}",
            Badge::Tool => "\u{1F6E0}\u{FE0F}",
            Badge::Failure => "\u{274C}",
        }
    }
}

/// One piece of console output.
#[derive(Debug, PartialEq, Eq)]
pub enum Line {
    /// A badge, a space and the text, both in one colour, then a line break.
    Marked { stream: Stream, badge: Badge, tone: Tone, text: String },
    /// Three spaces and the text in red on the error stream, then a line
    /// break: one link of the chain of causes under an error.
    Detail { text: String },
    /// The text on the output stream, then a line break.
    Plain { text: String },
    /// The text on the output stream as it is; it brings its own line breaks.
    Block { text: String },
}

/// View of a [`Line`].
pub enum LineView {
    Marked { stream: Stream, badge: Badge, tone: Tone, text: Seq<char> },
    Detail { text: Seq<char> },
    Plain { text: Seq<char> },
    Block { text: Seq<char> },
}

impl View for Line {
    type V = LineView;

    open spec fn view(&self) -> LineView {
        match self {
            Line::Marked { stream, badge, tone, text } => LineView::Marked {
                stream: *stream,
                badge: *badge,
                tone: *tone,
                text: text@,
            },
            Line::Detail { text } => LineView::Detail { text: text@ },
            Line::Plain { text } => LineView::Plain { text: text@ },
            Line::Block { text } => LineView::Block { text: text@ },
        }
    }
}

/// The views of the lines of `lines`, in order.
pub open spec fn shown(lines: Seq<Line>) -> Seq<LineView> {
    Seq::new(lines.len(), |i: int| lines[i]@)
}

/// A marked line on the output stream.
pub open spec fn out(badge: Badge, tone: Tone, text: Seq<char>) -> LineView {
    LineView::Marked { stream: Stream::Stdout, badge, tone, text }
}

/// A marked line on the error stream.
pub open spec fn err(badge: Badge, tone: Tone, text: Seq<char>) -> LineView {
    LineView::Marked { stream: Stream::Stderr, badge, tone, text }
}

/// An empty line on the output stream.
pub open spec fn blank() -> LineView {
    LineView::Plain { text: Seq::empty() }
}

impl Line {
    /// Makes a marked line for the output stream.
    pub fn out(badge: Badge, tone: Tone, text: String) -> (r: Line)
        ensures
            r@ == out(badge, tone, text@),
    {
        Line::Marked { stream: Stream::Stdout, badge, tone, text }
    }

    /// Makes a marked line for the error stream.
    pub fn err(badge: Badge, tone: Tone, text: String) -> (r: Line)
        ensures
            r@ == err(badge, tone, text@),
    {
        Line::Marked { stream: Stream::Stderr, badge, tone, text }
    }

    /// Makes an empty line for the output stream.
    pub fn blank() -> (r: Line)
        ensures
            r@ == blank(),
    {
        Line::Plain { text: String::new() }
    }
}

/// Joins a fixed text and a varying one.
pub fn prefixed(prefix: &str, rest: &str) -> (r: String)
    ensures
        r@ == prefix@ + rest@,
{
    let mut r = String::from_str(prefix);
    r.append(rest);
    r
}

} // verus!
