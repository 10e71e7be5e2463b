//! Lines of a document and the rule that decides how a line is styled.

use vstd::prelude::*;
use crate::text::chars_of;

verus! {

/// How a line is drawn.
#[derive(Clone, Copy, Debug, PartialEq, Eq, Structural)]
pub enum StyleTag {
    /// No styling.
    Normal,
    /// A line that introduces a topic.
    Highlighted,
    /// A line framed as a structural heading.
    Heading,
}

/// One line of a document: its text and the style it was given when the
/// document was put together.
#[derive(Clone, Debug)]
pub struct Line {
    pub text: String,
    pub style: StyleTag,
}

/// The mathematical value of a `Line`.
pub struct LineView {
    pub text: Seq<char>,
    pub style: StyleTag,
}

impl View for Line {
    type V = LineView;

    open spec fn view(&self) -> LineView {
        LineView { text: self.text@, style: self.style }
    }
}

/// The values of the lines of `lines`, in order.
pub open spec fn lines_view(lines: Seq<Line>) -> Seq<LineView> {
    Seq::new(lines.len(), |i: int| lines[i]@)
}

/// A line without styling.
pub open spec fn plain(text: Seq<char>) -> LineView {
    LineView { text, style: StyleTag::Normal }
}

/// The text begins with `|=` and ends with `=|`.
pub open spec fn is_heading_text(text: Seq<char>) -> bool {
    &&& text.len() >= 2
    &&& text[0] == '|'
    &&& text[1] == '='
    &&& text[text.len() - 2] == '='
    &&& text[text.len() - 1] == '|'
}

/// The marker `--[` stands at position `at` of the text.
pub open spec fn topic_marker_at(text: Seq<char>, at: int) -> bool {
    &&& 0 <= at
    &&& at + 3 <= text.len()
    &&& text[at] == '-'
    &&& text[at + 1] == '-'
    &&& text[at + 2] == '['
}

/// The text holds the marker `--[` somewhere.
pub open spec fn is_topic_text(text: Seq<char>) -> bool {
    exists|at: int| topic_marker_at(text, at)
}

/// The style of a line of text. A line that is both framed as a heading and
/// holds a topic marker is a heading: the heading rule comes first.
pub open spec fn style_of(text: Seq<char>) -> StyleTag {
    if is_heading_text(text) {
        StyleTag::Heading
    } else if is_topic_text(text) {
        StyleTag::Highlighted
    } else {
        StyleTag::Normal
    }
}

fn heading_chars(chars: &Vec<char>) -> (b: bool)
    ensures
        b == is_heading_text(chars@),
{
    let n = chars.len();
    n >= 2 && chars[0] == '|' && chars[1] == '=' && chars[n - 2] == '=' && chars[n - 1] == '|'
}

fn topic_chars(chars: &Vec<char>) -> (b: bool)
    ensures
        b == is_topic_text(chars@),
{
    let n = chars.len();
    if n < 3 {
        return false;
    }
    let mut at: usize = 0;
    while at <= n - 3
        invariant
            n == chars@.len(),
            n >= 3,
            at <= n - 2,
            forall|k: int| 0 <= k < at ==> !topic_marker_at(chars@, k),
        decreases n - at,
    {
        if chars[at] == '-' && chars[at + 1] == '-' && chars[at + 2] == '[' {
            assert(topic_marker_at(chars@, at as int));
            return true;
        }
        at += 1;
    }
    false
}

/// Whether `line` is framed as a heading: it starts with `|=` and ends with
/// `=|`.
pub fn should_highlight_headings(line: &str) -> (b: bool)
    ensures
        b == is_heading_text(line@),
{
    let chars = chars_of(line);
    heading_chars(&chars)
}

/// Whether `line` introduces a topic: it holds `--[`.
pub fn should_highlight_topics(line: &str) -> (b: bool)
    ensures
        b == is_topic_text(line@),
{
    let chars = chars_of(line);
    topic_chars(&chars)
}

/// Decides the style of a line of text.
pub fn classify(line: &str) -> (style: StyleTag)
    ensures
        style == style_of(line@),
{
    let chars = chars_of(line);
    if heading_chars(&chars) {
        StyleTag::Heading
    } else if topic_chars(&chars) {
        StyleTag::Highlighted
    } else {
        StyleTag::Normal
    }
}

impl Line {
    /// A line with the given text and style.
    pub fn new(text: String, style: StyleTag) -> (line: Line)
        ensures
            line@ == (LineView { text: text@, style }),
    {
        Line { text, style }
    }

    /// A line of `text`, styled by what the text holds.
    pub fn classified(text: &str) -> (line: Line)
        ensures
            line@ == (LineView { text: text@, style: style_of(text@) }),
    {
        let style = classify(text);
        let mut owned = String::new();
        owned.append(text);
        assert(owned@ =~= text@);
        Line { text: owned, style }
    }
}

} // verus!
