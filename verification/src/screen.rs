//! The viewport over a document: scroll position, visible slice, and the
//! frame that the terminal shows.

use vstd::prelude::*;
use crate::line::{Line, LineView, lines_view};
use crate::text::{decimal_digits, push_decimal};
use crate::width::{displayed, fit_to_width};

verus! {

/// The mathematical value of a `ScreenState`.
pub struct ScreenView {
    pub document: Seq<LineView>,
    pub scroll_offset: nat,
    pub viewport_height: nat,
    pub viewport_width: nat,
}

/// The mathematical value of a `Frame`.
pub struct FrameView {
    pub rows: Seq<LineView>,
    pub status: Seq<char>,
}

/// One scroll movement.
#[derive(Clone, Copy, Debug, PartialEq, Eq, Structural)]
pub enum Motion {
    /// Up by the given number of lines.
    ScrollUp(usize),
    /// Down by the given number of lines.
    ScrollDown(usize),
    /// Up by one viewport.
    PageUp,
    /// Down by one viewport.
    PageDown,
}

/// The text of the status bar for the given numbers.
pub open spec fn status_text(first: nat, last: nat, total: nat, percent: nat) -> Seq<char> {
    " Lines "@ + decimal_digits(first) + "-"@ + decimal_digits(last) + " of "@ + decimal_digits(
        total,
    ) + " ("@ + decimal_digits(percent)
        + "%)  [↑/↓/PgUp/PgDn to navigate, q to quit] "@
}

impl ScreenView {
    /// The largest scroll offset: the one at which the last line of the
    /// document stands in the last row of the viewport, or zero where the
    /// whole document fits.
    pub open spec fn max_offset(self) -> nat {
        if self.document.len() > self.viewport_height {
            (self.document.len() - self.viewport_height) as nat
        } else {
            0
        }
    }

    /// The scroll offset is within its bounds.
    pub open spec fn in_range(self) -> bool {
        self.scroll_offset <= self.max_offset()
    }

    /// The index just past the last visible line.
    pub open spec fn end(self) -> nat {
        if self.scroll_offset + self.viewport_height < self.document.len() {
            self.scroll_offset + self.viewport_height
        } else {
            self.document.len()
        }
    }

    /// The state after scrolling up by `lines`.
    pub open spec fn scrolled_up(self, lines: nat) -> ScreenView {
        ScreenView {
            scroll_offset: if self.scroll_offset > lines {
                (self.scroll_offset - lines) as nat
            } else {
                0
            },
            ..self
        }
    }

    /// The state after scrolling down by `lines`.
    pub open spec fn scrolled_down(self, lines: nat) -> ScreenView {
        ScreenView {
            scroll_offset: if self.scroll_offset + lines < self.max_offset() {
                self.scroll_offset + lines
            } else {
                self.max_offset()
            },
            ..self
        }
    }

    /// The state after the movement `motion`.
    pub open spec fn moved(self, motion: Motion) -> ScreenView {
        match motion {
            Motion::ScrollUp(lines) => self.scrolled_up(lines as nat),
            Motion::ScrollDown(lines) => self.scrolled_down(lines as nat),
            Motion::PageUp => self.scrolled_up(self.viewport_height),
            Motion::PageDown => self.scrolled_down(self.viewport_height),
        }
    }

    /// The state after the movements `motions`, made in order.
    pub open spec fn moved_all(self, motions: Seq<Motion>) -> ScreenView
        decreases motions.len(),
    {
        if motions.len() == 0 {
            self
        } else {
            self.moved_all(motions.drop_last()).moved(motions.last())
        }
    }

    /// The state after one more line was added at the end of the document.
    pub open spec fn with_line(self, line: LineView) -> ScreenView {
        ScreenView { document: self.document.push(line), ..self }
    }

    /// How much of the document has been shown once the viewport is drawn,
    /// in percent; an empty document counts as shown in full.
    pub open spec fn percentage(self) -> nat {
        if self.document.len() == 0 {
            100
        } else {
            (self.end() * 100 / self.document.len()) as nat
        }
    }

    /// The rows of the viewport: the lines from the scroll offset on, each
    /// shortened to the viewport's width, with its style.
    pub open spec fn rows(self) -> Seq<LineView> {
        Seq::new(
            (self.end() - self.scroll_offset) as nat,
            |i: int|
                LineView {
                    text: displayed(
                        self.document[self.scroll_offset + i].text,
                        self.viewport_width,
                    ),
                    style: self.document[self.scroll_offset + i].style,
                },
        )
    }

    /// The status bar.
    pub open spec fn status(self) -> Seq<char> {
        status_text(self.scroll_offset + 1, self.end(), self.document.len(), self.percentage())
    }

    /// What the terminal shows.
    pub open spec fn frame(self) -> FrameView {
        FrameView { rows: self.rows(), status: self.status() }
    }
}

/// What the terminal shows for one state: the rows of the viewport from top
/// to bottom, and the text of the status bar beneath them.
pub struct Frame {
    pub rows: Vec<Line>,
    pub status: String,
}

impl View for Frame {
    type V = FrameView;

    open spec fn view(&self) -> FrameView {
        FrameView { rows: lines_view(self.rows@), status: self.status@ }
    }
}

/// A document together with the geometry of the viewport and the scroll
/// position. The scroll offset never leaves its bounds.
pub struct ScreenState {
    document: Vec<Line>,
    scroll_offset: usize,
    viewport_height: usize,
    viewport_width: usize,
}

impl View for ScreenState {
    type V = ScreenView;

    closed spec fn view(&self) -> ScreenView {
        ScreenView {
            document: lines_view(self.document@),
            scroll_offset: self.scroll_offset as nat,
            viewport_height: self.viewport_height as nat,
            viewport_width: self.viewport_width as nat,
        }
    }
}

impl ScreenState {
    #[verifier::type_invariant]
    pub(crate) open spec fn bounded(&self) -> bool {
        self@.in_range()
    }

    /// A state for `document` on a terminal of `width` columns and `height`
    /// rows, scrolled to the top. Two rows of the terminal are kept free:
    /// one for the status bar and one spare. A terminal of fewer than two
    /// rows has no row left for the document.
    pub fn new(document: Vec<Line>, width: usize, height: usize) -> (state: ScreenState)
        ensures
            state@ == (ScreenView {
                document: lines_view(document@),
                scroll_offset: 0,
                viewport_height: if height >= 2 {
                    (height - 2) as nat
                } else {
                    0
                },
                viewport_width: width as nat,
            }),
            state@.in_range(),
    {
        let viewport_height: usize = if height >= 2 {
            height - 2
        } else {
            0
        };
        ScreenState { document, scroll_offset: 0, viewport_height, viewport_width: width }
    }

    /// The number of lines of the document.
    pub fn len(&self) -> (n: usize)
        ensures
            n == self@.document.len(),
    {
        self.document.len()
    }

    /// The index of the first visible line.
    pub fn scroll_offset(&self) -> (offset: usize)
        ensures
            offset == self@.scroll_offset,
            self@.in_range(),
    {
        proof {
            use_type_invariant(self);
        }
        self.scroll_offset
    }

    /// The number of rows that show lines of the document.
    pub fn viewport_height(&self) -> (height: usize)
        ensures
            height == self@.viewport_height,
    {
        self.viewport_height
    }

    /// The number of columns of the viewport.
    pub fn viewport_width(&self) -> (width: usize)
        ensures
            width == self@.viewport_width,
    {
        self.viewport_width
    }

    /// The largest scroll offset of this state.
    pub fn max_offset(&self) -> (offset: usize)
        ensures
            offset == self@.max_offset(),
    {
        if self.document.len() > self.viewport_height {
            self.document.len() - self.viewport_height
        } else {
            0
        }
    }

    /// The index just past the last visible line.
    pub fn end(&self) -> (end: usize)
        ensures
            end == self@.end(),
            self@.scroll_offset <= end <= self@.document.len(),
    {
        proof {
            use_type_invariant(self);
        }
        let n = self.document.len();
        if self.viewport_height < n - self.scroll_offset {
            self.scroll_offset + self.viewport_height
        } else {
            n
        }
    }

    /// How much of the document has been shown, in percent.
    pub fn percentage(&self) -> (percent: usize)
        ensures
            percent == self@.percentage(),
            percent <= 100,
    {
        let n = self.document.len();
        if n == 0 {
            100
        } else {
            let end = self.end();
            let shown: u128 = (end as u128) * 100 / (n as u128);
            assert(shown <= 100) by (nonlinear_arith)
                requires
                    shown == (end as int) * 100 / (n as int),
                    0 <= end <= n,
                    n > 0,
            ;
            shown as usize
        }
    }

    /// Scrolls up by `lines`, stopping at the top.
    pub fn scroll_up(&mut self, lines: usize)
        ensures
            final(self)@ == old(self)@.scrolled_up(lines as nat),
            final(self)@.in_range(),
    {
        proof {
            use_type_invariant(&*self);
        }
        self.scroll_offset = if self.scroll_offset > lines {
            self.scroll_offset - lines
        } else {
            0
        };
    }

    /// Scrolls down by `lines`, stopping where the last line of the document
    /// reaches the last row of the viewport.
    pub fn scroll_down(&mut self, lines: usize)
        ensures
            final(self)@ == old(self)@.scrolled_down(lines as nat),
            final(self)@.in_range(),
    {
        proof {
            use_type_invariant(&*self);
        }
        let max = self.max_offset();
        self.scroll_offset = if lines < max - self.scroll_offset {
            self.scroll_offset + lines
        } else {
            max
        };
    }

    /// Scrolls up by one viewport.
    pub fn page_up(&mut self)
        ensures
            final(self)@ == old(self)@.scrolled_up(old(self)@.viewport_height),
            final(self)@.in_range(),
    {
        let height = self.viewport_height;
        self.scroll_up(height);
    }

    /// Scrolls down by one viewport.
    pub fn page_down(&mut self)
        ensures
            final(self)@ == old(self)@.scrolled_down(old(self)@.viewport_height),
            final(self)@.in_range(),
    {
        let height = self.viewport_height;
        self.scroll_down(height);
    }

    /// Makes the movement `motion`.
    pub fn apply(&mut self, motion: Motion)
        ensures
            final(self)@ == old(self)@.moved(motion),
            final(self)@.in_range(),
    {
        match motion {
            Motion::ScrollUp(lines) => self.scroll_up(lines),
            Motion::ScrollDown(lines) => self.scroll_down(lines),
            Motion::PageUp => self.page_up(),
            Motion::PageDown => self.page_down(),
        }
    }

    /// Adds `line` at the end of the document. The viewport stays where it
    /// is; the largest offset may grow by one.
    pub fn append_line(&mut self, line: Line)
        ensures
            final(self)@ == old(self)@.with_line(line@),
            final(self)@.in_range(),
    {
        proof {
            use_type_invariant(&*self);
        }
        // The document is moved out, extended and moved back, with the
        // offset at the top meanwhile, so that the state is whole throughout.
        let offset = self.scroll_offset;
        self.scroll_offset = 0;
        let mut document: Vec<Line> = Vec::new();
        core::mem::swap(&mut self.document, &mut document);
        document.push(line);
        core::mem::swap(&mut self.document, &mut document);
        self.scroll_offset = offset;
        assert(lines_view(self.document@) =~= lines_view(old(self).document@).push(line@));
    }

    /// The text of the status bar.
    pub fn status_line(&self) -> (status: String)
        ensures
            status@ == self@.status(),
    {
        let end = self.end();
        let percent = self.percentage();
        let mut status = String::new();
        status.append(" Lines ");
        push_decimal(&mut status, self.scroll_offset as u128 + 1);
        status.append("-");
        push_decimal(&mut status, end as u128);
        status.append(" of ");
        push_decimal(&mut status, self.document.len() as u128);
        status.append(" (");
        push_decimal(&mut status, percent as u128);
        status.append("%)  [↑/↓/PgUp/PgDn to navigate, q to quit] ");
        assert(status@ =~= self@.status());
        status
    }

    /// Computes what the terminal shows in this state. The state is left as
    /// it is.
    pub fn render(&self) -> (frame: Frame)
        ensures
            frame@ == self@.frame(),
    {
        let end = self.end();
        let mut rows: Vec<Line> = Vec::new();
        let mut i: usize = self.scroll_offset;
        while i < end
            invariant
                self.scroll_offset <= i <= end <= self.document@.len(),
                end == self@.end(),
                rows@.len() == i - self.scroll_offset,
                forall|k: int|
                    0 <= k < rows@.len() ==> (#[trigger] rows@[k])@ == self@.rows()[k],
            decreases end - i,
        {
            let source = &self.document[i];
            let text = fit_to_width(source.text.as_str(), self.viewport_width);
            rows.push(Line { text, style: source.style });
            i += 1;
        }
        let status = self.status_line();
        let frame = Frame { rows, status };
        assert(frame@.rows =~= self@.rows());
        frame
    }
}

/// A state scrolled to the top is within its bounds, and no sequence of
/// scroll movements takes a state out of them: after any number of lines and
/// pages up and down, the offset is at most the largest offset. Geometry and
/// document are untouched.
pub proof fn lemma_moves_stay_in_range(state: ScreenView, motions: Seq<Motion>)
    requires
        state.in_range(),
    ensures
        state.moved_all(motions).in_range(),
        state.moved_all(motions).document == state.document,
        state.moved_all(motions).viewport_height == state.viewport_height,
        state.moved_all(motions).viewport_width == state.viewport_width,
        (ScreenView { scroll_offset: 0, ..state }).in_range(),
    decreases motions.len(),
{
    if motions.len() > 0 {
        lemma_moves_stay_in_range(state, motions.drop_last());
    }
}

/// Scrolling down by `lines` and then up by `lines` leads back to where it
/// began, provided the way down did not run into the end: the offset plus
/// `lines` is at most the largest offset.
pub proof fn lemma_down_then_up_returns(state: ScreenView, lines: nat)
    requires
        state.scroll_offset + lines <= state.max_offset(),
    ensures
        state.scrolled_down(lines).scrolled_up(lines) == state,
{
}

/// Adding a line to the document leaves a state within its bounds: the
/// largest offset can only grow.
pub proof fn lemma_with_line_stays_in_range(state: ScreenView, line: LineView)
    requires
        state.in_range(),
    ensures
        state.with_line(line).in_range(),
        state.with_line(line).max_offset() >= state.max_offset(),
{
}

/// Once the viewport reaches the last line, the whole document counts as
/// shown.
pub proof fn lemma_percentage_at_end(state: ScreenView)
    requires
        state.end() == state.document.len(),
    ensures
        state.percentage() == 100,
{
    let n = state.document.len() as int;
    if n > 0 {
        assert(n * 100 / n == 100) by (nonlinear_arith)
            requires
                n > 0,
        ;
    }
}

/// At the largest offset the viewport reaches the last line.
pub proof fn lemma_end_at_max_offset(state: ScreenView)
    requires
        state.scroll_offset == state.max_offset(),
    ensures
        state.end() == state.document.len(),
{
}

} // verus!
