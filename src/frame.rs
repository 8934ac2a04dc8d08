//! Frames of styled text, and the differential step that decides when one is drawn.
use vstd::prelude::*;

verus! {

#[derive(Clone, Copy, Debug, PartialEq, Eq, Structural)]
pub enum Color {
    Normal,
    Red,
    Green,
    Yellow,
    Blue,
    Magenta,
    White,
}

/// How a piece of text is shown.
#[derive(Clone, Copy, Debug, PartialEq, Eq, Structural)]
pub struct Style {
    pub color: Color,
    pub bold: bool,
    pub dimmed: bool,
}

impl Style {
    pub open spec fn spec_of(color: Color, bold: bool) -> Style {
        Style { color, bold, dimmed: false }
    }

    /// Text with the given color, bold or not.
    pub fn of(color: Color, bold: bool) -> (r: Style)
        ensures
            r == Style::spec_of(color, bold),
    {
        Style { color, bold, dimmed: false }
    }

    pub open spec fn spec_dimmed() -> Style {
        Style { color: Color::Normal, bold: false, dimmed: true }
    }

    /// Faint text in the terminal's own color.
    pub fn dimmed() -> (r: Style)
        ensures
            r == Style::spec_dimmed(),
    {
        Style { color: Color::Normal, bold: false, dimmed: true }
    }
}

/// A run of text in one style.
pub struct Span {
    pub text: String,
    pub style: Style,
}

impl View for Span {
    type V = (Seq<char>, Style);

    open spec fn view(&self) -> (Seq<char>, Style) {
        (self.text@, self.style)
    }
}

/// One line of a frame, without its line break.
pub struct Line {
    pub spans: Vec<Span>,
}

impl View for Line {
    type V = Seq<(Seq<char>, Style)>;

    open spec fn view(&self) -> Seq<(Seq<char>, Style)> {
        self.spans@.map_values(|s: Span| s@)
    }
}

/// The content of a frame: for each line, its styled runs.
pub open spec fn frame_view(f: Seq<Line>) -> Seq<Seq<(Seq<char>, Style)>> {
    f.map_values(|l: Line| l@)
}

pub fn span(text: String, style: Style) -> (r: Span)
    ensures
        r@ == (text@, style),
{
    Span { text, style }
}

/// A line of one run.
pub fn single(text: String, style: Style) -> (r: Line)
    ensures
        r@ == seq![(text@, style)],
{
    let mut spans: Vec<Span> = Vec::new();
    spans.push(Span { text, style });
    let r = Line { spans };
    assert(r@ =~= seq![(text@, style)]);
    r
}

/// An empty line.
pub fn blank() -> (r: Line)
    ensures
        r@ == Seq::<(Seq<char>, Style)>::empty(),
{
    let r = Line { spans: Vec::new() };
    assert(r@ =~= Seq::<(Seq<char>, Style)>::empty());
    r
}

fn spans_equal(a: &Span, b: &Span) -> (r: bool)
    ensures
        r == (a@ == b@),
{
    a.style == b.style && a.text == b.text
}

/// Whether two lines hold the same runs of text in the same styles.
pub fn lines_equal(a: &Line, b: &Line) -> (r: bool)
    ensures
        r == (a@ == b@),
{
    if a.spans.len() != b.spans.len() {
        assert(a@.len() != b@.len());
        return false;
    }
    let mut i: usize = 0;
    while i < a.spans.len()
        invariant
            a.spans@.len() == b.spans@.len(),
            i <= a.spans@.len(),
            forall|j: int| 0 <= j < i ==> a.spans@[j]@ == b.spans@[j]@,
        decreases a.spans@.len() - i,
    {
        if !spans_equal(&a.spans[i], &b.spans[i]) {
            assert(a@[i as int] != b@[i as int]);
            return false;
        }
        i = i + 1;
    }
    assert(a@ =~= b@);
    true
}

/// Whether two frames show the same text in the same styles.
pub fn frames_equal(a: &Vec<Line>, b: &Vec<Line>) -> (r: bool)
    ensures
        r == (frame_view(a@) == frame_view(b@)),
{
    if a.len() != b.len() {
        assert(frame_view(a@).len() != frame_view(b@).len());
        return false;
    }
    let mut i: usize = 0;
    while i < a.len()
        invariant
            a@.len() == b@.len(),
            i <= a@.len(),
            forall|j: int| 0 <= j < i ==> a@[j]@ == b@[j]@,
        decreases a@.len() - i,
    {
        if !lines_equal(&a[i], &b[i]) {
            assert(frame_view(a@)[i as int] != frame_view(b@)[i as int]);
            return false;
        }
        i = i + 1;
    }
    assert(frame_view(a@) =~= frame_view(b@));
    true
}

/// Whether drawing `frame` over the screen that shows `last` changes anything.
pub open spec fn redraw_needed(frame: Seq<Line>, last: Seq<Line>) -> bool {
    frame_view(frame) != frame_view(last)
}

/// The frame that is on screen once `frame` has been presented over `last`.
pub open spec fn on_screen_after(frame: Seq<Line>, last: Seq<Line>) -> Seq<Line> {
    if redraw_needed(frame, last) { frame } else { last }
}

/// Differential redraw: `frame` is to be written to the terminal only where it differs
/// from `last_frame`, the frame drawn before; the one written becomes the new baseline.
/// Returns whether the caller must write `last_frame` (now the new frame) out.
pub fn present(frame: Vec<Line>, last_frame: &mut Vec<Line>) -> (drawn: bool)
    ensures
        drawn == redraw_needed(frame@, old(last_frame)@),
        final(last_frame)@ == on_screen_after(frame@, old(last_frame)@),
{
    if frames_equal(&frame, last_frame) {
        false
    } else {
        *last_frame = frame;
        true
    }
}

/// Presenting the same frame twice in a row draws at most once: after the first
/// presentation the screen already shows it, so the second one writes nothing.
pub proof fn lemma_present_twice_draws_once(frame: Seq<Line>, last: Seq<Line>)
    ensures
        !redraw_needed(frame, on_screen_after(frame, last)),
        frame_view(on_screen_after(frame, last)) == frame_view(frame),
{
}

} // verus!
