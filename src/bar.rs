//! Fixed-width progress bars.
use vstd::prelude::*;
use crate::frame::{Color, Line, Span, Style};
use crate::progress::{round_div, Progress};

verus! {

/// Cells in a bar.
pub const BAR_WIDTH: usize = 50;

/// `n` copies of `c`.
pub open spec fn cells(c: char, n: nat) -> Seq<char> {
    Seq::new(n, |i: int| c)
}

/// Filled cells for a progress: the percentage clamped to `[0, 100]`, halved, and
/// rounded with halves away from zero.
pub open spec fn filled_for(p: Progress) -> int {
    if p.elapsed <= 0 {
        0
    } else if p.elapsed >= p.total {
        50
    } else {
        round_div(50 * p.elapsed, p.total as int)
    }
}

/// The glyphs of a bar with `filled` full cells.
pub open spec fn bar_glyphs(filled: nat) -> Seq<char> {
    cells('█', filled) + cells('░', (50 - filled) as nat)
}

/// A rendered bar: `length` filled cells out of `BAR_WIDTH`, and whether the value it
/// stands for lay above 100 percent.
#[derive(Clone, Copy, Debug, PartialEq, Eq, Structural)]
pub struct ProgressBar {
    pub length: usize,
    pub overflow: bool,
}

/// `n` copies of the one character of `piece`.
pub fn repeat_glyph(piece: &str, n: usize) -> (r: String)
    requires
        piece@.len() == 1,
    ensures
        r@ == cells(piece@[0], n as nat),
{
    let mut out = String::new();
    let mut i: usize = 0;
    while i < n
        invariant
            i <= n,
            piece@.len() == 1,
            out@ == cells(piece@[0], i as nat),
        decreases n - i,
    {
        out.append(piece);
        assert(out@ =~= cells(piece@[0], (i + 1) as nat));
        i = i + 1;
    }
    out
}

impl ProgressBar {
    pub open spec fn wf(self) -> bool {
        self.length <= BAR_WIDTH
    }

    /// Cells left empty.
    pub open spec fn empty_cells(self) -> int {
        BAR_WIDTH - self.length
    }

    /// The runs a bar shows on a line whose own style is `base`: the filled cells in red
    /// where the value overflowed, else in `base`, then the empty cells in `base`.
    pub open spec fn spans_of(self, base: Style) -> Seq<(Seq<char>, Style)> {
        seq![
            (cells('█', self.length as nat), if self.overflow { Style::spec_of(Color::Red, false) } else { base }),
            (cells('░', (50 - self.length) as nat), base),
        ]
    }

    pub fn new(p: &Progress) -> (r: ProgressBar)
        requires
            p.wf(),
        ensures
            r.wf(),
            r.length == filled_for(*p),
            r.overflow == p.overflows(),
            0 <= p.elapsed <= p.total ==> r.length == round_div(50 * p.elapsed, p.total as int),
            p.overflows() ==> r.length == BAR_WIDTH,
            r.length + r.empty_cells() == BAR_WIDTH,
    {
        let overflow = p.elapsed > p.total;
        let length: usize = if p.elapsed <= 0 {
            proof {
                if p.elapsed == 0 {
                    vstd::arithmetic::div_mod::lemma_basic_div(p.total as int, 2 * p.total);
                }
            }
            0
        } else if p.elapsed >= p.total {
            assert(round_div(50 * p.total, p.total as int) == 50) by (nonlinear_arith)
                requires
                    p.total > 0,
            {
                assert((2 * (50 * p.total) + p.total) == 50 * (2 * p.total) + p.total);
            }
            50
        } else {
            let e = p.elapsed;
            let t = p.total;
            let q = (100 * e + t) / (2 * t);
            assert(0 <= q <= 50) by (nonlinear_arith)
                requires
                    0 < e < t,
                    q == (100 * e + t) / (2 * t),
            {
                assert(100 * e + t < 101 * t);
                assert(100 * e + t < 50 * (2 * t) + t);
            }
            q as usize
        };
        ProgressBar { length, overflow }
    }

    /// The filled cells.
    pub fn get_repeat_path_for_length(&self) -> (r: String)
        ensures
            r@ == cells('█', self.length as nat),
    {
        proof { reveal_strlit("█"); }
        repeat_glyph("█", self.length)
    }

    /// The empty cells.
    pub fn get_repeat_path_for_end(&self) -> (r: String)
        requires
            self.wf(),
        ensures
            r@ == cells('░', (BAR_WIDTH - self.length) as nat),
    {
        proof { reveal_strlit("░"); }
        repeat_glyph("░", BAR_WIDTH - self.length)
    }

    /// The bar as plain text: filled cells, then empty ones, `BAR_WIDTH` in all.
    pub fn render(&self) -> (r: String)
        requires
            self.wf(),
        ensures
            r@ == bar_glyphs(self.length as nat),
            r@.len() == BAR_WIDTH,
    {
        let mut out = self.get_repeat_path_for_length();
        let end = self.get_repeat_path_for_end();
        out.append(end.as_str());
        out
    }

    /// The bar as styled runs on a line whose own style is `base`.
    pub fn spans(&self, base: Style) -> (r: Vec<Span>)
        requires
            self.wf(),
        ensures
            r@.map_values(|s: Span| s@) == self.spans_of(base),
    {
        let filled_style = if self.overflow { Style::of(Color::Red, false) } else { base };
        let mut r: Vec<Span> = Vec::new();
        r.push(Span { text: self.get_repeat_path_for_length(), style: filled_style });
        r.push(Span { text: self.get_repeat_path_for_end(), style: base });
        assert(r@.map_values(|s: Span| s@) =~= self.spans_of(base));
        r
    }
}

/// Appends the runs of `bar`, in a line whose own style is `base`, to `line`.
pub fn push_bar(line: &mut Line, bar: &ProgressBar, base: Style)
    requires
        bar.wf(),
    ensures
        final(line)@ == old(line)@ + bar.spans_of(base),
{
    let mut s = bar.spans(base);
    let ghost added = s@;
    line.spans.append(&mut s);
    assert(final(line)@ =~= old(line)@ + bar.spans_of(base)) by {
        assert(final(line).spans@ == old(line).spans@ + added);
    }
}

} // verus!
