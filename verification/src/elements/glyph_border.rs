//! A container whose border is drawn from seven glyph slots
//! (`[top_left, top, top_right, side, bottom_left, bottom, bottom_right]`).
//!
//! Optional horizontal / vertical patterns repeat over the edges (corners stay slots
//! 0, 2, 4, 6). Patterns may include spaces for gaps (`"- "`, `"nunu"`, `"│ "`).
//!
//! This module decides every glyph and row of the border; the element tree, colours and
//! pixel metrics are applied by the embedding renderer.

use vstd::prelude::*;
use smallvec::SmallVec;
use crate::text::{
    any_white_space, chars_of, has_white_space, is_white_space, is_white_space_spec, push_char,
    char_at, max_string_chars, opt_view,
};

verus! {

broadcast use vstd::string::group_string_axioms;

/// The children of a border: element handles kept inline in a `SmallVec<[u64; 2]>`.
///
/// The vector is held in a private field because a direct declaration of
/// `SmallVec<A: Array>` is refused (its bound is a trait of the outside crate).
#[verifier::external_body]
pub struct ElementIds {
    ids: SmallVec<[u64; 2]>,
}

/// The element handles held, in order, by an [`ElementIds`].
pub uninterp spec fn element_ids(v: ElementIds) -> Seq<u64>;

/// `SmallVec::new`: an empty vector.
#[verifier::external_body]
fn element_ids_new() -> (v: ElementIds)
    ensures
        element_ids(v) == Seq::<u64>::empty(),
{
    ElementIds { ids: SmallVec::new() }
}

/// `SmallVec::push`: appends `id` at the end. The vector panics ("capacity overflow")
/// only when its byte size would exceed `isize::MAX`; the bound keeps clear of that.
#[verifier::external_body]
fn element_ids_push(v: &mut ElementIds, id: u64)
    requires
        element_ids(*old(v)).len() < max_children(),
    ensures
        element_ids(*final(v)) == element_ids(*old(v)).push(id),
{
    v.ids.push(id)
}

/// `SmallVec::len`: the number of elements.
#[verifier::external_body]
fn element_ids_len(v: &ElementIds) -> (n: usize)
    ensures
        n == element_ids(*v).len(),
{
    v.ids.len()
}

/// `SmallVec::into_vec`: the same elements, in the same order, as a `Vec`.
#[verifier::external_body]
fn element_ids_into_vec(v: ElementIds) -> (out: Vec<u64>)
    ensures
        out@ == element_ids(v),
{
    v.ids.into_vec()
}

/// Most children a border holds: at 8 bytes each, and with the power-of-two growth of
/// the vector, its capacity stays below `isize::MAX` bytes, past which `SmallVec::push`
/// panics ("capacity overflow"). A machine limit: 2^59 on 64-bit targets.
pub open spec fn max_children() -> int {
    (isize::MAX as int) / 16
}

/// Horizontal repeat count for top/bottom rules (clipped by the renderer).
pub const HORIZONTAL_RULE_REPEAT: usize = 512;

/// Default number of newline-separated side glyphs for the middle band.
pub const DEFAULT_VERTICAL_RAIL_LINES: usize = 512;

/// Fewest side lines a rail is built from.
pub const MIN_VERTICAL_RAIL_LINES: usize = 8;

/// `n` units of `pat` repeated cyclically; empty when `pat` is empty.
pub open spec fn cycle_spec(pat: Seq<char>, n: nat) -> Seq<char> {
    if pat.len() == 0 {
        Seq::empty()
    } else {
        Seq::new(n, |i: int| pat[i % (pat.len() as int)])
    }
}

/// Repeat the Unicode scalar sequence `pat` cyclically for `unit_count` characters
/// (spaces and multi-character cycles allowed). An empty pattern gives an empty string.
pub fn repeat_pattern_units(pat: &str, unit_count: usize) -> (out: String)
    requires
        unit_count <= max_string_chars(),
    ensures
        out@ == cycle_spec(pat@, unit_count as nat),
{
    let chars = chars_of(pat);
    let mut out = String::new();
    if chars.len() == 0 {
        return out;
    }
    let len = chars.len();
    let mut i: usize = 0;
    while i < unit_count
        invariant
            0 <= i <= unit_count,
            len == chars@.len(),
            len > 0,
            chars@ == pat@,
            unit_count <= max_string_chars(),
            out@ =~= Seq::new(i as nat, |k: int| pat@[k % (len as int)]),
        decreases unit_count - i,
    {
        push_char(&mut out, chars[i % len]);
        i = i + 1;
    }
    out
}

/// The built-in glyphs: a light box-drawing frame.
pub const DEFAULT_CHARS: [char; 7] = [
    '\u{250C}',
    '\u{2500}',
    '\u{2510}',
    '\u{2502}',
    '\u{2514}',
    '\u{2500}',
    '\u{2518}',
];

/// The glyphs of [`DEFAULT_CHARS`], as a sequence.
pub open spec fn default_chars_spec() -> Seq<char> {
    seq!['\u{250C}', '\u{2500}', '\u{2510}', '\u{2502}', '\u{2514}', '\u{2500}', '\u{2518}']
}

/// The font family used for border glyphs when none is set.
pub open spec fn monospace_spec() -> Seq<char> {
    seq!['m', 'o', 'n', 'o', 's', 'p', 'a', 'c', 'e']
}

/// A container that draws a border from seven glyph slots (see [`GlyphBorder::border_chars`]).
pub struct GlyphBorder {
    children: ElementIds,
    chars: [char; 7],
    border_font_family: Option<String>,
    vertical_rail_lines: Option<usize>,
    horizontal_rule_pattern: Option<String>,
    vertical_rail_pattern: Option<String>,
}

/// A pattern as the builders store it: unset when empty.
pub open spec fn pattern_spec(p: Seq<char>) -> Option<Seq<char>> {
    if p.len() == 0 {
        None
    } else {
        Some(p)
    }
}

impl GlyphBorder {
    /// The element handles of the children, in order.
    pub closed spec fn children_spec(&self) -> Seq<u64> {
        element_ids(self.children)
    }

    /// The seven glyph slots.
    pub closed spec fn chars_spec(&self) -> Seq<char> {
        self.chars@
    }

    /// The font family set for border glyphs, if any.
    pub closed spec fn font_family_spec(&self) -> Option<Seq<char>> {
        opt_view(self.border_font_family)
    }

    /// The number of vertical rail lines set, if any.
    pub closed spec fn rail_lines_spec(&self) -> Option<usize> {
        self.vertical_rail_lines
    }

    /// The horizontal rule pattern, if any.
    pub closed spec fn horizontal_pattern_spec(&self) -> Option<Seq<char>> {
        opt_view(self.horizontal_rule_pattern)
    }

    /// The vertical rail pattern, if any.
    pub closed spec fn vertical_pattern_spec(&self) -> Option<Seq<char>> {
        opt_view(self.vertical_rail_pattern)
    }

    /// Override the border glyphs.
    ///
    /// Order: `[top_left, top, top_right, side, bottom_left, bottom, bottom_right]`
    pub fn border_chars(self, chars: [char; 7]) -> (r: Self)
        ensures
            r.chars_spec() == chars@,
            r.children_spec() == self.children_spec(),
            r.font_family_spec() == self.font_family_spec(),
            r.rail_lines_spec() == self.rail_lines_spec(),
            r.horizontal_pattern_spec() == self.horizontal_pattern_spec(),
            r.vertical_pattern_spec() == self.vertical_pattern_spec(),
    {
        GlyphBorder { chars, ..self }
    }

    /// Font family for all border/corner glyphs (horizontal runs and vertical rails).
    pub fn border_font_family(self, name: &str) -> (r: Self)
        ensures
            r.font_family_spec() == Some(name@),
            r.chars_spec() == self.chars_spec(),
            r.children_spec() == self.children_spec(),
            r.rail_lines_spec() == self.rail_lines_spec(),
            r.horizontal_pattern_spec() == self.horizontal_pattern_spec(),
            r.vertical_pattern_spec() == self.vertical_pattern_spec(),
    {
        GlyphBorder { border_font_family: Some(name.to_owned()), ..self }
    }

    /// How many `side` glyphs (plus newlines) build each vertical rail; never fewer than 8.
    /// Short boxes (e.g. table rows) should pass ~`48..96` so nested lists stay cheap.
    pub fn vertical_rail_lines(self, lines: usize) -> (r: Self)
        ensures
            r.rail_lines_spec() == Some(
                if lines < MIN_VERTICAL_RAIL_LINES {
                    MIN_VERTICAL_RAIL_LINES
                } else {
                    lines
                },
            ),
            r.chars_spec() == self.chars_spec(),
            r.children_spec() == self.children_spec(),
            r.font_family_spec() == self.font_family_spec(),
            r.horizontal_pattern_spec() == self.horizontal_pattern_spec(),
            r.vertical_pattern_spec() == self.vertical_pattern_spec(),
    {
        let lines = if lines < MIN_VERTICAL_RAIL_LINES {
            MIN_VERTICAL_RAIL_LINES
        } else {
            lines
        };
        GlyphBorder { vertical_rail_lines: Some(lines), ..self }
    }

    /// Repeating sequence for top and bottom horizontal rules (same pattern on both rows).
    /// An empty pattern unsets it.
    pub fn border_horizontal_pattern(self, pattern: &str) -> (r: Self)
        ensures
            r.horizontal_pattern_spec() == pattern_spec(pattern@),
            r.chars_spec() == self.chars_spec(),
            r.children_spec() == self.children_spec(),
            r.font_family_spec() == self.font_family_spec(),
            r.rail_lines_spec() == self.rail_lines_spec(),
            r.vertical_pattern_spec() == self.vertical_pattern_spec(),
    {
        let p = if pattern.is_empty() {
            None
        } else {
            Some(pattern.to_owned())
        };
        GlyphBorder { horizontal_rule_pattern: p, ..self }
    }

    /// One repeating sequence for vertical rails: line *i* uses pattern character `i % len`.
    /// An empty pattern unsets it.
    pub fn border_vertical_pattern(self, pattern: &str) -> (r: Self)
        ensures
            r.vertical_pattern_spec() == pattern_spec(pattern@),
            r.chars_spec() == self.chars_spec(),
            r.children_spec() == self.children_spec(),
            r.font_family_spec() == self.font_family_spec(),
            r.rail_lines_spec() == self.rail_lines_spec(),
            r.horizontal_pattern_spec() == self.horizontal_pattern_spec(),
    {
        let p = if pattern.is_empty() {
            None
        } else {
            Some(pattern.to_owned())
        };
        GlyphBorder { vertical_rail_pattern: p, ..self }
    }

    /// Appends child elements (by handle), after the existing ones.
    pub fn extend(&mut self, elements: &[u64])
        requires
            old(self).children_spec().len() + elements@.len() <= max_children(),
        ensures
            final(self).children_spec() == old(self).children_spec() + elements@,
            final(self).chars_spec() == old(self).chars_spec(),
            final(self).font_family_spec() == old(self).font_family_spec(),
            final(self).rail_lines_spec() == old(self).rail_lines_spec(),
            final(self).horizontal_pattern_spec() == old(self).horizontal_pattern_spec(),
            final(self).vertical_pattern_spec() == old(self).vertical_pattern_spec(),
    {
        let mut i: usize = 0;
        while i < elements.len()
            invariant
                0 <= i <= elements@.len(),
                old(self).children_spec().len() + elements@.len() <= max_children(),
                self.children_spec() =~= old(self).children_spec() + elements@.take(i as int),
                self.chars_spec() == old(self).chars_spec(),
                self.font_family_spec() == old(self).font_family_spec(),
                self.rail_lines_spec() == old(self).rail_lines_spec(),
                self.horizontal_pattern_spec() == old(self).horizontal_pattern_spec(),
                self.vertical_pattern_spec() == old(self).vertical_pattern_spec(),
            decreases elements@.len() - i,
        {
            element_ids_push(&mut self.children, elements[i]);
            assert(elements@.take(i + 1) =~= elements@.take(i as int).push(elements@[i as int]));
            i = i + 1;
        }
        assert(elements@.take(elements@.len() as int) =~= elements@);
    }

    /// The number of children.
    pub fn child_count(&self) -> (n: usize)
        ensures
            n == self.children_spec().len(),
    {
        element_ids_len(&self.children)
    }
}

/// Construct a [`GlyphBorder`] with the default glyphs, no children and nothing else set.
pub fn glyph_border() -> (r: GlyphBorder)
    ensures
        r.chars_spec() == default_chars_spec(),
        r.children_spec() == Seq::<u64>::empty(),
        r.font_family_spec() == None::<Seq<char>>,
        r.rail_lines_spec() == None::<usize>,
        r.horizontal_pattern_spec() == None::<Seq<char>>,
        r.vertical_pattern_spec() == None::<Seq<char>>,
{
    let r = GlyphBorder {
        children: element_ids_new(),
        chars: DEFAULT_CHARS,
        border_font_family: None,
        vertical_rail_lines: None,
        horizontal_rule_pattern: None,
        vertical_rail_pattern: None,
    };
    assert(r.chars@ =~= default_chars_spec());
    r
}

/// The number of side lines a rail is built from: the configured count (default 512),
/// never fewer than 8.
pub open spec fn side_lines_spec(lines: Option<usize>) -> nat {
    let n: nat = match lines {
        Some(n) => n as nat,
        None => DEFAULT_VERTICAL_RAIL_LINES as nat,
    };
    if n < MIN_VERTICAL_RAIL_LINES {
        MIN_VERTICAL_RAIL_LINES as nat
    } else {
        n
    }
}

/// The characters of the vertical pattern; empty when none is set.
pub open spec fn vertical_cycle_spec(p: Option<Seq<char>>) -> Seq<char> {
    match p {
        Some(s) => s,
        None => Seq::empty(),
    }
}

/// Rails are drawn as structured rows (rather than one newline-separated text column)
/// exactly when a vertical pattern is set and it holds a white-space gap.
pub open spec fn structured_spec(p: Option<Seq<char>>) -> bool {
    vertical_cycle_spec(p).len() > 0 && has_white_space(vertical_cycle_spec(p))
}

/// The fill of a horizontal rule: the pattern repeated over 512 units, or the slot's
/// glyph 512 times when no pattern is set.
pub open spec fn rule_fill_spec(h: Option<Seq<char>>, mid: char) -> Seq<char> {
    match h {
        Some(p) => cycle_spec(p, HORIZONTAL_RULE_REPEAT as nat),
        None => Seq::new(HORIZONTAL_RULE_REPEAT as nat, |i: int| mid),
    }
}

/// The glyph of side line `k`: the vertical cycle's character `k % len`, or the `side`
/// slot when there is no cycle.
pub open spec fn rail_char_spec(cycle: Seq<char>, side: char, k: int) -> char {
    if cycle.len() > 0 {
        cycle[k % (cycle.len() as int)]
    } else {
        side
    }
}

/// The text column of a rail: `n` lines, each one glyph followed by `'\n'`.
pub open spec fn side_column_spec(cycle: Seq<char>, side: char, n: nat) -> Seq<char> {
    Seq::new(
        2 * n,
        |i: int|
            if i % 2 == 1 {
                '\n'
            } else {
                rail_char_spec(cycle, side, i / 2)
            },
    )
}

/// One row of a structured rail.
#[derive(Clone, Copy, Debug, PartialEq, Eq, Structural)]
pub enum RailRow {
    /// A glyph followed by a gap, stacked in one band (the `"┃ "` pattern).
    Stripe(char),
    /// A glyph row, dash-height.
    Glyph(char),
    /// An empty row, gap-height.
    Gap,
}

/// A two-character cycle of a glyph followed by white space: rendered as stripes.
pub open spec fn pair_glyph_gap_spec(cycle: Seq<char>) -> bool {
    cycle.len() == 2 && !is_white_space_spec(cycle[0]) && is_white_space_spec(cycle[1])
}

/// The row for cycle character `c`: a gap for white space, else a glyph.
pub open spec fn cycle_row_spec(c: char) -> RailRow {
    if is_white_space_spec(c) {
        RailRow::Gap
    } else {
        RailRow::Glyph(c)
    }
}

/// A stripe of glyph `c`.
pub open spec fn stripe_row_spec(c: char) -> RailRow {
    RailRow::Stripe(c)
}

/// A glyph row of `c`.
pub open spec fn glyph_row_spec(c: char) -> RailRow {
    RailRow::Glyph(c)
}

/// The rows of a structured rail of `n` rows. A glyph-gap pair gives `n / 2` stripes and,
/// for odd `n`, one trailing glyph row; any other cycle gives one row per line.
pub open spec fn structured_rows_spec(cycle: Seq<char>, n: nat) -> Seq<RailRow> {
    if pair_glyph_gap_spec(cycle) {
        Seq::new(n / 2, |i: int| stripe_row_spec(cycle[0])) + if n % 2 == 1 {
            seq![glyph_row_spec(cycle[0])]
        } else {
            Seq::empty()
        }
    } else {
        Seq::new(n, |i: int| cycle_row_spec(cycle[i % (cycle.len() as int)]))
    }
}

/// The rows of a structured rail with `rail_fill_rows` rows over the vertical cycle.
pub fn structured_rail_rows(cycle: &[char], rail_fill_rows: usize) -> (rows: Vec<RailRow>)
    requires
        cycle@.len() > 0,
    ensures
        rows@ == structured_rows_spec(cycle@, rail_fill_rows as nat),
        pair_glyph_gap_spec(cycle@) ==> rows@.len() == rail_fill_rows / 2 + rail_fill_rows % 2,
        !pair_glyph_gap_spec(cycle@) ==> rows@.len() == rail_fill_rows,
{
    let mut rows: Vec<RailRow> = Vec::new();
    let len = cycle.len();
    let pair = len == 2 && !is_white_space(char_at(cycle, 0)) && is_white_space(char_at(cycle, 1));
    if pair {
        let glyph = char_at(cycle, 0);
        let pair_count = rail_fill_rows / 2;
        let mut i: usize = 0;
        while i < pair_count
            invariant
                0 <= i <= pair_count,
                pair_count == rail_fill_rows / 2,
                cycle@.len() > 0,
                glyph == cycle@[0],
                rows@.len() == i,
                forall|k: int| 0 <= k < i ==> rows@[k] == RailRow::Stripe(cycle@[0]),
            decreases pair_count - i,
        {
            rows.push(RailRow::Stripe(glyph));
            i = i + 1;
        }
        if rail_fill_rows % 2 == 1 {
            rows.push(RailRow::Glyph(glyph));
            assert(rows@ =~= structured_rows_spec(cycle@, rail_fill_rows as nat));
        } else {
            assert(rows@ =~= structured_rows_spec(cycle@, rail_fill_rows as nat));
        }
    } else {
        let mut i: usize = 0;
        while i < rail_fill_rows
            invariant
                0 <= i <= rail_fill_rows,
                len == cycle@.len(),
                len > 0,
                rows@.len() == i,
                forall|k: int| 0 <= k < i ==> rows@[k] == cycle_row_spec(cycle@[k % (len as int)]),
            decreases rail_fill_rows - i,
        {
            let c = char_at(cycle, i % len);
            if is_white_space(c) {
                rows.push(RailRow::Gap);
            } else {
                rows.push(RailRow::Glyph(c));
            }
            i = i + 1;
        }
        assert(rows@ =~= structured_rows_spec(cycle@, rail_fill_rows as nat));
    }
    rows
}

/// A horizontal rule: corner glyph, repeated fill, corner glyph.
pub struct RuleRow {
    pub left: char,
    pub fill: String,
    pub right: char,
}

/// How a vertical rail is filled.
pub enum RailFill {
    /// One newline-separated text column.
    Column(String),
    /// Stacked rows (patterns with white-space gaps).
    Rows(Vec<RailRow>),
}

/// Everything the renderer needs to draw a [`GlyphBorder`]: the glyph font, both rules,
/// the rail fill shared by the left and right rails, and the children in order.
pub struct GlyphBorderLayout {
    pub font_family: String,
    pub top: RuleRow,
    pub bottom: RuleRow,
    pub rail: RailFill,
    pub children: Vec<u64>,
}

impl GlyphBorder {
    /// The font family for border glyphs; `"monospace"` when none is set.
    pub fn font_family(&self) -> (r: String)
        ensures
            r@ == match self.font_family_spec() {
                Some(f) => f,
                None => monospace_spec(),
            },
    {
        match &self.border_font_family {
            Some(f) => f.clone(),
            None => {
                let r = String::from_str("monospace");
                proof {
                    reveal_strlit("monospace");
                }
                assert(r@ =~= monospace_spec());
                r
            },
        }
    }

    /// The number of side lines each text rail is built from.
    pub fn side_line_count(&self) -> (n: usize)
        ensures
            n as nat == side_lines_spec(self.rail_lines_spec()),
    {
        let n = match self.vertical_rail_lines {
            Some(n) => n,
            None => DEFAULT_VERTICAL_RAIL_LINES,
        };
        if n < MIN_VERTICAL_RAIL_LINES {
            MIN_VERTICAL_RAIL_LINES
        } else {
            n
        }
    }

    /// The characters of the vertical pattern (empty when none is set).
    pub fn vertical_cycle(&self) -> (cycle: Vec<char>)
        ensures
            cycle@ == vertical_cycle_spec(self.vertical_pattern_spec()),
    {
        match &self.vertical_rail_pattern {
            Some(p) => chars_of(p.as_str()),
            None => Vec::new(),
        }
    }

    /// Whether the rails are drawn as structured rows.
    pub fn uses_structured_vertical(&self) -> (b: bool)
        ensures
            b == structured_spec(self.vertical_pattern_spec()),
    {
        let cycle = self.vertical_cycle();
        cycle.len() > 0 && any_white_space(cycle.as_slice())
    }

    /// The fill of a horizontal rule whose unpatterned glyph is `mid`.
    pub fn horizontal_rule(&self, mid: char) -> (fill: String)
        ensures
            fill@ == rule_fill_spec(self.horizontal_pattern_spec(), mid),
    {
        match &self.horizontal_rule_pattern {
            Some(p) => repeat_pattern_units(p.as_str(), HORIZONTAL_RULE_REPEAT),
            None => {
                let mut out = String::new();
                let mut i: usize = 0;
                while i < HORIZONTAL_RULE_REPEAT
                    invariant
                        0 <= i <= HORIZONTAL_RULE_REPEAT,
                        out@ =~= Seq::new(i as nat, |k: int| mid),
                    decreases HORIZONTAL_RULE_REPEAT - i,
                {
                    push_char(&mut out, mid);
                    i = i + 1;
                }
                out
            },
        }
    }

    /// The text column of a rail: one glyph and a newline per side line.
    pub fn side_column(&self) -> (col: String)
        requires
            2 * side_lines_spec(self.rail_lines_spec()) <= max_string_chars(),
        ensures
            col@ == side_column_spec(
                vertical_cycle_spec(self.vertical_pattern_spec()),
                self.chars_spec()[3],
                side_lines_spec(self.rail_lines_spec()),
            ),
    {
        let n = self.side_line_count();
        let cycle = self.vertical_cycle();
        let side = self.chars[3];
        let len = cycle.len();
        let ghost spec_cycle = cycle@;
        let mut out = String::new();
        let mut i: usize = 0;
        while i < n
            invariant
                0 <= i <= n,
                2 * n <= max_string_chars(),
                len == cycle@.len(),
                cycle@ == spec_cycle,
                out@ =~= side_column_spec(spec_cycle, side, i as nat),
            decreases n - i,
        {
            let c = if len > 0 {
                cycle[i % len]
            } else {
                side
            };
            push_char(&mut out, c);
            push_char(&mut out, '\n');
            assert(out@ =~= side_column_spec(spec_cycle, side, (i + 1) as nat));
            i = i + 1;
        }
        out
    }

    /// Lays the border out: the glyph font, the top rule (slots 0, 1, 2), the bottom
    /// rule (slots 4, 5, 6), the rail fill shared by both side rails and the children.
    ///
    /// `structured_row_budget` is the number of rows a structured rail gets (the renderer
    /// derives it from its pixel metrics); a text rail uses the side-line count instead.
    pub fn layout(self, structured_row_budget: usize) -> (l: GlyphBorderLayout)
        requires
            structured_spec(self.vertical_pattern_spec()) || 2 * side_lines_spec(
                self.rail_lines_spec(),
            ) <= max_string_chars(),
        ensures
            l.font_family@ == match self.font_family_spec() {
                Some(f) => f,
                None => monospace_spec(),
            },
            l.top.left == self.chars_spec()[0],
            l.top.fill@ == rule_fill_spec(self.horizontal_pattern_spec(), self.chars_spec()[1]),
            l.top.right == self.chars_spec()[2],
            l.bottom.left == self.chars_spec()[4],
            l.bottom.fill@ == rule_fill_spec(
                self.horizontal_pattern_spec(),
                self.chars_spec()[5],
            ),
            l.bottom.right == self.chars_spec()[6],
            l.children@ == self.children_spec(),
            match l.rail {
                RailFill::Column(col) => !structured_spec(self.vertical_pattern_spec())
                    && col@ == side_column_spec(
                    vertical_cycle_spec(self.vertical_pattern_spec()),
                    self.chars_spec()[3],
                    side_lines_spec(self.rail_lines_spec()),
                ),
                RailFill::Rows(rows) => structured_spec(self.vertical_pattern_spec()) && rows@
                    == structured_rows_spec(
                    vertical_cycle_spec(self.vertical_pattern_spec()),
                    structured_row_budget as nat,
                ),
            },
    {
        let font_family = self.font_family();
        let top = RuleRow {
            left: self.chars[0],
            fill: self.horizontal_rule(self.chars[1]),
            right: self.chars[2],
        };
        let bottom = RuleRow {
            left: self.chars[4],
            fill: self.horizontal_rule(self.chars[5]),
            right: self.chars[6],
        };
        let rail = if self.uses_structured_vertical() {
            let cycle = self.vertical_cycle();
            RailFill::Rows(structured_rail_rows(cycle.as_slice(), structured_row_budget))
        } else {
            RailFill::Column(self.side_column())
        };
        let children = element_ids_into_vec(self.children);
        GlyphBorderLayout { font_family, top, bottom, rail, children }
    }
}

/// A repeated pattern is periodic: the unit `len` places after unit `i` is the same
/// character, and the repetition has exactly the requested number of units.
pub proof fn lemma_repeat_is_periodic(pat: Seq<char>, n: nat, i: int)
    requires
        pat.len() > 0,
        0 <= i,
        i + pat.len() < n,
    ensures
        cycle_spec(pat, n).len() == n,
        cycle_spec(pat, n)[i + pat.len()] == cycle_spec(pat, n)[i],
{
    let len = pat.len() as int;
    vstd::arithmetic::div_mod::lemma_mod_add_multiples_vanish(i, len);
}

/// A repetition of `n` units: empty for an empty pattern; otherwise exactly `n`
/// characters, unit `i` being pattern character `i % len`.
pub proof fn lemma_repeat_units(pat: Seq<char>, n: nat)
    ensures
        pat.len() == 0 ==> cycle_spec(pat, n) == Seq::<char>::empty(),
        pat.len() > 0 ==> cycle_spec(pat, n).len() == n,
        pat.len() > 0 ==> forall|i: int|
            0 <= i < n ==> #[trigger] cycle_spec(pat, n)[i] == pat[i % (pat.len() as int)],
{
}

/// A shorter repetition of a non-empty pattern is a prefix of a longer one (an empty
/// pattern repeats to nothing, see [`lemma_repeat_units`]).
pub proof fn lemma_repeat_is_prefix(pat: Seq<char>, n: nat, m: nat)
    requires
        pat.len() > 0,
        n <= m,
    ensures
        cycle_spec(pat, n) == cycle_spec(pat, m).take(n as int),
{
    lemma_repeat_units(pat, n);
    lemma_repeat_units(pat, m);
    assert(cycle_spec(pat, n) =~= cycle_spec(pat, m).take(n as int));
}

/// Line `k` of a text rail is the vertical cycle's character `k % len` (the side glyph
/// when there is no cycle) followed by a newline, and the rail has exactly `n` lines.
pub proof fn lemma_side_column_lines(cycle: Seq<char>, side: char, n: nat, k: int)
    requires
        0 <= k < n,
    ensures
        side_column_spec(cycle, side, n).len() == 2 * n,
        cycle.len() > 0 ==> side_column_spec(cycle, side, n)[2 * k] == cycle[k % (
        cycle.len() as int)],
        cycle.len() == 0 ==> side_column_spec(cycle, side, n)[2 * k] == side,
        side_column_spec(cycle, side, n)[2 * k + 1] == '\n',
{
    assert((2 * k) % 2 == 0 && (2 * k) / 2 == k) by (nonlinear_arith)
        requires
            0 <= k,
    ;
    assert((2 * k + 1) % 2 == 1) by (nonlinear_arith)
        requires
            0 <= k,
    ;
}

/// The number of lines of a text rail: 512 when unset, else the configured count, raised
/// to 8 when smaller and never capped.
pub proof fn lemma_side_line_count(lines: Option<usize>)
    ensures
        lines is None ==> side_lines_spec(lines) == 512,
        lines matches Some(n) ==> (n >= 8 ==> side_lines_spec(lines) == n),
        lines matches Some(n) ==> (n < 8 ==> side_lines_spec(lines) == 8),
{
}

/// A horizontal rule has 512 characters: the slot glyph throughout when no pattern is
/// set, else the pattern repeated, character `i` being pattern character `i % len`,
/// whatever characters the pattern holds.
pub proof fn lemma_rule_fill(h: Option<Seq<char>>, mid: char)
    ensures
        h is None ==> rule_fill_spec(h, mid).len() == 512,
        h is None ==> forall|i: int| 0 <= i < 512 ==> #[trigger] rule_fill_spec(h, mid)[i] == mid,
        h matches Some(p) ==> (p.len() > 0 ==> rule_fill_spec(h, mid).len() == 512),
        h matches Some(p) ==> (p.len() > 0 ==> (forall|i: int|
            0 <= i < 512 ==> #[trigger] rule_fill_spec(h, mid)[i] == p[i % (p.len() as int)])),
{
}

/// The vertical cycle is the pattern's characters, and the rails are structured rows
/// exactly when a vertical pattern is set and holds at least one `White_Space` character
/// (any such pattern, not only a glyph-gap pair).
pub proof fn lemma_structured_iff_white_space(p: Option<Seq<char>>)
    ensures
        p matches Some(s) ==> vertical_cycle_spec(p) == s,
        p is None ==> vertical_cycle_spec(p).len() == 0,
        structured_spec(p) <==> (p matches Some(s) && exists|i: int|
            0 <= i < s.len() && #[trigger] is_white_space_spec(s[i])),
{
}

/// The rows of a structured rail of `n` rows. A cycle of exactly a glyph then white space
/// gives `n / 2` stripes of that glyph and, for odd `n`, one final glyph row. Any other
/// cycle gives `n` rows, row `k` being a gap when character `k % len` is white space and
/// a glyph row of that very character otherwise.
pub proof fn lemma_structured_rows(cycle: Seq<char>, n: nat)
    requires
        cycle.len() > 0,
    ensures
        pair_glyph_gap_spec(cycle) <==> (cycle.len() == 2 && !is_white_space_spec(cycle[0])
            && is_white_space_spec(cycle[1])),
        !pair_glyph_gap_spec(cycle) ==> structured_rows_spec(cycle, n).len() == n,
        !pair_glyph_gap_spec(cycle) ==> forall|k: int|
            0 <= k < n ==> #[trigger] structured_rows_spec(cycle, n)[k] == (if is_white_space_spec(
                cycle[k % (cycle.len() as int)],
            ) {
                RailRow::Gap
            } else {
                RailRow::Glyph(cycle[k % (cycle.len() as int)])
            }),
        pair_glyph_gap_spec(cycle) ==> structured_rows_spec(cycle, n).len() == n / 2 + n % 2,
        pair_glyph_gap_spec(cycle) ==> forall|k: int|
            0 <= k < n / 2 ==> #[trigger] structured_rows_spec(cycle, n)[k] == RailRow::Stripe(
                cycle[0],
            ),
        pair_glyph_gap_spec(cycle) && n % 2 == 1 ==> structured_rows_spec(cycle, n)[(n / 2) as int]
            == RailRow::Glyph(cycle[0]),
{
}

/// A pattern given to a builder is stored as given, and unset exactly when it is empty.
pub proof fn lemma_pattern_stored(p: Seq<char>)
    ensures
        p.len() == 0 <==> pattern_spec(p) is None,
        p.len() > 0 ==> pattern_spec(p) == Some(p),
{
}

} // verus!
