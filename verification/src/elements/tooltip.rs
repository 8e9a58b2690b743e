//! Reusable tooltip content and builder helpers.
//!
//! Use [`tooltip`] for the common single-text case; for richer content build a
//! [`Tooltip`]: `Tooltip::build(|t| t.title("Warning").item("missing: foo"))`.
//!
//! A tooltip is a bold title line, bullet-prefixed body lines (`"• item"`), then any
//! extra elements, in that order; [`Tooltip::render`] lists them as rows.

use vstd::prelude::*;
use crate::text::opt_view;

verus! {

/// Background, `0xRRGGBB`: a neutral dark box that works on light and dark hosts.
pub const BG: u32 = 0x1a1f2a;
/// Background alpha.
pub const BG_ALPHA: u32 = 0xee;
/// Border colour, `0xRRGGBB`.
pub const BORDER: u32 = 0x38404e;
/// Border alpha.
pub const BORDER_ALPHA: u32 = 0xcc;
/// Title text colour, `0xRRGGBB`.
pub const TITLE_TEXT: u32 = 0xf1f5f9;
/// Body text colour, `0xRRGGBB`.
pub const BODY_TEXT: u32 = 0xb0b8c8;

/// The colours a tooltip is drawn with: `0xRRGGBBAA` for the translucent box and its
/// border, `0xRRGGBB` for the opaque text.
#[derive(Clone, Copy, Debug, PartialEq, Eq, Structural)]
pub struct TooltipColors {
    pub background_rgba: u32,
    pub border_rgba: u32,
    pub title_rgb: u32,
    pub body_rgb: u32,
}

/// The tooltip colours: each translucent colour is its `0xRRGGBB` shifted up a byte with
/// the alpha in the low byte.
pub fn tooltip_colors() -> (c: TooltipColors)
    ensures
        c.background_rgba == BG * 0x100 + BG_ALPHA,
        c.border_rgba == BORDER * 0x100 + BORDER_ALPHA,
        c.title_rgb == TITLE_TEXT,
        c.body_rgb == BODY_TEXT,
{
    let background_rgba = (BG << 8u32) | BG_ALPHA;
    let border_rgba = (BORDER << 8u32) | BORDER_ALPHA;
    assert(((0x1a1f2au32 << 8u32) | 0xeeu32) == 0x1a1f2aeeu32) by (bit_vector);
    assert(((0x38404eu32 << 8u32) | 0xccu32) == 0x38404eccu32) by (bit_vector);
    TooltipColors { background_rgba, border_rgba, title_rgb: TITLE_TEXT, body_rgb: BODY_TEXT }
}

/// A tooltip's content: an optional title, body items and extra elements.
pub struct Tooltip<E> {
    title: Option<String>,
    items: Vec<String>,
    extra: Vec<E>,
}

/// One rendered row of a tooltip.
pub enum TooltipRow<E> {
    /// The bold header line.
    Title(String),
    /// A body line, already prefixed with the bullet (`"• item"`).
    Item(String),
    /// An extra element, after the items.
    Extra(E),
}

/// What a [`TooltipRow`] holds, with its text as characters.
pub enum TooltipLine<E> {
    Title(Seq<char>),
    Item(Seq<char>),
    Extra(E),
}

/// The text of a [`TooltipRow`] as a [`TooltipLine`].
pub open spec fn row_line<E>(r: TooltipRow<E>) -> TooltipLine<E> {
    match r {
        TooltipRow::Title(s) => TooltipLine::Title(s@),
        TooltipRow::Item(s) => TooltipLine::Item(s@),
        TooltipRow::Extra(e) => TooltipLine::Extra(e),
    }
}

/// The bullet that prefixes each body line: `"• "`.
pub open spec fn bullet_spec() -> Seq<char> {
    seq!['\u{2022}', ' ']
}

/// The rows a tooltip renders to: the title (when set), one bullet line per item, then
/// the extra elements.
pub open spec fn rows_spec<E>(
    title: Option<Seq<char>>,
    items: Seq<Seq<char>>,
    extra: Seq<E>,
) -> Seq<TooltipLine<E>> {
    let head: Seq<TooltipLine<E>> = match title {
        Some(t) => seq![TooltipLine::Title(t)],
        None => Seq::empty(),
    };
    head + items.map_values(|i: Seq<char>| TooltipLine::Item(bullet_spec() + i)) + extra.map_values(
        |e: E| TooltipLine::Extra(e),
    )
}

impl<E> Tooltip<E> {
    /// The title, if set.
    pub closed spec fn title_spec(&self) -> Option<Seq<char>> {
        opt_view(self.title)
    }

    /// The body items, in order.
    pub closed spec fn items_spec(&self) -> Seq<Seq<char>> {
        self.items@.map_values(|s: String| s@)
    }

    /// The extra elements, in order.
    pub closed spec fn extra_spec(&self) -> Seq<E> {
        self.extra@
    }

    /// No title, no items and no extra elements.
    pub open spec fn is_empty_spec(&self) -> bool {
        &&& self.title_spec() is None
        &&& self.items_spec().len() == 0
        &&& self.extra_spec().len() == 0
    }

    /// The rows this tooltip renders to.
    pub open spec fn rendered_spec(&self) -> Seq<TooltipLine<E>> {
        rows_spec(self.title_spec(), self.items_spec(), self.extra_spec())
    }

    /// Create an empty tooltip. Add content with [`title`](Self::title),
    /// [`item`](Self::item), or [`child`](Self::child).
    pub fn new() -> (t: Self)
        ensures
            t.is_empty_spec(),
    {
        let t = Tooltip { title: None, items: Vec::new(), extra: Vec::new() };
        assert(t.items_spec() =~= Seq::<Seq<char>>::empty());
        t
    }

    /// Bold header line; replaces any earlier title.
    pub fn title(self, text: &str) -> (t: Self)
        ensures
            t.title_spec() == Some(text@),
            t.items_spec() == self.items_spec(),
            t.extra_spec() == self.extra_spec(),
    {
        Tooltip { title: Some(text.to_owned()), ..self }
    }

    /// Bullet-prefixed body line, after the earlier ones.
    pub fn item(self, text: &str) -> (t: Self)
        ensures
            t.title_spec() == self.title_spec(),
            t.items_spec() == self.items_spec().push(text@),
            t.extra_spec() == self.extra_spec(),
    {
        let mut items = self.items;
        let ghost old_items = items@;
        items.push(text.to_owned());
        let t = Tooltip { title: self.title, items, extra: self.extra };
        assert(t.items_spec() =~= self.items_spec().push(text@)) by {
            assert(items@ == old_items.push(items@.last()));
        }
        t
    }

    /// Arbitrary element appended after items (and after earlier extra elements).
    pub fn child(self, el: E) -> (t: Self)
        ensures
            t.title_spec() == self.title_spec(),
            t.items_spec() == self.items_spec(),
            t.extra_spec() == self.extra_spec().push(el),
    {
        let mut extra = self.extra;
        extra.push(el);
        Tooltip { title: self.title, items: self.items, extra }
    }

    /// Build a tooltip by applying `f` to an empty one.
    pub fn build<F: FnOnce(Tooltip<E>) -> Tooltip<E>>(f: F) -> (t: Tooltip<E>)
        requires
            forall|e: Tooltip<E>| e.is_empty_spec() ==> f.requires((e,)),
        ensures
            exists|e: Tooltip<E>| e.is_empty_spec() && f.ensures((e,), t),
    {
        let e = Tooltip::new();
        f(e)
    }

    /// Consume the tooltip and return the source a tooltip hook draws from: the first
    /// request yields this tooltip, every later one an empty tooltip.
    pub fn into_fn(self) -> (s: TooltipSlot<E>)
        ensures
            s.pending_spec() == Some(self),
    {
        TooltipSlot { pending: Some(self) }
    }

    /// The rows to draw, in order: title, bullet lines, extra elements. Rendering moves
    /// the content out: the tooltip is empty afterwards.
    pub fn render(&mut self) -> (rows: Vec<TooltipRow<E>>)
        ensures
            rows@.map_values(|r: TooltipRow<E>| row_line(r)) == old(self).rendered_spec(),
            final(self).is_empty_spec(),
    {
        let ghost old_self = *self;
        let mut rows: Vec<TooltipRow<E>> = Vec::new();
        let title = self.title.take();
        match title {
            Some(t) => {
                rows.push(TooltipRow::Title(t));
            },
            None => {},
        }
        let ghost head = rows@.map_values(|r: TooltipRow<E>| row_line(r));
        assert(head =~= match old_self.title_spec() {
            Some(t) => seq![TooltipLine::<E>::Title(t)],
            None => Seq::<TooltipLine<E>>::empty(),
        });
        let mut items: Vec<String> = Vec::new();
        std::mem::swap(&mut items, &mut self.items);
        let mut extra: Vec<E> = Vec::new();
        std::mem::swap(&mut extra, &mut self.extra);
        let ghost item_lines = old_self.items_spec().map_values(
            |i: Seq<char>| TooltipLine::<E>::Item(bullet_spec() + i),
        );
        let ghost extra_lines = old_self.extra_spec().map_values(|e: E| TooltipLine::Extra(e));
        let mut i: usize = 0;
        while i < items.len()
            invariant
                0 <= i <= items@.len(),
                items@.map_values(|s: String| s@) == old_self.items_spec(),
                item_lines.len() == items@.len(),
                forall|k: int|
                    0 <= k < items@.len() ==> #[trigger] item_lines[k] == TooltipLine::<E>::Item(
                        bullet_spec() + items@[k]@,
                    ),
                rows@.map_values(|r: TooltipRow<E>| row_line(r)) =~= head + item_lines.take(
                    i as int,
                ),
            decreases items@.len() - i,
        {
            let mut line = String::from_str("\u{2022} ");
            proof {
                reveal_strlit("\u{2022} ");
            }
            line.append(items[i].as_str());
            assert(line@ =~= bullet_spec() + items@[i as int]@);
            let ghost before = rows@;
            rows.push(TooltipRow::Item(line));
            assert(rows@.map_values(|r: TooltipRow<E>| row_line(r)) =~= before.map_values(
                |r: TooltipRow<E>| row_line(r),
            ).push(item_lines[i as int]));
            assert(item_lines.take(i + 1) =~= item_lines.take(i as int).push(item_lines[i as int]));
            i = i + 1;
        }
        assert(item_lines.take(items@.len() as int) =~= item_lines);
        let ghost all_extra = extra@;
        assert(all_extra == old_self.extra_spec());
        for e in it: extra
            invariant
                it.seq() == all_extra,
                extra_lines == all_extra.map_values(|e: E| TooltipLine::Extra(e)),
                rows@.map_values(|r: TooltipRow<E>| row_line(r)) =~= head + item_lines
                    + extra_lines.take(it.index() as int),
        {
            let ghost k = it.index();
            let ghost before = rows@;
            rows.push(TooltipRow::Extra(e));
            assert(rows@.map_values(|r: TooltipRow<E>| row_line(r)) =~= before.map_values(
                |r: TooltipRow<E>| row_line(r),
            ).push(extra_lines[k as int]));
            assert(extra_lines.take(k + 1) =~= extra_lines.take(k as int).push(
                extra_lines[k as int],
            ));
        }
        assert(extra_lines.take(all_extra.len() as int) =~= extra_lines);
        rows
    }
}

impl<E> Default for Tooltip<E> {
    /// The empty tooltip, the same as [`Tooltip::new`].
    fn default() -> (t: Self)
        ensures
            t.is_empty_spec(),
    {
        Tooltip::new()
    }
}

/// The source behind a tooltip hook built by [`Tooltip::into_fn`].
pub struct TooltipSlot<E> {
    pending: Option<Tooltip<E>>,
}

impl<E> TooltipSlot<E> {
    /// The tooltip not yet handed out, if any.
    pub closed spec fn pending_spec(&self) -> Option<Tooltip<E>> {
        self.pending
    }

    /// The tooltip to show: the pending one the first time, an empty one afterwards.
    pub fn show(&mut self) -> (t: Tooltip<E>)
        ensures
            final(self).pending_spec() is None,
            match old(self).pending_spec() {
                Some(p) => t == p,
                None => t.is_empty_spec(),
            },
    {
        match self.pending.take() {
            Some(t) => t,
            None => Tooltip::default(),
        }
    }
}

/// A tooltip hook for a single text string: every request yields a tooltip whose title
/// is that text.
pub struct TextTooltip {
    text: String,
}

impl TextTooltip {
    /// The title text.
    pub closed spec fn text_spec(&self) -> Seq<char> {
        self.text@
    }

    /// A fresh tooltip titled with the text, with no items or extra elements.
    pub fn show<E>(&self) -> (t: Tooltip<E>)
        ensures
            t.title_spec() == Some(self.text_spec()),
            t.items_spec().len() == 0,
            t.extra_spec().len() == 0,
    {
        Tooltip::new().title(self.text.as_str())
    }
}

/// Returns a tooltip hook for a single text string — the common case.
pub fn tooltip(text: &str) -> (t: TextTooltip)
    ensures
        t.text_spec() == text@,
{
    TextTooltip { text: text.to_owned() }
}

/// A tooltip renders one row per part: the title (if set), each item and each extra
/// element.
pub proof fn lemma_rendered_row_count<E>(t: Tooltip<E>)
    ensures
        t.rendered_spec().len() == (if t.title_spec() is Some {
            1int
        } else {
            0int
        }) + t.items_spec().len() + t.extra_spec().len(),
{
}

/// An empty tooltip — one fresh from [`Tooltip::new`], or one already rendered —
/// renders no rows.
pub proof fn lemma_empty_tooltip_renders_nothing<E>(t: Tooltip<E>)
    requires
        t.is_empty_spec(),
    ensures
        t.rendered_spec() == Seq::<TooltipLine<E>>::empty(),
{
    assert(t.rendered_spec() =~= Seq::<TooltipLine<E>>::empty());
}

/// The tooltip a text hook shows renders exactly one row: the text as its title.
pub proof fn lemma_text_tooltip_renders_title<E>(hook: TextTooltip, t: Tooltip<E>)
    requires
        t.title_spec() == Some(hook.text_spec()),
        t.items_spec().len() == 0,
        t.extra_spec().len() == 0,
    ensures
        t.rendered_spec() == seq![TooltipLine::<E>::Title(hook.text_spec())],
{
    assert(t.rendered_spec() =~= seq![TooltipLine::<E>::Title(hook.text_spec())]);
}

/// The title, when set, is the first row.
pub proof fn lemma_title_row_first<E>(t: Tooltip<E>)
    ensures
        t.title_spec() matches Some(title) ==> t.rendered_spec()[0] == TooltipLine::<E>::Title(
            title,
        ),
{
}

/// Items render in the order they were added, after the title, each as the bullet `"• "`
/// followed by its text.
pub proof fn lemma_item_rows_in_order<E>(t: Tooltip<E>, k: int)
    requires
        0 <= k < t.items_spec().len(),
    ensures
        t.rendered_spec()[(if t.title_spec() is Some {
            1int
        } else {
            0int
        }) + k] == TooltipLine::<E>::Item(seq!['\u{2022}', ' '] + t.items_spec()[k]),
{
    assert(bullet_spec() == seq!['\u{2022}', ' ']);
}

/// Extra elements render last, after the title and the items, in the order they were
/// added: row `(title ? 1 : 0) + items + j` is extra element `j`.
pub proof fn lemma_extra_rows_in_order<E>(t: Tooltip<E>, j: int)
    requires
        0 <= j < t.extra_spec().len(),
    ensures
        t.rendered_spec()[(if t.title_spec() is Some {
            1int
        } else {
            0int
        }) + t.items_spec().len() + j] == TooltipLine::<E>::Extra(t.extra_spec()[j]),
{
}

} // verus!
