use openframe::elements::glyph_border::{
    glyph_border, repeat_pattern_units, structured_rail_rows, RailFill, RailRow, DEFAULT_CHARS,
    HORIZONTAL_RULE_REPEAT,
};
use openframe::elements::tooltip::{tooltip, tooltip_colors, Tooltip, TooltipRow};
use openframe::text::{any_white_space, chars_of, is_white_space};
use openframe::RenderStyle;

#[test]
fn repeat_pattern_cycles_characters() {
    assert_eq!(repeat_pattern_units("- ", 5), "- - -");
    assert_eq!(repeat_pattern_units("nu", 4), "nunu");
    assert_eq!(repeat_pattern_units("abc", 7), "abcabca");
    assert_eq!(repeat_pattern_units("\u{2503} ", 3), "\u{2503} \u{2503}");
}

#[test]
fn repeat_pattern_edge_cases() {
    assert_eq!(repeat_pattern_units("", 3), "");
    assert_eq!(repeat_pattern_units("xyz", 0), "");
    let long = repeat_pattern_units("ab", 513);
    assert_eq!(long.chars().count(), 513);
    let chars: Vec<char> = long.chars().collect();
    for i in 0..511 {
        assert_eq!(chars[i], chars[i + 2]);
    }
}

#[test]
fn white_space_matches_std_for_every_char() {
    for u in 0u32..=0x10FFFF {
        if let Some(c) = char::from_u32(u) {
            assert_eq!(is_white_space(c), c.is_whitespace(), "U+{:04X}", u);
        }
    }
}

#[test]
fn chars_and_white_space_scan() {
    assert_eq!(chars_of("a\u{2500}b"), vec!['a', '\u{2500}', 'b']);
    assert!(any_white_space(&['-', ' ']));
    assert!(!any_white_space(&['-', '=']));
    assert!(any_white_space(&['\u{3000}']));
    assert!(!any_white_space(&[]));
}

#[test]
fn glyph_border_defaults() {
    let b = glyph_border();
    assert_eq!(b.side_line_count(), 512);
    assert_eq!(b.font_family(), "monospace");
    assert!(b.vertical_cycle().is_empty());
    assert!(!b.uses_structured_vertical());
    assert_eq!(b.child_count(), 0);
    assert_eq!(DEFAULT_CHARS, ['┌', '─', '┐', '│', '└', '─', '┘']);
}

#[test]
fn vertical_rail_lines_never_below_eight() {
    assert_eq!(glyph_border().vertical_rail_lines(3).side_line_count(), 8);
    assert_eq!(glyph_border().vertical_rail_lines(8).side_line_count(), 8);
    assert_eq!(glyph_border().vertical_rail_lines(64).side_line_count(), 64);
}

#[test]
fn empty_patterns_unset() {
    let b = glyph_border()
        .border_horizontal_pattern("- ")
        .border_vertical_pattern("| ")
        .border_horizontal_pattern("")
        .border_vertical_pattern("");
    assert_eq!(b.horizontal_rule('='), "=".repeat(HORIZONTAL_RULE_REPEAT));
    assert!(b.vertical_cycle().is_empty());
}

#[test]
fn default_layout_uses_box_drawing() {
    let l = glyph_border().layout(0);
    assert_eq!(l.font_family, "monospace");
    assert_eq!((l.top.left, l.top.right), ('┌', '┐'));
    assert_eq!((l.bottom.left, l.bottom.right), ('└', '┘'));
    assert_eq!(l.top.fill, "─".repeat(512));
    assert_eq!(l.bottom.fill, "─".repeat(512));
    match l.rail {
        RailFill::Column(col) => assert_eq!(col, "│\n".repeat(512)),
        RailFill::Rows(_) => panic!("expected a text column"),
    }
    assert!(l.children.is_empty());
}

#[test]
fn custom_layout_patterns_and_children() {
    let mut b = glyph_border()
        .border_chars(['+', '=', '+', '!', '+', '~', '+'])
        .border_font_family("Iosevka")
        .border_horizontal_pattern("- ")
        .border_vertical_pattern("ab")
        .vertical_rail_lines(10);
    b.extend(&[7, 3]);
    b.extend(&[11]);
    assert_eq!(b.child_count(), 3);
    let l = b.layout(99);
    assert_eq!(l.font_family, "Iosevka");
    assert_eq!((l.top.left, l.top.right, l.bottom.left, l.bottom.right), ('+', '+', '+', '+'));
    assert_eq!(l.top.fill, "- ".repeat(256));
    assert_eq!(l.bottom.fill, l.top.fill);
    match l.rail {
        RailFill::Column(col) => assert_eq!(col, "a\nb\n".repeat(5)),
        RailFill::Rows(_) => panic!("a pattern without a gap draws a text column"),
    }
    assert_eq!(l.children, vec![7, 3, 11]);
}

#[test]
fn side_slot_used_without_pattern() {
    let l = glyph_border().border_chars(['a', 'b', 'c', 'd', 'e', 'f', 'g']).vertical_rail_lines(2).layout(0);
    assert_eq!(l.top.fill, "b".repeat(512));
    assert_eq!(l.bottom.fill, "f".repeat(512));
    match l.rail {
        RailFill::Column(col) => assert_eq!(col, "d\n".repeat(8)),
        RailFill::Rows(_) => panic!("expected a text column"),
    }
}

#[test]
fn glyph_gap_pair_becomes_stripes() {
    let b = glyph_border().border_vertical_pattern("\u{2503} ");
    assert!(b.uses_structured_vertical());
    let l = b.layout(5);
    match l.rail {
        RailFill::Rows(rows) => assert_eq!(
            rows,
            vec![
                RailRow::Stripe('\u{2503}'),
                RailRow::Stripe('\u{2503}'),
                RailRow::Glyph('\u{2503}')
            ]
        ),
        RailFill::Column(_) => panic!("expected structured rows"),
    }
    assert_eq!(structured_rail_rows(&['|', ' '], 4), vec![RailRow::Stripe('|'), RailRow::Stripe('|')]);
}

#[test]
fn other_gapped_cycles_give_one_row_per_line() {
    assert_eq!(
        structured_rail_rows(&['-', '-', ' '], 5),
        vec![RailRow::Glyph('-'), RailRow::Glyph('-'), RailRow::Gap, RailRow::Glyph('-'), RailRow::Glyph('-')]
    );
    assert_eq!(structured_rail_rows(&[' ', 'x'], 3), vec![RailRow::Gap, RailRow::Glyph('x'), RailRow::Gap]);
    assert_eq!(structured_rail_rows(&['x'], 0), vec![]);
}

fn line_texts(rows: &[TooltipRow<u32>]) -> Vec<String> {
    rows.iter()
        .map(|r| match r {
            TooltipRow::Title(t) => format!("title:{t}"),
            TooltipRow::Item(t) => format!("item:{t}"),
            TooltipRow::Extra(e) => format!("extra:{e}"),
        })
        .collect()
}

#[test]
fn tooltip_renders_title_items_extras() {
    let mut t: Tooltip<u32> = Tooltip::new()
        .item("missing: foo")
        .child(42)
        .title("Draft")
        .title("Warning")
        .item("missing: bar");
    let rows = t.render();
    assert_eq!(
        line_texts(&rows),
        vec!["title:Warning", "item:\u{2022} missing: foo", "item:\u{2022} missing: bar", "extra:42"]
    );
}

#[test]
fn tooltip_second_render_is_empty() {
    let mut t: Tooltip<u32> = Tooltip::new().title("x").item("y").child(1);
    assert_eq!(t.render().len(), 3);
    assert!(t.render().is_empty());
    let mut e: Tooltip<u32> = Tooltip::new();
    assert!(e.render().is_empty());
}

#[test]
fn tooltip_into_fn_first_call_only() {
    let mut slot = Tooltip::<u32>::new().title("Once").into_fn();
    let mut first = slot.show();
    assert_eq!(line_texts(&first.render()), vec!["title:Once"]);
    let mut second = slot.show();
    assert!(second.render().is_empty());
    let mut third = slot.show();
    assert!(third.render().is_empty());
}

#[test]
fn text_tooltip_every_call() {
    let hook = tooltip("Save file");
    for _ in 0..3 {
        let mut t: Tooltip<u32> = hook.show();
        assert_eq!(line_texts(&t.render()), vec!["title:Save file"]);
    }
}

#[test]
fn tooltip_build_applies_closure_to_empty() {
    let mut t = Tooltip::<u32>::build(|t| t.title("Warning").item("missing: foo").item("missing: bar"));
    assert_eq!(
        line_texts(&t.render()),
        vec!["title:Warning", "item:\u{2022} missing: foo", "item:\u{2022} missing: bar"]
    );
}

#[test]
fn render_style_default() {
    assert_eq!(RenderStyle::default(), RenderStyle::Default);
    assert_ne!(RenderStyle::default(), RenderStyle::Custom);
}

#[test]
fn tooltip_colors_pack_alpha() {
    let c = tooltip_colors();
    assert_eq!(c.background_rgba, 0x1a1f2aee);
    assert_eq!(c.border_rgba, 0x38404ecc);
    assert_eq!(c.title_rgb, 0xf1f5f9);
    assert_eq!(c.body_rgb, 0xb0b8c8);
}

#[test]
fn tooltip_default_is_new() {
    let mut d: Tooltip<u32> = Tooltip::default();
    assert!(d.render().is_empty());
    let mut t = Tooltip::<u32>::default().title("T");
    assert_eq!(line_texts(&t.render()), vec!["title:T"]);
}

#[test]
fn shorter_repeat_is_prefix_of_longer() {
    let long = repeat_pattern_units("ab ", 20);
    for n in 0..=20 {
        let short = repeat_pattern_units("ab ", n);
        assert!(long.starts_with(&short));
        assert_eq!(short.chars().count(), n);
    }
}
