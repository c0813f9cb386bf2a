use shurectl::ruler::build_ruler;

#[test]
fn build_ruler_output_is_exactly_inner_width_chars() {
    for width in [40, 80, 120, 200] {
        let ruler = build_ruler(width);
        assert_eq!(
            ruler.chars().count(),
            width,
            "ruler must be exactly {width} chars wide"
        );
    }
}

#[test]
fn build_ruler_contains_minus_60_at_left_edge() {
    let ruler = build_ruler(80);
    assert!(
        ruler.starts_with("-60"),
        "'-60' must appear at the left edge; got: {ruler:?}"
    );
}

#[test]
fn build_ruler_contains_expected_labels_at_wide_width() {
    let ruler = build_ruler(200);
    for label in ["-60", "-48", "-36", "-24", "-12", "0"] {
        assert!(
            ruler.contains(label),
            "expected label '{label}' missing from ruler: {ruler:?}"
        );
    }
}

#[test]
fn build_ruler_skips_overlapping_labels_at_narrow_width() {
    let ruler = build_ruler(10);
    assert_eq!(ruler.chars().count(), 10);
}

#[test]
fn build_ruler_zero_width_returns_empty_string() {
    let ruler = build_ruler(0);
    assert_eq!(ruler, "", "zero-width ruler must be empty");
}

#[test]
fn build_ruler_no_char_placed_beyond_inner_width() {
    for width in [1, 2, 3, 5, 10, 40, 80] {
        let ruler = build_ruler(width);
        assert_eq!(
            ruler.chars().count(),
            width,
            "ruler overflowed at width {width}"
        );
    }
}

#[test]
fn build_ruler_minus_24_is_centred_near_midpoint() {
    let width = 100usize;
    let ruler = build_ruler(width);
    let expected_col = (0.6 * width as f32).round() as usize;
    let start = ruler
        .find("-24")
        .expect("'-24' must be present in a 100-char ruler");
    let center = start + 1;
    assert!(
        center.abs_diff(expected_col) <= 2,
        "'-24' centre at col {center}, expected ~{expected_col}"
    );
}

// ── exact layouts ─────────────────────────────────────────────────────────

#[test]
fn ruler_at_sixty_columns_places_every_label_on_its_column() {
    // Ticks centre on columns 0, 12, 24, 36, 48 and 60; "0" sits on the
    // right edge and ends flush with it.
    let expected = format!(
        "-60{}-48{}-36{}-24{}-12{}0",
        " ".repeat(8),
        " ".repeat(9),
        " ".repeat(9),
        " ".repeat(9),
        " ".repeat(9)
    );
    assert_eq!(build_ruler(60), expected);
}

#[test]
fn ruler_at_wide_widths_shows_all_six_labels_in_order() {
    for width in [60, 100, 200] {
        let ruler = build_ruler(width);
        let words: Vec<&str> = ruler.split_whitespace().collect();
        assert_eq!(words, ["-60", "-48", "-36", "-24", "-12", "0"]);
        assert!(ruler.ends_with('0'), "0 dBFS ends flush with the right edge");
    }
}

#[test]
fn ruler_at_ten_columns_keeps_first_label_and_drops_overlaps() {
    // -48 centres on column 2 and would overlap -60; -36 starts at column 3;
    // -24 would overlap -36; -12 starts at column 7; "0" would overlap -12.
    assert_eq!(build_ruler(10), "-60-36 -12");
}

#[test]
fn narrow_rulers_keep_only_what_fits() {
    assert_eq!(build_ruler(1), "0");
    assert_eq!(build_ruler(2), " 0");
    assert_eq!(build_ruler(3), "-60");
}
