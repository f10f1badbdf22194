use ascii_avatar::compositor::fit;

fn lines(v: &[&str]) -> Vec<String> {
    v.iter().map(|s| s.to_string()).collect()
}

#[test]
fn fit_centers_a_small_block() {
    let block = lines(&["ab"]);
    let out = fit(&block, 4, 3);
    assert_eq!(out, lines(&["    ", " ab ", "    "]));
}

#[test]
fn fit_splits_odd_padding_floor_left() {
    let block = lines(&["abc"]);
    let out = fit(&block, 6, 1);
    // padding 3: one cell left, two right
    assert_eq!(out, lines(&[" abc  "]));
}

#[test]
fn fit_never_truncates_an_oversized_block() {
    let block = lines(&["abcdef", "ghijkl"]);
    let out = fit(&block, 2, 1);
    // panel smaller than the block: padding saturates at zero, block kept whole
    assert_eq!(out, lines(&["abcdef", "ghijkl"]));
}

#[test]
fn fit_zero_panel_keeps_the_block() {
    let block = lines(&["xy"]);
    let out = fit(&block, 0, 0);
    assert_eq!(out, lines(&["xy"]));
}

#[test]
fn fit_empty_block_fills_the_panel_with_blanks() {
    let block: Vec<String> = Vec::new();
    let out = fit(&block, 3, 2);
    assert_eq!(out, lines(&["   ", "   "]));
}

#[test]
fn fit_pads_ragged_lines_to_the_block_width() {
    let block = lines(&["a", "bcd"]);
    let out = fit(&block, 5, 2);
    // block width 3, left pad 1; the short line is filled out to the full width
    assert_eq!(out, lines(&[" a   ", " bcd "]));
}

#[test]
fn fit_counts_characters_not_bytes() {
    let block = lines(&["ééé"]);
    let out = fit(&block, 5, 1);
    assert_eq!(out, lines(&[" ééé "]));
    assert_eq!(out[0].chars().count(), 5);
}

#[test]
fn fit_dimensions_are_the_larger_of_panel_and_block() {
    let block = lines(&["abcd", "e"]);
    for (w, h) in [(0usize, 0usize), (2, 1), (4, 2), (7, 5), (40, 10)] {
        let out = fit(&block, w, h);
        assert_eq!(out.len(), h.max(2));
        for line in &out {
            assert_eq!(line.chars().count(), w.max(4));
        }
    }
}
