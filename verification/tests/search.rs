use ast_grep_gui::search::{pattern_contains_dollar_recv, LineIndex};

#[test]
fn line_index_maps_offsets_across_lines() {
    let source = "alpha\nbeta\ngamma";
    let index = LineIndex::new(source);
    assert_eq!(index.byte_offset_to_line_col(source, 0), (0, 0));
    assert_eq!(index.byte_offset_to_line_col(source, 3), (0, 3));
    assert_eq!(index.byte_offset_to_line_col(source, 6), (1, 0));
    assert_eq!(index.byte_offset_to_line_col(source, 10), (1, 4));
    assert_eq!(index.byte_offset_to_line_col(source, 11), (2, 0));
    assert_eq!(index.byte_offset_to_line_col(source, source.len()), (2, 5));
}

#[test]
fn line_index_handles_trailing_newline() {
    let source = "a\n";
    let index = LineIndex::new(source);
    assert_eq!(index.byte_offset_to_line_col(source, 0), (0, 0));
    assert_eq!(index.byte_offset_to_line_col(source, 1), (0, 1));
    assert_eq!(index.byte_offset_to_line_col(source, 2), (1, 0));
}

#[test]
fn line_index_caps_offsets_past_the_end() {
    let source = "ab\ncd";
    let index = LineIndex::new(source);
    assert_eq!(index.byte_offset_to_line_col(source, 100), (1, 2));
}

#[test]
fn recv_metavariable_is_detected() {
    assert!(pattern_contains_dollar_recv("$RECV.foo()"));
    assert!(!pattern_contains_dollar_recv("$RECEIVER.foo()"));
}
