use ratanotes::text::{
    cursor_xy, delete_before, insert_char, move_down, move_left, move_right, move_up,
};

#[test]
fn insert_then_delete_restores_content_and_offset() {
    let before = "hello";
    let mut content = String::from(before);
    let off = insert_char(&mut content, 2, 'X');
    assert_eq!(content, "heXllo");
    assert_eq!(off, 3);
    let back = delete_before(&mut content, off);
    assert_eq!(content, before);
    assert_eq!(back, 2);
}

#[test]
fn insert_then_delete_at_both_ends() {
    for o in [0usize, 3] {
        let mut content = String::from("abc");
        let off = insert_char(&mut content, o, 'é');
        assert_eq!(off, o + 1);
        let back = delete_before(&mut content, off);
        assert_eq!(content, "abc");
        assert_eq!(back, o);
    }
}

#[test]
fn insert_clamps_offset_past_end() {
    let mut content = String::from("ab");
    let off = insert_char(&mut content, 10, 'c');
    assert_eq!(content, "abc");
    assert_eq!(off, 3);
}

#[test]
fn delete_at_start_is_noop() {
    let mut content = String::from("ab");
    assert_eq!(delete_before(&mut content, 0), 0);
    assert_eq!(content, "ab");
}

#[test]
fn delete_counts_characters_not_bytes() {
    let mut content = String::from("añb");
    let off = delete_before(&mut content, 2);
    assert_eq!(content, "ab");
    assert_eq!(off, 1);
}

#[test]
fn move_up_keeps_column() {
    assert_eq!(move_up("ab\ncd", 4), 1);
}

#[test]
fn move_up_on_first_line_stays() {
    assert_eq!(move_up("ab\ncd", 1), 1);
}

#[test]
fn move_up_clamps_to_shorter_line() {
    assert_eq!(move_up("a\nxyz", 5), 1);
}

#[test]
fn move_down_keeps_column_and_clamps() {
    assert_eq!(move_down("ab\ncd", 1), 4);
    assert_eq!(move_down("abc\nd", 3), 5);
    assert_eq!(move_down("ab\ncd", 4), 4);
}

#[test]
fn move_down_to_empty_last_line() {
    assert_eq!(move_down("ab\n", 2), 3);
}

#[test]
fn horizontal_moves_clamp() {
    assert_eq!(move_left("ab", 0), 0);
    assert_eq!(move_left("ab", 2), 1);
    assert_eq!(move_left("ab", 9), 1);
    assert_eq!(move_right("ab", 2), 2);
    assert_eq!(move_right("ab", 0), 1);
}

#[test]
fn cursor_position_counts_columns_and_lines() {
    assert_eq!(cursor_xy("ab\ncd", 4), (1, 1));
    assert_eq!(cursor_xy("ab\ncd", 2), (2, 0));
    assert_eq!(cursor_xy("ab\n\nc", 9), (1, 2));
}
