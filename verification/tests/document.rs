use vedit::document::load_rows;
use vedit::document::save_content;
use vedit::row::EditorRow;

fn chars(s: &str) -> Vec<char> {
    s.chars().collect()
}

fn row_strings(rows: &[EditorRow]) -> Vec<String> {
    rows.iter().map(|r| r.chars.iter().collect()).collect()
}

#[test]
fn load_splits_on_newlines() {
    let rows = load_rows(&chars("abc\nde"));
    assert_eq!(row_strings(&rows), vec!["abc".to_string(), "de".to_string()]);
}

#[test]
fn load_keeps_trailing_empty_row() {
    let rows = load_rows(&chars("abc\nde\n"));
    assert_eq!(
        row_strings(&rows),
        vec!["abc".to_string(), "de".to_string(), String::new()]
    );
}

#[test]
fn empty_document_is_one_empty_row() {
    let rows = load_rows(&chars(""));
    assert_eq!(row_strings(&rows), vec![String::new()]);
}

#[test]
fn round_trip_preserves_newline_terminated_content() {
    for text in ["abc\nde\n", "\n", "\n\n", "a\n\nb\n", ""] {
        let rows = load_rows(&chars(text));
        let out: String = save_content(&rows).into_iter().collect();
        assert_eq!(out, text);
    }
}

#[test]
fn save_appends_newline_to_unterminated_content() {
    let rows = load_rows(&chars("abc\nde"));
    let out: String = save_content(&rows).into_iter().collect();
    assert_eq!(out, "abc\nde\n");
}

#[test]
fn row_new_counts_characters_not_bytes() {
    let row = EditorRow::new("héllo");
    assert_eq!(row.len, 5);
    assert_eq!(row.chars.len(), 5);
}

#[test]
fn row_edits_and_out_of_range_are_no_ops() {
    let mut row = EditorRow::new("abc");
    row.remove(5);
    assert_eq!(row.chars, vec!['a', 'b', 'c']);
    row.remove(1);
    assert_eq!(row.chars, vec!['a', 'c']);
    row.insert(9, 'x');
    assert_eq!(row.chars, vec!['a', 'c']);
    row.insert(2, 'x');
    assert_eq!(row.chars, vec!['a', 'c', 'x']);
    row.insert(0, 'q');
    assert_eq!(row.chars, vec!['q', 'a', 'c', 'x']);
    row.pop();
    assert_eq!(row.chars, vec!['q', 'a', 'c']);
    row.push('z');
    assert_eq!(row.chars, vec!['q', 'a', 'c', 'z']);
    assert_eq!(row.len, 4);
    let mut empty = EditorRow::new("");
    empty.pop();
    assert_eq!(empty.len, 0);
}
