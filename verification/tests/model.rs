use todo_backend::todo::model::{normalize_title, TITLE_MAX_LEN};

#[test]
fn trims_surrounding_whitespace() {
    assert_eq!(normalize_title("  買い物  ").unwrap(), "買い物");
}

#[test]
fn rejects_blank_title() {
    assert!(normalize_title("   ").is_err());
    assert!(normalize_title("").is_err());
}

#[test]
fn counts_length_in_characters_not_bytes() {
    let multibyte = "あ".repeat(TITLE_MAX_LEN);
    assert!(normalize_title(&multibyte).is_ok());
    assert!(normalize_title(&"あ".repeat(TITLE_MAX_LEN + 1)).is_err());
}

#[test]
fn blank_title_error_text() {
    assert_eq!(normalize_title(" \n\t ").unwrap_err(), "title を空にはできません");
}

#[test]
fn long_title_error_text() {
    assert_eq!(
        normalize_title(&"a".repeat(501)).unwrap_err(),
        "title は 500 文字以内にしてください"
    );
}

#[test]
fn trims_unicode_white_space_but_keeps_inner_space() {
    assert_eq!(
        normalize_title("\u{3000}\u{a0} 牛乳 を 買う\u{2003}\r\n").unwrap(),
        "牛乳 を 買う"
    );
}

#[test]
fn keeps_characters_that_are_not_white_space() {
    // U+200B (zero width space) has no White_Space property.
    assert_eq!(normalize_title("\u{200b}x").unwrap(), "\u{200b}x");
}

#[test]
fn length_is_counted_after_trimming() {
    let padded = format!("   {}   ", "b".repeat(500));
    assert_eq!(normalize_title(&padded).unwrap(), "b".repeat(500));
}

#[test]
fn normalizing_twice_changes_nothing() {
    let once = normalize_title("\t 二度目 \n").unwrap();
    assert_eq!(normalize_title(&once).unwrap(), once);
}
