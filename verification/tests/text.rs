use scjail_crawler_service::digest::{sha256_hex, to_lower_hex};
use scjail_crawler_service::text::{
    concatenate, join, remove_char, same_text, split, to_ascii_lowercase, to_chars, trim,
};
use scjail_crawler_service::Error;

#[test]
fn trim_drops_white_space_at_both_ends_only() {
    assert_eq!(trim("  a b  "), "a b");
    assert_eq!(trim("a"), "a");
    assert_eq!(trim(""), "");
    assert_eq!(trim(" \t\r\n"), "");
    assert_eq!(trim("\u{2028}x y\u{0085}"), "x y");
}

#[test]
fn ascii_lowercase_leaves_other_letters_alone() {
    assert_eq!(to_ascii_lowercase("First:"), "first:");
    assert_eq!(to_ascii_lowercase("AZ az [@`{"), "az az [@`{");
    assert_eq!(to_ascii_lowercase("\u{00c9}COLE"), "\u{00c9}cole");
}

#[test]
fn split_keeps_empty_pieces() {
    assert_eq!(split("a,b", ','), vec!["a", "b"]);
    assert_eq!(split("", ','), vec![""]);
    assert_eq!(split(",", ','), vec!["", ""]);
    assert_eq!(split("a,,b,", ','), vec!["a", "", "b", ""]);
}

#[test]
fn split_agrees_with_the_standard_library() {
    for text in ["", ",", "x", "a, b ,c", ",,,", "no comma", "\u{00e9},\u{1f600}"] {
        let expected: Vec<String> = text.split(',').map(|s| s.to_string()).collect();
        assert_eq!(split(text, ','), expected);
    }
}

#[test]
fn concat_and_join_write_lists_out() {
    let parts = vec!["a".to_string(), "".to_string(), "bc".to_string()];
    assert_eq!(concatenate(&parts), "abc");
    assert_eq!(join(&parts, ", "), "a, , bc");
    assert_eq!(join(&vec!["only".to_string()], ", "), "only");
    assert_eq!(join(&Vec::new(), ", "), "");
    assert_eq!(concatenate(&Vec::new()), "");
}

#[test]
fn remove_char_drops_every_occurrence() {
    assert_eq!(remove_char("5\\'11\\\"", '\\'), "5'11\"");
    assert_eq!(remove_char("\\\\", '\\'), "");
    assert_eq!(remove_char("none", '\\'), "none");
}

#[test]
fn same_text_compares_characters() {
    assert!(same_text("felony", "felony"));
    assert!(!same_text("felony", "felon"));
    assert!(!same_text("felony", "Felony"));
    assert!(same_text("", ""));
}

#[test]
fn to_chars_lists_characters_not_bytes() {
    assert_eq!(to_chars("a\u{00e9}\u{1f600}"), vec!['a', '\u{00e9}', '\u{1f600}']);
}

#[test]
fn lower_hex_writes_two_digits_per_byte() {
    assert_eq!(to_lower_hex(&vec![10, 20, 30]), "0a141e");
    assert_eq!(to_lower_hex(&vec![0, 255, 9, 16, 171]), "00ff0910ab");
    assert_eq!(to_lower_hex(&Vec::new()), "");
}

#[test]
fn sha256_hex_of_known_inputs() {
    assert_eq!(
        sha256_hex(b""),
        "e3b0c44298fc1c149afbf4c8996fb92427ae41e4649b934ca495991b7852b855"
    );
    assert_eq!(
        sha256_hex(b"abc"),
        "ba7816bf8f01cfea414140de5dae2223b00361a396177a9cb410ff61f20015ad"
    );
}

#[test]
fn error_messages() {
    assert_eq!(Error::NetworkError.message(), "Network error");
    assert_eq!(Error::ParseError.message(), "Parse error");
    assert_eq!(Error::ArgumentError.message(), "Argument error");
    assert_eq!(
        Error::InternalError("broken".to_string()).message(),
        "Internal error: broken"
    );
    assert_eq!(
        Error::PostgresError("no row".to_string()).message(),
        "Internal Postgres error: no row"
    );
    assert_eq!(Error::S3Error("denied".to_string()).message(), "S3 error: denied");
}
