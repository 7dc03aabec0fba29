use process_registry::text::trim;

#[test]
fn trim_drops_the_line_terminator() {
    assert_eq!(trim("hello\n"), "hello");
    assert_eq!(trim("hello\r\n"), "hello");
}

#[test]
fn trim_drops_whitespace_on_both_sides() {
    assert_eq!(trim("  \t hello world \t\n"), "hello world");
}

#[test]
fn trim_keeps_inner_whitespace() {
    assert_eq!(trim("a  b\tc"), "a  b\tc");
}

#[test]
fn trim_of_whitespace_only_is_empty() {
    assert_eq!(trim(""), "");
    assert_eq!(trim(" "), "");
    assert_eq!(trim("\n"), "");
    assert_eq!(trim(" \t\r\n "), "");
}

#[test]
fn trim_of_a_single_character() {
    assert_eq!(trim("x"), "x");
    assert_eq!(trim(" x"), "x");
    assert_eq!(trim("x "), "x");
}

#[test]
fn trim_knows_unicode_whitespace() {
    assert_eq!(trim("\u{a0}\u{3000}x y\u{2003}\u{2028}"), "x y");
    assert_eq!(trim("\u{85}\u{1680}"), "");
}

#[test]
fn trim_keeps_characters_that_only_look_blank() {
    assert_eq!(trim("\u{200b}x\u{200b}"), "\u{200b}x\u{200b}");
    assert_eq!(trim("\u{feff}x"), "\u{feff}x");
}

#[test]
fn trim_counts_characters_not_bytes() {
    assert_eq!(trim(" \u{e9}t\u{e9} "), "\u{e9}t\u{e9}");
    assert_eq!(trim("\n\u{8d8a}\u{1f600} \u{8d8a}\n"), "\u{8d8a}\u{1f600} \u{8d8a}");
}

#[test]
fn trim_agrees_with_the_standard_library() {
    let samples = [
        "",
        " ",
        "a",
        " a",
        "a ",
        " a ",
        "\t{\"jsonrpc\":\"2.0\",\"id\":1}\r\n",
        "  two  words  ",
        "\u{a0}nbsp\u{a0}",
        "\u{2000}\u{2001}\u{2002}x\u{2009}\u{200a}",
        "\u{202f}\u{205f}\u{3000}",
        "x\u{0b}\u{0c}",
        "\u{1c}\u{1d}\u{1e}\u{1f}",
        "\u{180e}x\u{180e}",
        "line one\nline two\n",
    ];
    for sample in samples {
        assert_eq!(trim(sample), sample.trim());
    }
}

#[test]
fn trim_is_idempotent() {
    let once = trim("  \u{3000} a b \n");
    assert_eq!(trim(&once), once);
}
