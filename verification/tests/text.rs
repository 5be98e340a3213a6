use pdfresizer::text::{prefixed, is_whitespace_char, join, owned, trim};

fn strings(parts: &[&str]) -> Vec<String> {
    parts.iter().map(|part| part.to_string()).collect()
}

#[test]
fn prefixed_puts_the_tail_behind_the_head() {
    assert_eq!(prefixed("-sOutputFile=", "/tmp/out.pdf"), "-sOutputFile=/tmp/out.pdf");
    assert_eq!(prefixed("", "x"), "x");
    assert_eq!(prefixed("x", ""), "x");
    assert_eq!(prefixed("", ""), "");
}

#[test]
fn join_of_nothing_is_empty() {
    assert_eq!(join(&Vec::new(), ":"), "");
}

#[test]
fn join_of_one_part_has_no_separator() {
    assert_eq!(join(&strings(&["/a/lib"]), ":"), "/a/lib");
}

#[test]
fn join_puts_the_separator_between_neighbours() {
    assert_eq!(join(&strings(&["/a/lib", "/a/Resource", "/b/lib"]), ":"), "/a/lib:/a/Resource:/b/lib");
    assert_eq!(join(&strings(&["a", "", "b"]), ", "), "a, , b");
}

#[test]
fn join_agrees_with_the_standard_library() {
    let parts = strings(&["one", "two", "", "three"]);
    assert_eq!(join(&parts, "::"), parts.join("::"));
}

#[test]
fn owned_copies_each_text() {
    assert_eq!(owned(vec!["share", "ghostscript"]), strings(&["share", "ghostscript"]));
    assert_eq!(owned(Vec::new()), Vec::<String>::new());
}

#[test]
fn whitespace_is_what_the_standard_library_says() {
    let mut code: u32 = 0;
    while code <= 0x10FFFF {
        if let Some(c) = char::from_u32(code) {
            assert_eq!(is_whitespace_char(c), c.is_whitespace(), "U+{:04X}", code);
        }
        code += 1;
    }
}

#[test]
fn trim_removes_whitespace_at_both_ends() {
    assert_eq!(trim("  10.02.1\n"), "10.02.1");
    assert_eq!(trim("\t\r\n 9.56.1 \u{a0}\u{3000}"), "9.56.1");
}

#[test]
fn trim_keeps_whitespace_inside() {
    assert_eq!(trim(" GPL Ghostscript  10.0 "), "GPL Ghostscript  10.0");
}

#[test]
fn trim_of_whitespace_only_is_empty() {
    assert_eq!(trim(" \n\t "), "");
    assert_eq!(trim(""), "");
}

#[test]
fn trim_leaves_a_tight_text_alone() {
    assert_eq!(trim("10.02.1"), "10.02.1");
    assert_eq!(trim("é"), "é");
}

#[test]
fn trim_agrees_with_the_standard_library() {
    for sample in [
        "",
        " ",
        "x",
        " x",
        "x ",
        "\u{2003}wide\u{2003}",
        "\u{85}next line\u{85}",
        "a\u{1680}b",
        "\u{200b}zero width is no whitespace\u{200b}",
        "\u{feff}bom",
        " multi\nline\n",
    ] {
        assert_eq!(trim(sample), sample.trim(), "{:?}", sample);
    }
}
