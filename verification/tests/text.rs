use art_display::text::{contains, mime_of, numbered, starts_with, strip_html, to_chars};

#[test]
fn strip_html_removes_tags() {
    assert_eq!(strip_html("<i>Water Lilies</i>"), "Water Lilies");
    assert_eq!(strip_html("A <b>bold</b> move"), "A bold move");
}

#[test]
fn strip_html_keeps_plain_text() {
    assert_eq!(strip_html("The Starry Night"), "The Starry Night");
    assert_eq!(strip_html(""), "");
}

#[test]
fn strip_html_drops_unclosed_tag_to_the_end() {
    assert_eq!(strip_html("Open <tag never closes"), "Open ");
}

#[test]
fn strip_html_drops_stray_closing_bracket() {
    assert_eq!(strip_html("a > b"), "a  b");
    assert_eq!(strip_html("x <<y> z"), "x  z");
}

#[test]
fn strip_html_is_idempotent_on_samples() {
    for s in ["<p>one</p>", "two", "<a <b> c> d", "é<ü>ß"] {
        let once = strip_html(s);
        assert_eq!(strip_html(&once), once);
    }
}

#[test]
fn starts_with_and_contains_agree_with_std() {
    let samples = ["image/png", "image/", "imag", "", "text/html; image/png", "https://www.artic.edu/iiif/2"];
    let patterns = ["image/", "artic.edu", "", "x"];
    for s in samples {
        for p in patterns {
            assert_eq!(starts_with(&to_chars(s), &to_chars(p)), s.starts_with(p), "{s:?} {p:?}");
            assert_eq!(contains(&to_chars(s), &to_chars(p)), s.contains(p), "{s:?} {p:?}");
        }
    }
}

#[test]
fn mime_of_strips_parameters_and_whitespace() {
    assert_eq!(mime_of(&to_chars("image/jpeg")), "image/jpeg");
    assert_eq!(mime_of(&to_chars("image/png; charset=utf-8")), "image/png");
    assert_eq!(mime_of(&to_chars("  image/webp \t;q=1;x")), "image/webp");
    assert_eq!(mime_of(&to_chars(";image/png")), "");
    assert_eq!(mime_of(&to_chars("   ")), "");
    assert_eq!(mime_of(&to_chars("\u{a0}image/gif\u{2003}")), "image/gif");
}

#[test]
fn mime_of_agrees_with_std_split_and_trim() {
    for s in ["image/jpeg", " a ; b", "", ";", " ; ", "x;y;z", "\n image/png\r\n"] {
        let expected = s.split(';').next().unwrap_or("image/jpeg").trim().to_string();
        assert_eq!(mime_of(&to_chars(s)), expected, "{s:?}");
    }
}

#[test]
fn numbered_writes_decimal() {
    assert_eq!(numbered("met-", 0), "met-0");
    assert_eq!(numbered("met-", 7), "met-7");
    assert_eq!(numbered("aic-", 436535), "aic-436535");
    assert_eq!(numbered("", u64::MAX), u64::MAX.to_string());
    for n in [9u64, 10, 11, 99, 100, 101, 1000, 123456789] {
        assert_eq!(numbered("cma-", n), format!("cma-{n}"));
    }
}
