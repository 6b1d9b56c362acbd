use spaxum::html::{render_dev_page, render_memory_page, DEFAULT_TEMPLATE, LIVE_RELOAD};
use spaxum::text::replace_all;

#[test]
fn replace_all_replaces_every_occurrence() {
    assert_eq!(replace_all("a-b-c", "-", "+"), "a+b+c");
    assert_eq!(replace_all("%T% and %T%", "%T%", "x"), "x and x");
}

#[test]
fn replace_all_without_match_keeps_text() {
    assert_eq!(replace_all("hello", "%TITLE%", "x"), "hello");
    assert_eq!(replace_all("", "a", "b"), "");
}

#[test]
fn replace_all_does_not_overlap_matches() {
    assert_eq!(replace_all("aaa", "aa", "b"), "ba");
    assert_eq!(replace_all("aaaa", "aa", "b"), "bb");
}

#[test]
fn replace_all_handles_multibyte_text() {
    assert_eq!(replace_all("héllo wörld", "ö", "o"), "héllo world");
    assert_eq!(replace_all("日本語", "本", "-"), "日-語");
}

#[test]
fn replace_all_agrees_with_str_replace() {
    let cases = [
        ("<title>%TITLE%</title>", "%TITLE%", "Site"),
        ("abcabcab", "abc", ""),
        ("%%%", "%%", "%"),
        ("x</body></body>", "</body>", "y</body>"),
    ];
    for (s, p, r) in cases {
        assert_eq!(replace_all(s, p, r), s.replace(p, r));
    }
}

#[test]
fn memory_page_fills_all_marks() {
    let page = render_memory_page(
        "<title>%TITLE%</title><script src=\"%SCRIPT%\"></script><link href=\"%STYLESHEET%\">",
        "Example",
        "index-ABC.js",
        "index-DEF.css",
    );
    assert_eq!(
        page,
        "<title>Example</title><script src=\"index-ABC.js\"></script><link href=\"index-DEF.css\">"
    );
}

#[test]
fn memory_page_fills_marks_in_order() {
    // the title is filled first, so a mark inside it is filled afterwards
    let page = render_memory_page("%TITLE%", "%SCRIPT%", "app.js", "app.css");
    assert_eq!(page, "app.js");
}

#[test]
fn dev_page_links_dev_bundle_and_live_reload() {
    let page = render_dev_page("<title>%TITLE%</title>%SCRIPT% %STYLESHEET%</body>", "Dev");
    assert_eq!(
        page,
        format!("<title>Dev</title>index.js index.css{}</body>", LIVE_RELOAD)
    );
}

#[test]
fn default_template_has_all_marks() {
    let page = render_memory_page(DEFAULT_TEMPLATE, "T", "a.js", "b.css");
    assert!(page.contains("<title>T</title>"));
    assert!(page.contains("/static/a.js"));
    assert!(page.contains("/static/b.css"));
    assert!(!page.contains('%'));
}
