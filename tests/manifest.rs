use spaxum::manifest::ends_with;
use spaxum::{EntryFiles, ManifestOutput};

fn output(name: &str, entry_point: Option<&str>, css_bundle: Option<&str>) -> ManifestOutput {
    ManifestOutput {
        name: name.to_string(),
        entry_point: entry_point.map(|s| s.to_string()),
        css_bundle: css_bundle.map(|s| s.to_string()),
    }
}

#[test]
fn ends_with_matches_suffixes() {
    assert!(ends_with("/home/app/frontend/main.ts", "frontend/main.ts"));
    assert!(ends_with("abc", ""));
    assert!(!ends_with("main.ts", "/src/main.ts"));
    assert!(!ends_with("/src/main.tsx", "main.ts"));
}

#[test]
fn entry_files_from_matching_output() {
    let outputs = vec![
        output("out/dist/logo.png", None, None),
        output(
            "out/dist/main-ABCD.js",
            Some("frontend/main.ts"),
            Some("out/dist/main-EFGH.css"),
        ),
    ];
    let files = EntryFiles::from_outputs(&outputs, "/home/app/frontend/main.ts");
    assert_eq!(
        files,
        Some(EntryFiles { js: "main-ABCD.js".to_string(), css: "main-EFGH.css".to_string() })
    );
}

#[test]
fn entry_files_without_stylesheet() {
    let outputs = vec![output("dist/index-1.js", Some("main.ts"), None)];
    let files = EntryFiles::from_outputs(&outputs, "/x/main.ts").unwrap();
    assert_eq!(files.js, "index-1.js");
    assert_eq!(files.css, "");
}

#[test]
fn entry_files_none_without_match() {
    let outputs = vec![
        output("dist/other.js", Some("other.ts"), None),
        output("dist/chunk.js", None, None),
    ];
    assert_eq!(EntryFiles::from_outputs(&outputs, "/x/main.ts"), None);
    assert_eq!(EntryFiles::from_outputs(&vec![], "/x/main.ts"), None);
}

#[test]
fn entry_files_take_first_match() {
    let outputs = vec![
        output("a/first.js", Some("main.ts"), None),
        output("a/second.js", Some("main.ts"), Some("a/second.css")),
    ];
    let files = EntryFiles::from_outputs(&outputs, "main.ts").unwrap();
    assert_eq!(files.js, "first.js");
}
