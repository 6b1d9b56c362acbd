use spaxum::html::LIVE_RELOAD;
use spaxum::{EntryFiles, Spaxum};

fn entry() -> EntryFiles {
    EntryFiles { js: "main-1.js".to_string(), css: "main-2.css".to_string() }
}

const TEMPLATE: &str = "<title>%TITLE%</title>%SCRIPT%|%STYLESHEET%</body>";

#[test]
fn memory_frontend_renders_entry_files() {
    let app = Spaxum::new("Example", &[], entry()).set_html_template(TEMPLATE);
    assert!(app.memory_serve().is_some());
    assert!(app.esbuild_serve_args().is_none());
    assert_eq!(app.index_html(), "<title>Example</title>main-1.js|main-2.css</body>");
}

#[test]
fn set_title_changes_page_title() {
    let app = Spaxum::new("Example", &[], entry())
        .set_title("Example Site")
        .set_html_template(TEMPLATE);
    assert_eq!(app.index_html(), "<title>Example Site</title>main-1.js|main-2.css</body>");
}

#[test]
fn default_template_is_used() {
    let app = Spaxum::new("Example", &[], entry());
    let page = app.index_html();
    assert!(page.contains("<title>Example</title>"));
    assert!(page.contains("main-1.js"));
    assert!(page.contains("main-2.css"));
}

#[test]
fn proxy_frontend_renders_dev_page() {
    let app = Spaxum::new_proxy("Dev", "src/main.ts", "/out/dist").set_html_template(TEMPLATE);
    assert!(app.memory_serve().is_none());
    assert_eq!(
        app.index_html(),
        format!("<title>Dev</title>index.js|index.css{}</body>", LIVE_RELOAD)
    );
}

#[test]
fn proxy_frontend_passes_extra_args() {
    let app = Spaxum::new_proxy("Dev", "src/main.ts", "/out/dist")
        .set_esbuild_args(vec!["--sourcemap".to_string()]);
    let args = app.esbuild_serve_args().unwrap();
    assert_eq!(args[0], "src/main.ts");
    assert_eq!(args[2], "--outdir=/out/dist");
    assert_eq!(args.last().unwrap(), "--sourcemap");
    assert_eq!(args.len(), 16);
}

#[test]
fn into_memory_serve_by_engine() {
    assert!(Spaxum::new("A", &[], entry()).into_memory_serve().is_some());
    assert!(Spaxum::new_proxy("A", "m.ts", "d").into_memory_serve().is_none());
}
