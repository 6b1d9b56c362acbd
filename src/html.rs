use vstd::prelude::*;
use vstd::string::StringExecFns;

use crate::text::{replace_all, replaced};

verus! {

/// Page shell used when no template of one's own was set.
pub const DEFAULT_TEMPLATE: &'static str = "<!DOCTYPE html>\n<html>\n<head>\n<meta charset=\"utf-8\">\n<meta name=\"viewport\" content=\"width=device-width, initial-scale=1\">\n<title>%TITLE%</title>\n<link rel=\"stylesheet\" href=\"/static/%STYLESHEET%\">\n</head>\n<body>\n<script type=\"module\" src=\"/static/%SCRIPT%\"></script>\n</body>\n</html>\n";

/// Script inserted before `</body>` in development: reloads the page when
/// the bundler reports a rebuild.
pub const LIVE_RELOAD: &'static str = "<script>new EventSource(\"/static/esbuild\").addEventListener(\"change\", () => location.reload());</script>\n";

pub const TITLE_MARK: &'static str = "%TITLE%";

pub const SCRIPT_MARK: &'static str = "%SCRIPT%";

pub const STYLESHEET_MARK: &'static str = "%STYLESHEET%";

pub const BODY_END: &'static str = "</body>";

/// Script and stylesheet names the development bundler writes.
pub const DEV_SCRIPT: &'static str = "index.js";

pub const DEV_STYLESHEET: &'static str = "index.css";

/// The page served from memory: title, script and stylesheet filled in, in that order.
pub open spec fn memory_page(
    template: Seq<char>,
    title: Seq<char>,
    js: Seq<char>,
    css: Seq<char>,
) -> Seq<char> {
    replaced(
        replaced(replaced(template, TITLE_MARK@, title), SCRIPT_MARK@, js),
        STYLESHEET_MARK@,
        css,
    )
}

/// The page served in development: the development bundle's names, and the
/// live-reload script before each `</body>`.
pub open spec fn dev_page(template: Seq<char>, title: Seq<char>) -> Seq<char> {
    replaced(
        memory_page(template, title, DEV_SCRIPT@, DEV_STYLESHEET@),
        BODY_END@,
        LIVE_RELOAD@ + BODY_END@,
    )
}

proof fn lemma_marks_nonempty()
    ensures
        TITLE_MARK@.len() > 0,
        SCRIPT_MARK@.len() > 0,
        STYLESHEET_MARK@.len() > 0,
        BODY_END@.len() > 0,
{
    reveal_strlit("%TITLE%");
    reveal_strlit("%SCRIPT%");
    reveal_strlit("%STYLESHEET%");
    reveal_strlit("</body>");
}

/// Fills the page template for assets served from memory.
pub fn render_memory_page(template: &str, title: &str, js: &str, css: &str) -> (r: String)
    ensures
        r@ == memory_page(template@, title@, js@, css@),
{
    proof {
        lemma_marks_nonempty();
    }
    let a = replace_all(template, TITLE_MARK, title);
    let b = replace_all(a.as_str(), SCRIPT_MARK, js);
    replace_all(b.as_str(), STYLESHEET_MARK, css)
}

/// Fills the page template for the development server.
pub fn render_dev_page(template: &str, title: &str) -> (r: String)
    ensures
        r@ == dev_page(template@, title@),
{
    proof {
        lemma_marks_nonempty();
    }
    let page = render_memory_page(template, title, DEV_SCRIPT, DEV_STYLESHEET);
    let tail = String::from_str(LIVE_RELOAD).concat(BODY_END);
    replace_all(page.as_str(), BODY_END, tail.as_str())
}

} // verus!
