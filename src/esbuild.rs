use vstd::prelude::*;
use vstd::string::StringExecFns;

verus! {

/// The text of each argument of a list.
pub open spec fn texts(v: Seq<String>) -> Seq<Seq<char>> {
    v.map_values(|s: String| s@)
}

/// Options given to the bundler in development and in release alike.
pub open spec fn common_options() -> Seq<Seq<char>> {
    seq![
        "--color=false"@,
        "--asset-names=[name]"@,
        "--public-path=/static/"@,
        "--loader:.png=file"@,
        "--loader:.jpg=file"@,
        "--loader:.jpeg=file"@,
        "--loader:.svg=file"@,
        "--loader:.gif=file"@,
    ]
}

/// Address the development bundler serves on.
pub const DEV_SERVER_ADDR: &'static str = "127.0.0.1:8888";

/// Arguments of the development bundler: it watches the sources, writes to
/// `dist_dir` and serves it.
pub open spec fn serve_args(
    entrypoint: Seq<char>,
    dist_dir: Seq<char>,
    extra: Seq<Seq<char>>,
) -> Seq<Seq<char>> {
    seq![
        entrypoint,
        "--bundle"@,
        "--outdir="@ + dist_dir,
        "--watch=forever"@,
        "--servedir="@ + dist_dir,
        "--serve="@ + DEV_SERVER_ADDR@,
        "--entry-names=index"@,
    ] + common_options() + extra
}

/// Arguments of a release build: one minified bundle with hashed names in
/// `dist_dir`, and its build manifest at `manifest_file`.
pub open spec fn build_args(
    entrypoint: Seq<char>,
    dist_dir: Seq<char>,
    manifest_file: Seq<char>,
    extra: Seq<Seq<char>>,
) -> Seq<Seq<char>> {
    seq![
        "--bundle"@,
        entrypoint,
        "--outfile="@ + dist_dir + "/index.js"@,
        "--metafile="@ + manifest_file,
        "--entry-names=[name]-[hash]"@,
        "--minify"@,
    ] + common_options() + extra
}

fn push_text(v: &mut Vec<String>, s: String)
    ensures
        texts(final(v)@) == texts(old(v)@).push(s@),
{
    v.push(s);
    assert(texts(final(v)@) =~= texts(old(v)@).push(s@));
}

fn push_all(v: &mut Vec<String>, extra: &Vec<String>)
    ensures
        texts(final(v)@) == texts(old(v)@) + texts(extra@),
{
    let mut i: usize = 0;
    while i < extra.len()
        invariant
            i <= extra@.len(),
            texts(v@) == texts(old(v)@) + texts(extra@.subrange(0, i as int)),
        decreases extra@.len() - i,
    {
        assert(texts(extra@.subrange(0, i + 1)) =~= texts(extra@.subrange(0, i as int)).push(
            extra@[i as int]@,
        ));
        push_text(v, extra[i].clone());
        i += 1;
    }
    assert(extra@.subrange(0, i as int) =~= extra@);
}

fn push_common_options(v: &mut Vec<String>)
    ensures
        texts(final(v)@) == texts(old(v)@) + common_options(),
{
    push_text(v, String::from_str("--color=false"));
    push_text(v, String::from_str("--asset-names=[name]"));
    push_text(v, String::from_str("--public-path=/static/"));
    push_text(v, String::from_str("--loader:.png=file"));
    push_text(v, String::from_str("--loader:.jpg=file"));
    push_text(v, String::from_str("--loader:.jpeg=file"));
    push_text(v, String::from_str("--loader:.svg=file"));
    push_text(v, String::from_str("--loader:.gif=file"));
    assert(texts(v@) =~= texts(old(v)@) + common_options());
}

/// The development bundler's arguments, ending with `extra`.
pub fn serve_arguments(entrypoint: &str, dist_dir: &str, extra: &Vec<String>) -> (r: Vec<String>)
    ensures
        texts(r@) == serve_args(entrypoint@, dist_dir@, texts(extra@)),
{
    let mut v: Vec<String> = Vec::new();
    push_text(&mut v, String::from_str(entrypoint));
    push_text(&mut v, String::from_str("--bundle"));
    push_text(&mut v, String::from_str("--outdir=").concat(dist_dir));
    push_text(&mut v, String::from_str("--watch=forever"));
    push_text(&mut v, String::from_str("--servedir=").concat(dist_dir));
    push_text(&mut v, String::from_str("--serve=").concat(DEV_SERVER_ADDR));
    push_text(&mut v, String::from_str("--entry-names=index"));
    push_common_options(&mut v);
    push_all(&mut v, extra);
    assert(texts(v@) =~= serve_args(entrypoint@, dist_dir@, texts(extra@)));
    v
}

/// A release build's arguments, ending with `extra`.
pub fn build_arguments(
    entrypoint: &str,
    dist_dir: &str,
    manifest_file: &str,
    extra: &Vec<String>,
) -> (r: Vec<String>)
    ensures
        texts(r@) == build_args(entrypoint@, dist_dir@, manifest_file@, texts(extra@)),
{
    let mut v: Vec<String> = Vec::new();
    push_text(&mut v, String::from_str("--bundle"));
    push_text(&mut v, String::from_str(entrypoint));
    push_text(&mut v, String::from_str("--outfile=").concat(dist_dir).concat("/index.js"));
    push_text(&mut v, String::from_str("--metafile=").concat(manifest_file));
    push_text(&mut v, String::from_str("--entry-names=[name]-[hash]"));
    push_text(&mut v, String::from_str("--minify"));
    push_common_options(&mut v);
    push_all(&mut v, extra);
    assert(texts(v@) =~= build_args(entrypoint@, dist_dir@, manifest_file@, texts(extra@)));
    v
}

/// The bundler to run: the one shipped beside the library where there is
/// one, else `esbuild` from the search path.
pub fn get_esbuild_path(shipped: Option<String>) -> (r: String)
    ensures
        r@ == match shipped {
            Some(p) => p@,
            None => "esbuild"@,
        },
{
    match shipped {
        Some(p) => p,
        None => String::from_str("esbuild"),
    }
}

} // verus!
