use vstd::prelude::*;
use vstd::string::StrSliceExecFns;

verus! {

/// File names of the bundle's entry files: the script and its stylesheet
/// (empty where the bundle has none).
#[derive(Debug, Clone, PartialEq, Eq)]
pub struct EntryFiles {
    pub js: String,
    pub css: String,
}

/// One output of the bundler's build manifest: the output's path, the
/// source it was built from if it is an entry point, and the stylesheet
/// bundled beside it.
#[derive(Debug, Clone)]
pub struct ManifestOutput {
    pub name: String,
    pub entry_point: Option<String>,
    pub css_bundle: Option<String>,
}

/// The last component of a path, empty where it has none.
pub uninterp spec fn file_name_of(path: Seq<char>) -> Seq<char>;

/// Relies on std::path::Path::file_name: the final component of the path
/// (none for a path that ends in `..`), which depends on the path alone; a
/// component of a `str` path is read back without loss.
#[verifier::external_body]
fn file_name(path: &str) -> (r: String)
    ensures
        r@ == file_name_of(path@),
{
    std::path::Path::new(path).file_name().unwrap_or_default().to_string_lossy().to_string()
}

/// Whether `s` ends with `suffix`.
pub fn ends_with(s: &str, suffix: &str) -> (r: bool)
    ensures
        r == suffix@.is_suffix_of(s@),
{
    let n = s.unicode_len();
    let m = suffix.unicode_len();
    if m > n {
        return false;
    }
    let d = n - m;
    let mut j: usize = 0;
    while j < m
        invariant
            j <= m,
            m <= n,
            d == n - m,
            n == s@.len(),
            m == suffix@.len(),
            forall|k: int| 0 <= k < j ==> s@[d + k] == suffix@[k],
        decreases m - j,
    {
        if s.get_char(d + j) != suffix.get_char(j) {
            assert(s@.subrange(d as int, n as int)[j as int] == s@[d + j]);
            return false;
        }
        j += 1;
    }
    assert(suffix@ =~= s@.subrange(d as int, n as int));
    true
}

/// Whether the output was built from the entry point at `entrypoint`.
pub open spec fn builds_entry(o: ManifestOutput, entrypoint: Seq<char>) -> bool {
    match o.entry_point {
        Some(source) => source@.is_suffix_of(entrypoint),
        None => false,
    }
}

/// The stylesheet's file name of an output, empty where it has none.
pub open spec fn css_name(o: ManifestOutput) -> Seq<char> {
    match o.css_bundle {
        Some(css) => file_name_of(css@),
        None => Seq::empty(),
    }
}

/// The entry files that the output gives.
pub open spec fn entry_files_match(r: EntryFiles, o: ManifestOutput) -> bool {
    r.js@ == file_name_of(o.name@) && r.css@ == css_name(o)
}

impl EntryFiles {
    /// The entry files of the first output built from the entry point at
    /// `entrypoint`, or none where no output was built from it.
    pub fn from_outputs(outputs: &Vec<ManifestOutput>, entrypoint: &str) -> (r: Option<EntryFiles>)
        ensures
            r is None <==> forall|i: int|
                0 <= i < outputs@.len() ==> !builds_entry(#[trigger] outputs@[i], entrypoint@),
            r matches Some(f) ==> exists|i: int|
                0 <= i < outputs@.len() && builds_entry(#[trigger] outputs@[i], entrypoint@)
                    && entry_files_match(f, outputs@[i]) && forall|j: int|
                    0 <= j < i ==> !builds_entry(#[trigger] outputs@[j], entrypoint@),
    {
        let mut i: usize = 0;
        while i < outputs.len()
            invariant
                i <= outputs@.len(),
                forall|j: int| 0 <= j < i ==> !builds_entry(#[trigger] outputs@[j], entrypoint@),
            decreases outputs@.len() - i,
        {
            let o = &outputs[i];
            if let Some(source) = &o.entry_point {
                if ends_with(entrypoint, source.as_str()) {
                    let css = match &o.css_bundle {
                        Some(c) => file_name(c.as_str()),
                        None => String::new(),
                    };
                    let r = EntryFiles { js: file_name(o.name.as_str()), css };
                    assert(entry_files_match(r, outputs@[i as int]));
                    return Some(r);
                }
            }
            i += 1;
        }
        None
    }
}

} // verus!
