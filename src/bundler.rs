use vstd::prelude::*;
use vstd::string::StringExecFns;

use crate::esbuild::{build_args, build_arguments, texts};
use crate::manifest::{builds_entry, css_name, entry_files_match, file_name_of, EntryFiles, ManifestOutput};

verus! {

/// A path joined with one more component.
pub uninterp spec fn joined(dir: Seq<char>, name: Seq<char>) -> Seq<char>;

/// Relies on std::path::Path::join: the directory followed by the component,
/// which depends on the two alone; a path built from `str`s is read back
/// without loss.
#[verifier::external_body]
fn join_path(dir: &str, name: &str) -> (r: String)
    ensures
        r@ == joined(dir@, name@),
{
    std::path::Path::new(dir).join(name).to_string_lossy().to_string()
}

/// Something the build script is to do.
#[derive(Debug, Clone, PartialEq, Eq)]
pub enum Effect {
    /// Print the line, an instruction to cargo.
    Print(String),
    /// Print the line, a warning to cargo, unless quiet logging is asked for.
    Log(String),
    /// Print the line, an error to cargo, and stop with a failure.
    Fail(String),
    /// Remove the directory and all it holds, if it exists.
    RemoveDir(String),
    /// Write the file.
    WriteFile { path: String, contents: String },
    /// Run the bundler with the arguments, relay its output, and report how
    /// it ended.
    RunEsbuild(Vec<String>),
    /// Read the build manifest at the path and report its outputs.
    ReadManifest(String),
    /// Turn the files under the first directory into asset code, with the
    /// second as the output directory, and report the code.
    GenerateAssets { dist_dir: String, out_dir: String },
    /// Stop with success.
    Stop,
}

/// What an effect is, over plain values.
pub enum EffectView {
    Print(Seq<char>),
    Log(Seq<char>),
    Fail(Seq<char>),
    RemoveDir(Seq<char>),
    WriteFile(Seq<char>, Seq<char>),
    RunEsbuild(Seq<Seq<char>>),
    ReadManifest(Seq<char>),
    GenerateAssets(Seq<char>, Seq<char>),
    Stop,
}

impl View for Effect {
    type V = EffectView;

    open spec fn view(&self) -> EffectView {
        match self {
            Effect::Print(s) => EffectView::Print(s@),
            Effect::Log(s) => EffectView::Log(s@),
            Effect::Fail(s) => EffectView::Fail(s@),
            Effect::RemoveDir(s) => EffectView::RemoveDir(s@),
            Effect::WriteFile { path, contents } => EffectView::WriteFile(path@, contents@),
            Effect::RunEsbuild(args) => EffectView::RunEsbuild(texts(args@)),
            Effect::ReadManifest(s) => EffectView::ReadManifest(s@),
            Effect::GenerateAssets { dist_dir, out_dir } => EffectView::GenerateAssets(
                dist_dir@,
                out_dir@,
            ),
            Effect::Stop => EffectView::Stop,
        }
    }
}

/// What each effect of a list is.
pub open spec fn effects(v: Seq<Effect>) -> Seq<EffectView> {
    v.map_values(|e: Effect| e@)
}

/// A line that reports an error to cargo.
pub open spec fn error_line(msg: Seq<char>) -> Seq<char> {
    "cargo::error="@ + msg
}

/// A line that reports a warning to cargo.
pub open spec fn warning_line(msg: Seq<char>) -> Seq<char> {
    "cargo::warning="@ + msg
}

/// A line that sets a compile-time environment variable.
pub open spec fn env_line(name: Seq<char>, value: Seq<char>) -> Seq<char> {
    "cargo::rustc-env="@ + name + "="@ + value
}

fn prefixed(prefix: &str, msg: String) -> (r: String)
    ensures
        r@ == prefix@ + msg@,
{
    String::from_str(prefix).concat(msg.as_str())
}

fn env_directive(name: &str, value: &str) -> (r: String)
    ensures
        r@ == env_line(name@, value@),
{
    String::from_str("cargo::rustc-env=").concat(name).concat("=").concat(value)
}

/// Name of the file the asset code is written to.
pub const ASSET_FILE: &'static str = "spaxum.rs";

/// Paths a release build works with, once the entry point was found.
pub struct BuildPaths {
    pub entrypoint: String,
    pub out_dir: String,
    pub dist_dir: String,
    pub metafile: String,
}

/// The build script's progress: bundling an entry point with extra bundler
/// arguments.
pub struct Bundle {
    entrypoint: String,
    build_args: Vec<String>,
    paths: Option<BuildPaths>,
}

/// Starts bundling the entry point: in a release build the assets are
/// bundled and embedded, in a debug build the entry point is handed on to the
/// development server.
pub fn bundle(entrypoint: &str) -> (r: Bundle)
    ensures
        r.entrypoint_view() == entrypoint@,
        r.args_view() == Seq::<Seq<char>>::empty(),
        !r.is_located(),
        r.wf(),
{
    bundle_with_args(entrypoint, Vec::new())
}

/// Starts bundling the entry point, passing `build_args` to the bundler after
/// its own arguments.
pub fn bundle_with_args(entrypoint: &str, build_args: Vec<String>) -> (r: Bundle)
    ensures
        r.entrypoint_view() == entrypoint@,
        r.args_view() == texts(build_args@),
        !r.is_located(),
        r.wf(),
{
    Bundle { entrypoint: String::from_str(entrypoint), build_args, paths: None }
}

impl Bundle {
    /// The entry point as given.
    pub closed spec fn entrypoint_view(&self) -> Seq<char> {
        self.entrypoint@
    }

    /// Arguments passed to the bundler after its own.
    pub closed spec fn args_view(&self) -> Seq<Seq<char>> {
        texts(self.build_args@)
    }

    /// Whether the entry point and the output directory were found, in a
    /// release build.
    pub closed spec fn is_located(&self) -> bool {
        self.paths is Some
    }

    /// The paths of a release build are those under its output directory.
    pub closed spec fn wf(&self) -> bool {
        self.paths matches Some(p) ==> {
            &&& p.dist_dir@ == joined(p.out_dir@, "dist"@)
            &&& p.metafile@ == joined(p.out_dir@, "metafile.json"@)
        }
    }

    /// The resolved entry point and the output directory.
    pub closed spec fn located_view(&self) -> (Seq<char>, Seq<char>) {
        (self.paths->Some_0.entrypoint@, self.paths->Some_0.out_dir@)
    }

    /// Whether `r` holds the same entry point and bundler arguments.
    pub open spec fn same_job(&self, r: &Bundle) -> bool {
        self.entrypoint_view() == r.entrypoint_view() && self.args_view() == r.args_view()
    }

    /// Whether the release build's paths are known, so that the later steps
    /// can follow.
    pub fn located_paths_known(&self) -> (r: bool)
        ensures
            r == self.is_located(),
    {
        self.paths.is_some()
    }

    /// What follows once the entry point was resolved to `canonical` (none
    /// where it does not exist), in the directory `source_dir`, with the
    /// output directory `out_dir` (none where it is not set), in a debug
    /// build or not.
    pub fn located(
        &mut self,
        canonical: Option<String>,
        source_dir: Option<String>,
        out_dir: Option<String>,
        debug: bool,
    ) -> (r: Vec<Effect>)
        ensures
            final(self).wf(),
            final(self).same_job(old(self)),
            final(self).is_located() <==> (canonical is Some && out_dir is Some && !debug
                && source_dir is Some),
            final(self).is_located() ==> final(self).located_view() == (
                canonical->Some_0@,
                out_dir->Some_0@,
            ),
            canonical is None ==> effects(r@) == seq![
                EffectView::Fail(error_line(old(self).entrypoint_view() + " not found!"@)),
            ],
            canonical is Some && out_dir is None ==> effects(r@) == seq![
                EffectView::Fail(error_line("OUT_DIR not set!"@)),
            ],
            canonical is Some && out_dir is Some && debug ==> effects(r@)
                == seq![
                EffectView::Print(env_line("SPAXUM_ENTRYPOINT"@, canonical->Some_0@)),
                EffectView::WriteFile(joined(out_dir->Some_0@, ASSET_FILE@), "&[]"@),
                EffectView::Log(
                    warning_line(
                        "Skipping bundling in debug mode, assets will be served by the esbuild dev server."@,
                    ),
                ),
                EffectView::Stop,
            ],
            canonical is Some && out_dir is Some && !debug && source_dir is None
                ==> effects(r@) == seq![
                EffectView::RemoveDir(joined(out_dir->Some_0@, "dist"@)),
                EffectView::Fail(error_line("Unable to get parent directory of entrypoint: "@ + canonical->Some_0@)),
            ],
            canonical is Some && out_dir is Some && !debug
                && source_dir is Some ==> effects(r@) == seq![
                EffectView::RemoveDir(joined(out_dir->Some_0@, "dist"@)),
                EffectView::Print("cargo::rerun-if-changed="@ + source_dir->Some_0@),
                EffectView::Log(warning_line("Bundling "@ + canonical->Some_0@ + " using esbuild..."@)),
                EffectView::RunEsbuild(
                    build_args(
                        canonical->Some_0@,
                        joined(out_dir->Some_0@, "dist"@),
                        joined(out_dir->Some_0@, "metafile.json"@),
                        old(self).args_view(),
                    ),
                ),
            ],
    {
        let mut r: Vec<Effect> = Vec::new();
        self.paths = None;
        let canonical = match canonical {
            Some(c) => c,
            None => {
                let msg = String::from_str(self.entrypoint.as_str()).concat(" not found!");
                r.push(Effect::Fail(prefixed("cargo::error=", msg)));
                assert(effects(r@) =~= seq![EffectView::Fail(error_line(self.entrypoint_view() + " not found!"@))]);
                return r;
            },
        };
        let out_dir = match out_dir {
            Some(o) => o,
            None => {
                r.push(Effect::Fail(prefixed("cargo::error=", String::from_str("OUT_DIR not set!"))));
                assert(effects(r@) =~= seq![EffectView::Fail(error_line("OUT_DIR not set!"@))]);
                return r;
            },
        };
        if debug {
            r.push(Effect::Print(env_directive("SPAXUM_ENTRYPOINT", canonical.as_str())));
            r.push(
                Effect::WriteFile {
                    path: join_path(out_dir.as_str(), ASSET_FILE),
                    contents: String::from_str("&[]"),
                },
            );
            r.push(
                Effect::Log(
                    prefixed(
                        "cargo::warning=",
                        String::from_str(
                            "Skipping bundling in debug mode, assets will be served by the esbuild dev server.",
                        ),
                    ),
                ),
            );
            r.push(Effect::Stop);
            assert(effects(r@) =~= seq![
                EffectView::Print(env_line("SPAXUM_ENTRYPOINT"@, canonical@)),
                EffectView::WriteFile(joined(out_dir@, ASSET_FILE@), "&[]"@),
                EffectView::Log(
                    warning_line(
                        "Skipping bundling in debug mode, assets will be served by the esbuild dev server."@,
                    ),
                ),
                EffectView::Stop,
            ]);
            return r;
        }
        let dist_dir = join_path(out_dir.as_str(), "dist");
        r.push(Effect::RemoveDir(dist_dir.clone()));
        let source_dir = match source_dir {
            Some(s) => s,
            None => {
                let msg = String::from_str("Unable to get parent directory of entrypoint: ").concat(
                    canonical.as_str(),
                );
                r.push(Effect::Fail(prefixed("cargo::error=", msg)));
                assert(effects(r@) =~= seq![
                    EffectView::RemoveDir(joined(out_dir@, "dist"@)),
                    EffectView::Fail(error_line("Unable to get parent directory of entrypoint: "@ + canonical@)),
                ]);
                return r;
            },
        };
        r.push(
            Effect::Print(String::from_str("cargo::rerun-if-changed=").concat(source_dir.as_str())),
        );
        r.push(
            Effect::Log(
                prefixed(
                    "cargo::warning=",
                    String::from_str("Bundling ").concat(canonical.as_str()).concat(
                        " using esbuild...",
                    ),
                ),
            ),
        );
        let metafile = join_path(out_dir.as_str(), "metafile.json");
        let args = build_arguments(
            canonical.as_str(),
            dist_dir.as_str(),
            metafile.as_str(),
            &self.build_args,
        );
        r.push(Effect::RunEsbuild(args));
        assert(effects(r@) =~= seq![
            EffectView::RemoveDir(joined(out_dir@, "dist"@)),
            EffectView::Print("cargo::rerun-if-changed="@ + source_dir@),
            EffectView::Log(warning_line("Bundling "@ + canonical@ + " using esbuild..."@)),
            EffectView::RunEsbuild(
                build_args(
                    canonical@,
                    joined(out_dir@, "dist"@),
                    joined(out_dir@, "metafile.json"@),
                    self.args_view(),
                ),
            ),
        ]);
        self.paths = Some(BuildPaths { entrypoint: canonical, out_dir, dist_dir, metafile });
        r
    }

    /// What follows once the bundler ended: `started` tells whether it could
    /// be run at all, `success` whether it bundled.
    pub fn esbuild_exited(&mut self, started: bool, success: bool) -> (r: Vec<Effect>)
        requires
            old(self).wf(),
            old(self).is_located(),
        ensures
            *final(self) == *old(self),
            !started ==> effects(r@) == seq![
                EffectView::Fail(error_line("esbuild failed to start"@)),
            ],
            started && !success ==> effects(r@) == seq![
                EffectView::Fail(
                    error_line("esbuild failed to bundle: "@ + old(self).located_view().0),
                ),
            ],
            started && success ==> effects(r@) == seq![
                EffectView::Log(warning_line("esbuild completed successfully"@)),
                EffectView::ReadManifest(joined(old(self).located_view().1, "metafile.json"@)),
            ],
    {
        let mut r: Vec<Effect> = Vec::new();
        let paths = match &self.paths {
            Some(p) => p,
            None => {
                return r;
            },
        };
        if !started {
            r.push(
                Effect::Fail(prefixed("cargo::error=", String::from_str("esbuild failed to start"))),
            );
        } else if !success {
            let msg = String::from_str("esbuild failed to bundle: ").concat(
                paths.entrypoint.as_str(),
            );
            r.push(Effect::Fail(prefixed("cargo::error=", msg)));
        } else {
            r.push(
                Effect::Log(
                    prefixed("cargo::warning=", String::from_str("esbuild completed successfully")),
                ),
            );
            r.push(Effect::ReadManifest(paths.metafile.clone()));
        }
        r
    }

    /// What follows once the build manifest was read: the entry files of the
    /// first output built from the entry point are handed to the compiler,
    /// and the bundle is turned into asset code.
    pub fn manifest_read(&mut self, outputs: &Vec<ManifestOutput>) -> (r: Vec<Effect>)
        requires
            old(self).wf(),
            old(self).is_located(),
        ensures
            *final(self) == *old(self),
            (forall|i: int|
                0 <= i < outputs@.len() ==> !builds_entry(
                    #[trigger] outputs@[i],
                    old(self).located_view().0,
                )) ==> effects(r@) == seq![
                EffectView::Fail(
                    error_line(
                        "Unable to find entrypoint in manifest file: "@ + joined(
                            old(self).located_view().1,
                            "metafile.json"@,
                        ),
                    ),
                ),
            ],
            forall|i: int|
                0 <= i < outputs@.len() && builds_entry(
                    #[trigger] outputs@[i],
                    old(self).located_view().0,
                ) && (forall|j: int|
                    0 <= j < i ==> !builds_entry(
                        #[trigger] outputs@[j],
                        old(self).located_view().0,
                    )) ==> effects(r@) == seq![
                    EffectView::Print(
                        env_line("SPAXUM_JS_ENTRY"@, file_name_of(outputs@[i].name@)),
                    ),
                    EffectView::Print(env_line("SPAXUM_CSS_ENTRY"@, css_name(outputs@[i]))),
                    EffectView::GenerateAssets(
                        joined(old(self).located_view().1, "dist"@),
                        old(self).located_view().1,
                    ),
                ],
    {
        let mut r: Vec<Effect> = Vec::new();
        let paths = match &self.paths {
            Some(p) => p,
            None => {
                return r;
            },
        };
        match EntryFiles::from_outputs(outputs, paths.entrypoint.as_str()) {
            None => {
                let msg = String::from_str("Unable to find entrypoint in manifest file: ").concat(
                    paths.metafile.as_str(),
                );
                r.push(Effect::Fail(prefixed("cargo::error=", msg)));
                assert(effects(r@) =~= seq![EffectView::Fail(error_line("Unable to find entrypoint in manifest file: "@ + paths.metafile@))]);
            },
            Some(f) => {
                r.push(Effect::Print(env_directive("SPAXUM_JS_ENTRY", f.js.as_str())));
                r.push(Effect::Print(env_directive("SPAXUM_CSS_ENTRY", f.css.as_str())));
                r.push(
                    Effect::GenerateAssets {
                        dist_dir: paths.dist_dir.clone(),
                        out_dir: paths.out_dir.clone(),
                    },
                );
                assert(effects(r@) =~= seq![
                    EffectView::Print(env_line("SPAXUM_JS_ENTRY"@, f.js@)),
                    EffectView::Print(env_line("SPAXUM_CSS_ENTRY"@, f.css@)),
                    EffectView::GenerateAssets(paths.dist_dir@, paths.out_dir@),
                ]);
                assert forall|i: int|
                    0 <= i < outputs@.len() && builds_entry(
                        #[trigger] outputs@[i],
                        paths.entrypoint@,
                    ) && (forall|j: int|
                        0 <= j < i ==> !builds_entry(
                            #[trigger] outputs@[j],
                            paths.entrypoint@,
                        )) implies entry_files_match(f, outputs@[i]) by {
                    let k = choose|k: int|
                        0 <= k < outputs@.len() && builds_entry(
                            #[trigger] outputs@[k],
                            paths.entrypoint@,
                        ) && entry_files_match(f, outputs@[k]) && forall|j: int|
                            0 <= j < k ==> !builds_entry(
                                #[trigger] outputs@[j],
                                paths.entrypoint@,
                            );
                    if k < i {
                        assert(!builds_entry(outputs@[k], paths.entrypoint@));
                    } else if i < k {
                        assert(!builds_entry(outputs@[i], paths.entrypoint@));
                    }
                };
            },
        }
        r
    }

    /// What follows once the asset code was generated: it is written to the
    /// asset file in the output directory.
    pub fn assets_generated(&mut self, code: String) -> (r: Vec<Effect>)
        requires
            old(self).wf(),
            old(self).is_located(),
        ensures
            *final(self) == *old(self),
            effects(r@) == seq![
                EffectView::WriteFile(joined(old(self).located_view().1, ASSET_FILE@), code@),
            ],
    {
        let mut r: Vec<Effect> = Vec::new();
        let paths = match &self.paths {
            Some(p) => p,
            None => {
                return r;
            },
        };
        r.push(
            Effect::WriteFile { path: join_path(paths.out_dir.as_str(), ASSET_FILE), contents: code },
        );
        assert(effects(r@) =~= seq![
            EffectView::WriteFile(joined(paths.out_dir@, ASSET_FILE@), code@),
        ]);
        r
    }
}

} // verus!
