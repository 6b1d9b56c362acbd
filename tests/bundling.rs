use spaxum::{bundle, bundle_with_args, Effect, ManifestOutput};

fn s(v: &str) -> String {
    v.to_string()
}

#[test]
fn missing_entrypoint_fails() {
    let mut job = bundle("frontend/main.ts");
    let effects = job.located(None, None, Some(s("/out")), false);
    assert_eq!(effects, vec![Effect::Fail(s("cargo::error=frontend/main.ts not found!"))]);
}

#[test]
fn missing_out_dir_fails() {
    let mut job = bundle("main.ts");
    let effects = job.located(Some(s("/src/main.ts")), Some(s("/src")), None, false);
    assert_eq!(effects, vec![Effect::Fail(s("cargo::error=OUT_DIR not set!"))]);
}

#[test]
fn debug_build_hands_entrypoint_on() {
    let mut job = bundle("main.ts");
    let effects = job.located(Some(s("/src/main.ts")), Some(s("/src")), Some(s("/out")), true);
    assert_eq!(
        effects,
        vec![
            Effect::Print(s("cargo::rustc-env=SPAXUM_ENTRYPOINT=/src/main.ts")),
            Effect::WriteFile { path: s("/out/spaxum.rs"), contents: s("&[]") },
            Effect::Log(s(
                "cargo::warning=Skipping bundling in debug mode, assets will be served by the esbuild dev server."
            )),
            Effect::Stop,
        ]
    );
}

#[test]
fn release_build_without_parent_fails() {
    let mut job = bundle("main.ts");
    let effects = job.located(Some(s("/main.ts")), None, Some(s("/out")), false);
    assert_eq!(
        effects,
        vec![
            Effect::RemoveDir(s("/out/dist")),
            Effect::Fail(s("cargo::error=Unable to get parent directory of entrypoint: /main.ts")),
        ]
    );
}

fn located_job() -> spaxum::Bundle {
    let mut job = bundle_with_args("main.ts", vec![s("--target=es2020")]);
    let effects = job.located(Some(s("/src/main.ts")), Some(s("/src")), Some(s("/out")), false);
    assert_eq!(effects.len(), 4);
    assert_eq!(effects[0], Effect::RemoveDir(s("/out/dist")));
    assert_eq!(effects[1], Effect::Print(s("cargo::rerun-if-changed=/src")));
    assert_eq!(effects[2], Effect::Log(s("cargo::warning=Bundling /src/main.ts using esbuild...")));
    match &effects[3] {
        Effect::RunEsbuild(args) => {
            assert_eq!(args[0], "--bundle");
            assert_eq!(args[1], "/src/main.ts");
            assert_eq!(args[2], "--outfile=/out/dist/index.js");
            assert_eq!(args[3], "--metafile=/out/metafile.json");
            assert_eq!(args.last().unwrap(), "--target=es2020");
            assert_eq!(args.len(), 15);
        }
        other => panic!("unexpected effect {:?}", other),
    }
    job
}

#[test]
fn release_build_runs_bundler() {
    located_job();
}

#[test]
fn bundler_failures_fail_the_build() {
    let mut job = located_job();
    assert_eq!(
        job.esbuild_exited(false, false),
        vec![Effect::Fail(s("cargo::error=esbuild failed to start"))]
    );
    assert_eq!(
        job.esbuild_exited(true, false),
        vec![Effect::Fail(s("cargo::error=esbuild failed to bundle: /src/main.ts"))]
    );
}

#[test]
fn bundler_success_reads_manifest() {
    let mut job = located_job();
    assert_eq!(
        job.esbuild_exited(true, true),
        vec![
            Effect::Log(s("cargo::warning=esbuild completed successfully")),
            Effect::ReadManifest(s("/out/metafile.json")),
        ]
    );
}

#[test]
fn manifest_without_entry_fails() {
    let mut job = located_job();
    let outputs = vec![ManifestOutput { name: s("/out/dist/x.js"), entry_point: None, css_bundle: None }];
    assert_eq!(
        job.manifest_read(&outputs),
        vec![Effect::Fail(s("cargo::error=Unable to find entrypoint in manifest file: /out/metafile.json"))]
    );
}

#[test]
fn manifest_entry_goes_to_compiler() {
    let mut job = located_job();
    let outputs = vec![ManifestOutput {
        name: s("../out/dist/main-AB12.js"),
        entry_point: Some(s("src/main.ts")),
        css_bundle: Some(s("../out/dist/main-CD34.css")),
    }];
    assert_eq!(
        job.manifest_read(&outputs),
        vec![
            Effect::Print(s("cargo::rustc-env=SPAXUM_JS_ENTRY=main-AB12.js")),
            Effect::Print(s("cargo::rustc-env=SPAXUM_CSS_ENTRY=main-CD34.css")),
            Effect::GenerateAssets { dist_dir: s("/out/dist"), out_dir: s("/out") },
        ]
    );
}

#[test]
fn asset_code_is_written() {
    let mut job = located_job();
    assert_eq!(
        job.assets_generated(s("&[]")),
        vec![Effect::WriteFile { path: s("/out/spaxum.rs"), contents: s("&[]") }]
    );
}
