use thrush::orchestrator::{
    Artifact, BuildAction, BuildError, BuildResult, BuildStage, FileBuilder, Linking, Opt,
    Options, Outcome,
};

fn options(name: &str) -> Options {
    let mut o = Options::new("x86_64-unknown-linux-gnu".to_string());
    o.name = name.to_string();
    o
}

fn trace(b: &FileBuilder, outcomes: &[Outcome]) -> Vec<BuildAction> {
    let mut stage = BuildStage::Start;
    let mut out = Vec::new();
    for o in outcomes {
        if stage == BuildStage::Done {
            break;
        }
        let (s, a) = b.step(stage, *o);
        out.push(a);
        stage = s;
    }
    out
}

#[test]
fn default_options() {
    let o = Options::new("t".to_string());
    assert_eq!(o.name, "main");
    assert_eq!(o.optimization, Opt::Off);
    assert_eq!(o.linking, Linking::Static);
    assert!(o.is_main && !o.emit_llvm && !o.build);
}

#[test]
fn text_output_skips_optimizer_and_driver() {
    let mut o = options("prog");
    o.emit_llvm = true;
    let b = FileBuilder::new(o);
    let t = trace(&b, &[Outcome::Succeeded; 9]);
    assert_eq!(t, vec![BuildAction::WriteText, BuildAction::Finish(BuildResult::Built)]);
    assert_eq!(b.path_of(Artifact::Text), "prog.ll");
}

#[test]
fn full_build_removes_bitcode_after_driver() {
    let b = FileBuilder::new(options("prog"));
    let t = trace(&b, &[Outcome::Succeeded; 9]);
    assert_eq!(
        t,
        vec![
            BuildAction::WriteBitcode,
            BuildAction::ProbeOptimizer,
            BuildAction::RunOptimizer,
            BuildAction::ProbeDriver,
            BuildAction::RunDriver,
            BuildAction::RemoveBitcode,
            BuildAction::Finish(BuildResult::Built),
        ]
    );
}

#[test]
fn missing_optimizer_is_reported_and_bitcode_removed() {
    let b = FileBuilder::new(options("prog"));
    let t = trace(&b, &[Outcome::Succeeded, Outcome::Succeeded, Outcome::Missing, Outcome::Succeeded]);
    assert_eq!(
        t,
        vec![
            BuildAction::WriteBitcode,
            BuildAction::ProbeOptimizer,
            BuildAction::RemoveBitcode,
            BuildAction::Finish(BuildResult::Failed(BuildError::OptimizerMissing)),
        ]
    );
}

#[test]
fn missing_driver_is_reported_and_bitcode_removed() {
    let b = FileBuilder::new(options("prog"));
    let mut outcomes = vec![Outcome::Succeeded; 4];
    outcomes.push(Outcome::Missing);
    outcomes.push(Outcome::Succeeded);
    let t = trace(&b, &outcomes);
    assert_eq!(t[4], BuildAction::RemoveBitcode);
    assert_eq!(t[5], BuildAction::Finish(BuildResult::Failed(BuildError::DriverMissing)));
}

#[test]
fn failed_driver_run_still_removes_bitcode() {
    let b = FileBuilder::new(options("prog"));
    let mut outcomes = vec![Outcome::Succeeded; 5];
    outcomes.push(Outcome::Failed);
    outcomes.push(Outcome::Succeeded);
    let t = trace(&b, &outcomes);
    assert_eq!(t[5], BuildAction::RemoveBitcode);
    assert_eq!(t[6], BuildAction::Finish(BuildResult::Failed(BuildError::ToolFailed)));
}

#[test]
fn optimizer_arguments() {
    let mut o = options("prog");
    o.optimization = Opt::Mcqueen;
    let b = FileBuilder::new(o);
    assert_eq!(
        b.optimizer_args(),
        vec![
            "-p=O3", "-p=globalopt", "-p=globaldce", "-p=dce", "-p=instcombine",
            "-p=strip-dead-prototypes", "-p=strip", "-p=mem2reg", "-p=memcpyopt", "prog.bc",
        ]
    );
    assert_eq!(FileBuilder::optimizer_program(), "opt");
}

#[test]
fn driver_arguments_for_object() {
    let b = FileBuilder::new(options("prog"));
    assert_eq!(
        b.driver_args(),
        vec!["-opaque-pointers", "--static", "-ffast-math", "-c", "prog.bc", "-o", "prog.o"]
    );
    assert_eq!(FileBuilder::driver_program(), "clang-18");
}

#[test]
fn driver_arguments_for_executable() {
    let mut o = options("prog");
    o.build = true;
    o.linking = Linking::Dynamic;
    let b = FileBuilder::new(o);
    assert_eq!(
        b.driver_args(),
        vec!["-opaque-pointers", "-dynamic", "-ffast-math", "prog.bc", "-o", "prog"]
    );
}

#[test]
fn artifact_paths() {
    let b = FileBuilder::new(options("app"));
    assert_eq!(b.path_of(Artifact::Bitcode), "app.bc");
    assert_eq!(b.path_of(Artifact::Object), "app.o");
    assert_eq!(b.path_of(Artifact::Executable), "app");
}

#[test]
fn machine_default_options() {
    let o = Options::default();
    assert_eq!(o.name, "main");
    assert!(!o.target_triple.is_empty());
    assert_eq!(o.optimization, Opt::Off);
    assert!(o.is_main && !o.build);
}
