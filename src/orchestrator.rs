//! The decisions of the optimize-and-link build, as a state machine whose
//! actions a driver performs.

use vstd::prelude::*;
use vstd::string::StringExecFns;

verus! {

/// Optimization tier.
#[derive(Debug, Clone, Copy, PartialEq, Eq, Structural)]
pub enum Opt {
    Off,
    Low,
    Mid,
    Mcqueen,
}

impl Default for Opt {
    fn default() -> (r: Opt)
        ensures
            r == Opt::Off,
    {
        Opt::Off
    }
}

/// How the final executable is linked.
#[derive(Debug, Clone, Copy, PartialEq, Eq, Structural)]
pub enum Linking {
    Static,
    Dynamic,
}

impl Default for Linking {
    fn default() -> (r: Linking)
        ensures
            r == Linking::Static,
    {
        Linking::Static
    }
}

/// Relocation model of generated code.
#[derive(Debug, Clone, Copy, PartialEq, Eq, Structural)]
pub enum RelocMode {
    Default,
    Static,
    Pic,
    DynamicNoPic,
}

/// Code model of generated code.
#[derive(Debug, Clone, Copy, PartialEq, Eq, Structural)]
pub enum CodeModel {
    Default,
    JitDefault,
    Small,
    Kernel,
    Medium,
    Large,
}

/// Build configuration; every field is independent of the others.
#[derive(Debug, Clone)]
pub struct Options {
    pub name: String,
    pub target_triple: String,
    pub optimization: Opt,
    pub interpret: bool,
    pub emit_llvm: bool,
    pub emit_object: bool,
    pub build: bool,
    pub linking: Linking,
    pub path: String,
    pub is_main: bool,
    pub reloc_mode: RelocMode,
    pub code_model: CodeModel,
}

impl Options {
    /// The default configuration for the given target triple.
    pub fn new(target_triple: String) -> (r: Options)
        ensures
            r.name@ == "main"@,
            r.target_triple@ == target_triple@,
            r.optimization == Opt::Off,
            !r.interpret,
            !r.emit_llvm,
            !r.emit_object,
            !r.build,
            r.linking == Linking::Static,
            r.path@.len() == 0,
            r.is_main,
            r.reloc_mode == RelocMode::Default,
            r.code_model == CodeModel::Default,
    {
        Options {
            name: String::from_str("main"),
            target_triple,
            optimization: Opt::default(),
            interpret: false,
            emit_llvm: false,
            emit_object: false,
            build: false,
            linking: Linking::default(),
            path: String::new(),
            is_main: true,
            reloc_mode: RelocMode::Default,
            code_model: CodeModel::Default,
        }
    }
}

/// Relies on inkwell's `TargetMachine::get_default_triple`: the triple of the
/// machine this runs on, as text. Nothing is claimed of its value.
#[verifier::external_body]
fn default_target_triple() -> (r: String) {
    inkwell::targets::TargetMachine::get_default_triple().as_str().to_string_lossy().into_owned()
}

impl Default for Options {
    /// The default configuration for the machine this runs on.
    fn default() -> (r: Options)
        ensures
            r.name@ == "main"@,
            r.optimization == Opt::Off,
            !r.interpret,
            !r.emit_llvm,
            !r.emit_object,
            !r.build,
            r.linking == Linking::Static,
            r.path@.len() == 0,
            r.is_main,
            r.reloc_mode == RelocMode::Default,
            r.code_model == CodeModel::Default,
    {
        Options::new(default_target_triple())
    }
}

/// A file that a build may leave behind.
#[derive(Debug, Clone, Copy, PartialEq, Eq, Structural)]
pub enum Artifact {
    /// `<name>.ll`, the textual module.
    Text,
    /// `<name>.bc`, the transient bitcode.
    Bitcode,
    /// `<name>.o`, a relocatable object.
    Object,
    /// `<name>`, a native executable.
    Executable,
}

/// Why a build stopped short.
#[derive(Debug, Clone, Copy, PartialEq, Eq, Structural)]
pub enum BuildError {
    OptimizerMissing,
    DriverMissing,
    ToolFailed,
    WriteFailed,
}

/// How a build ended.
#[derive(Debug, Clone, Copy, PartialEq, Eq, Structural)]
pub enum BuildResult {
    Built,
    Failed(BuildError),
}

/// Where the orchestrator stands.
#[derive(Debug, Clone, Copy, PartialEq, Eq, Structural)]
pub enum BuildStage {
    Start,
    TextWritten,
    BitcodeWritten,
    OptimizerProbed,
    Optimized,
    DriverProbed,
    Linked,
    Cleaning(BuildResult),
    Done,
}

/// How the previous action went.
#[derive(Debug, Clone, Copy, PartialEq, Eq, Structural)]
pub enum Outcome {
    Succeeded,
    Missing,
    Failed,
}

/// What to do next.
#[derive(Debug, Clone, Copy, PartialEq, Eq, Structural)]
pub enum BuildAction {
    /// Write the textual module to the text artifact.
    WriteText,
    /// Serialize the module to the bitcode artifact.
    WriteBitcode,
    /// Check that the optimizer can be started.
    ProbeOptimizer,
    /// Run the optimizer with the fixed pass list.
    RunOptimizer,
    /// Check that the compiler driver can be started.
    ProbeDriver,
    /// Run the compiler driver to produce the requested artifact.
    RunDriver,
    /// Delete the bitcode artifact.
    RemoveBitcode,
    /// Stop, with the build's result.
    Finish(BuildResult),
}

/// The single artifact that a successful non-text build leaves.
pub open spec fn final_artifact(build: bool) -> Artifact {
    if build {
        Artifact::Executable
    } else {
        Artifact::Object
    }
}

/// One transition: from a stage and the outcome of the previous action to the
/// next stage and the action to perform.
pub open spec fn next(emit_llvm: bool, stage: BuildStage, outcome: Outcome) -> (
    BuildStage,
    BuildAction,
) {
    let ok = outcome == Outcome::Succeeded;
    match stage {
        BuildStage::Start => if emit_llvm {
            (BuildStage::TextWritten, BuildAction::WriteText)
        } else {
            (BuildStage::BitcodeWritten, BuildAction::WriteBitcode)
        },
        BuildStage::TextWritten => if ok {
            (BuildStage::Done, BuildAction::Finish(BuildResult::Built))
        } else {
            (BuildStage::Done, BuildAction::Finish(BuildResult::Failed(BuildError::WriteFailed)))
        },
        BuildStage::BitcodeWritten => if ok {
            (BuildStage::OptimizerProbed, BuildAction::ProbeOptimizer)
        } else {
            (BuildStage::Cleaning(BuildResult::Failed(BuildError::WriteFailed)), BuildAction::RemoveBitcode)
        },
        BuildStage::OptimizerProbed => if ok {
            (BuildStage::Optimized, BuildAction::RunOptimizer)
        } else {
            (BuildStage::Cleaning(BuildResult::Failed(BuildError::OptimizerMissing)), BuildAction::RemoveBitcode)
        },
        BuildStage::Optimized => if ok {
            (BuildStage::DriverProbed, BuildAction::ProbeDriver)
        } else {
            (BuildStage::Cleaning(BuildResult::Failed(BuildError::ToolFailed)), BuildAction::RemoveBitcode)
        },
        BuildStage::DriverProbed => if ok {
            (BuildStage::Linked, BuildAction::RunDriver)
        } else {
            (BuildStage::Cleaning(BuildResult::Failed(BuildError::DriverMissing)), BuildAction::RemoveBitcode)
        },
        BuildStage::Linked => if ok {
            (BuildStage::Cleaning(BuildResult::Built), BuildAction::RemoveBitcode)
        } else {
            (BuildStage::Cleaning(BuildResult::Failed(BuildError::ToolFailed)), BuildAction::RemoveBitcode)
        },
        BuildStage::Cleaning(res) => (BuildStage::Done, BuildAction::Finish(res)),
        BuildStage::Done => (BuildStage::Done, BuildAction::Finish(BuildResult::Built)),
    }
}

/// The actions taken from `stage` when the actions' outcomes are `outcomes`
/// in turn; the run stops at `Done`.
pub open spec fn run(emit_llvm: bool, stage: BuildStage, outcomes: Seq<Outcome>) -> Seq<
    BuildAction,
>
    decreases outcomes.len(),
{
    if outcomes.len() == 0 || stage == BuildStage::Done {
        Seq::empty()
    } else {
        let (s, a) = next(emit_llvm, stage, outcomes[0]);
        seq![a] + run(emit_llvm, s, outcomes.drop_first())
    }
}

/// The files on disk after `actions` have all succeeded, starting from none.
pub open spec fn files_after(build: bool, actions: Seq<BuildAction>) -> Set<Artifact>
    decreases actions.len(),
{
    if actions.len() == 0 {
        Set::empty()
    } else {
        let before = files_after(build, actions.drop_last());
        match actions.last() {
            BuildAction::WriteText => before.insert(Artifact::Text),
            BuildAction::WriteBitcode => before.insert(Artifact::Bitcode),
            BuildAction::RunDriver => before.insert(final_artifact(build)),
            BuildAction::RemoveBitcode => before.remove(Artifact::Bitcode),
            _ => before,
        }
    }
}

/// Outcomes of a build in which every action succeeds.
pub open spec fn all_succeed(n: nat) -> Seq<Outcome> {
    Seq::new(n, |_i: int| Outcome::Succeeded)
}

/// With textual output off and both tools present, the build runs the whole
/// pipeline, deletes the transient bitcode and leaves exactly the requested
/// object or executable.
pub proof fn lemma_full_build_leaves_one_artifact(build: bool, extra: nat)
    ensures
        run(false, BuildStage::Start, all_succeed(7 + extra)) == seq![
            BuildAction::WriteBitcode,
            BuildAction::ProbeOptimizer,
            BuildAction::RunOptimizer,
            BuildAction::ProbeDriver,
            BuildAction::RunDriver,
            BuildAction::RemoveBitcode,
            BuildAction::Finish(BuildResult::Built),
        ],
        files_after(build, run(false, BuildStage::Start, all_succeed(7 + extra))) == set![
            final_artifact(build)
        ],
{
    let o = all_succeed(7 + extra);
    reveal_with_fuel(run, 8);
    reveal_with_fuel(files_after, 8);
    let o1 = o.drop_first();
    let o2 = o1.drop_first();
    let o3 = o2.drop_first();
    let o4 = o3.drop_first();
    let o5 = o4.drop_first();
    let o6 = o5.drop_first();
    let o7 = o6.drop_first();
    assert(o[0] == Outcome::Succeeded);
    assert(o1[0] == Outcome::Succeeded);
    assert(o2[0] == Outcome::Succeeded);
    assert(o3[0] == Outcome::Succeeded);
    assert(o4[0] == Outcome::Succeeded);
    assert(o5[0] == Outcome::Succeeded);
    assert(o6[0] == Outcome::Succeeded);
    let t = run(false, BuildStage::Start, o);
    assert(run(false, BuildStage::Done, o7) == Seq::<BuildAction>::empty());
    assert(t =~= seq![
        BuildAction::WriteBitcode,
        BuildAction::ProbeOptimizer,
        BuildAction::RunOptimizer,
        BuildAction::ProbeDriver,
        BuildAction::RunDriver,
        BuildAction::RemoveBitcode,
        BuildAction::Finish(BuildResult::Built),
    ]);
    assert(t.drop_last().drop_last().drop_last().drop_last().drop_last().drop_last().drop_last()
        =~= Seq::<BuildAction>::empty());
    assert(files_after(build, t) =~= set![final_artifact(build)]);
}

/// With textual output on, whatever the outcomes, the build only writes the
/// textual module: it never probes a tool nor creates the bitcode.
pub proof fn lemma_text_output_skips_pipeline(outcomes: Seq<Outcome>)
    ensures
        run(true, BuildStage::Start, outcomes).len() <= 2,
        forall|i: int|
            0 <= i < run(true, BuildStage::Start, outcomes).len() ==> {
                let a = #[trigger] run(true, BuildStage::Start, outcomes)[i];
                a == BuildAction::WriteText || a is Finish
            },
        files_after(false, run(true, BuildStage::Start, outcomes)).subset_of(set![Artifact::Text]),
        files_after(true, run(true, BuildStage::Start, outcomes)).subset_of(set![Artifact::Text]),
{
    reveal_with_fuel(run, 3);
    reveal_with_fuel(files_after, 3);
    let t = run(true, BuildStage::Start, outcomes);
    if outcomes.len() > 0 {
        let o1 = outcomes.drop_first();
        if o1.len() > 0 {
            let o2 = o1.drop_first();
            assert(run(true, BuildStage::Done, o2) == Seq::<BuildAction>::empty());
            assert(t.len() == 2);
            assert(t.drop_last().drop_last() =~= Seq::<BuildAction>::empty());
        } else {
            assert(t.len() == 1);
            assert(t.drop_last() =~= Seq::<BuildAction>::empty());
        }
    }
}

/// The path of an artifact of the build named `name`.
pub open spec fn artifact_path(name: Seq<char>, a: Artifact) -> Seq<char> {
    match a {
        Artifact::Text => name + ".ll"@,
        Artifact::Bitcode => name + ".bc"@,
        Artifact::Object => name + ".o"@,
        Artifact::Executable => name,
    }
}

/// The optimizer's pass argument for a tier.
pub open spec fn opt_flag(o: Opt) -> Seq<char> {
    match o {
        Opt::Off => "-p=O0"@,
        Opt::Low => "-p=O1"@,
        Opt::Mid => "-p=O2"@,
        Opt::Mcqueen => "-p=O3"@,
    }
}

/// The optimizer's arguments: the tier, the fixed pass list, and the bitcode.
pub open spec fn optimizer_args(o: Opt, name: Seq<char>) -> Seq<Seq<char>> {
    seq![
        opt_flag(o),
        "-p=globalopt"@,
        "-p=globaldce"@,
        "-p=dce"@,
        "-p=instcombine"@,
        "-p=strip-dead-prototypes"@,
        "-p=strip"@,
        "-p=mem2reg"@,
        "-p=memcpyopt"@,
        artifact_path(name, Artifact::Bitcode),
    ]
}

/// The driver's linking-mode flag.
pub open spec fn linking_flag(l: Linking) -> Seq<char> {
    match l {
        Linking::Static => "--static"@,
        Linking::Dynamic => "-dynamic"@,
    }
}

/// The driver's arguments: linking mode, fast-math, object-only unless an
/// executable is wanted, the bitcode, and the output path.
pub open spec fn driver_args(l: Linking, build: bool, name: Seq<char>) -> Seq<Seq<char>> {
    seq!["-opaque-pointers"@, linking_flag(l), "-ffast-math"@] + (if build {
        Seq::empty()
    } else {
        seq!["-c"@]
    }) + seq![
        artifact_path(name, Artifact::Bitcode),
        "-o"@,
        artifact_path(name, final_artifact(build)),
    ]
}

pub open spec fn views(v: Seq<String>) -> Seq<Seq<char>> {
    v.map_values(|s: String| s@)
}

fn push_lit(v: &mut Vec<String>, s: &str)
    ensures
        views(final(v)@) == views(old(v)@).push(s@),
{
    v.push(String::from_str(s));
    assert(views(v@) =~= views(old(v)@).push(s@));
}

fn push_owned(v: &mut Vec<String>, s: String)
    ensures
        views(final(v)@) == views(old(v)@).push(s@),
{
    let ghost sv = s@;
    v.push(s);
    assert(views(v@) =~= views(old(v)@).push(sv));
}

/// Turns a finished module into the requested artifact, one decision at a time.
pub struct FileBuilder {
    options: Options,
}

impl FileBuilder {
    pub closed spec fn opts(&self) -> Options {
        self.options
    }

    pub fn new(options: Options) -> (r: FileBuilder)
        ensures
            r.opts() == options,
    {
        FileBuilder { options }
    }

    pub fn options(&self) -> (r: &Options)
        ensures
            *r == self.opts(),
    {
        &self.options
    }

    /// The name of the optimizer tool.
    pub fn optimizer_program() -> (r: String)
        ensures
            r@ == "opt"@,
    {
        String::from_str("opt")
    }

    /// The name of the compiler driver tool.
    pub fn driver_program() -> (r: String)
        ensures
            r@ == "clang-18"@,
    {
        String::from_str("clang-18")
    }

    /// The next stage and action, given the outcome of the previous action.
    pub fn step(&self, stage: BuildStage, outcome: Outcome) -> (r: (BuildStage, BuildAction))
        ensures
            r == next(self.opts().emit_llvm, stage, outcome),
    {
        let ok = outcome == Outcome::Succeeded;
        match stage {
            BuildStage::Start => if self.options.emit_llvm {
                (BuildStage::TextWritten, BuildAction::WriteText)
            } else {
                (BuildStage::BitcodeWritten, BuildAction::WriteBitcode)
            },
            BuildStage::TextWritten => if ok {
                (BuildStage::Done, BuildAction::Finish(BuildResult::Built))
            } else {
                (
                    BuildStage::Done,
                    BuildAction::Finish(BuildResult::Failed(BuildError::WriteFailed)),
                )
            },
            BuildStage::BitcodeWritten => if ok {
                (BuildStage::OptimizerProbed, BuildAction::ProbeOptimizer)
            } else {
                (
                    BuildStage::Cleaning(BuildResult::Failed(BuildError::WriteFailed)),
                    BuildAction::RemoveBitcode,
                )
            },
            BuildStage::OptimizerProbed => if ok {
                (BuildStage::Optimized, BuildAction::RunOptimizer)
            } else {
                (
                    BuildStage::Cleaning(BuildResult::Failed(BuildError::OptimizerMissing)),
                    BuildAction::RemoveBitcode,
                )
            },
            BuildStage::Optimized => if ok {
                (BuildStage::DriverProbed, BuildAction::ProbeDriver)
            } else {
                (
                    BuildStage::Cleaning(BuildResult::Failed(BuildError::ToolFailed)),
                    BuildAction::RemoveBitcode,
                )
            },
            BuildStage::DriverProbed => if ok {
                (BuildStage::Linked, BuildAction::RunDriver)
            } else {
                (
                    BuildStage::Cleaning(BuildResult::Failed(BuildError::DriverMissing)),
                    BuildAction::RemoveBitcode,
                )
            },
            BuildStage::Linked => if ok {
                (BuildStage::Cleaning(BuildResult::Built), BuildAction::RemoveBitcode)
            } else {
                (
                    BuildStage::Cleaning(BuildResult::Failed(BuildError::ToolFailed)),
                    BuildAction::RemoveBitcode,
                )
            },
            BuildStage::Cleaning(res) => (BuildStage::Done, BuildAction::Finish(res)),
            BuildStage::Done => (BuildStage::Done, BuildAction::Finish(BuildResult::Built)),
        }
    }

    /// The path of one of this build's artifacts.
    pub fn path_of(&self, a: Artifact) -> (r: String)
        ensures
            r@ == artifact_path(self.opts().name@, a),
    {
        let name = self.options.name.clone();
        match a {
            Artifact::Text => name.concat(".ll"),
            Artifact::Bitcode => name.concat(".bc"),
            Artifact::Object => name.concat(".o"),
            Artifact::Executable => name,
        }
    }

    /// The optimizer's command-line arguments.
    pub fn optimizer_args(&self) -> (r: Vec<String>)
        ensures
            views(r@) == optimizer_args(self.opts().optimization, self.opts().name@),
    {
        let mut v: Vec<String> = Vec::new();
        match self.options.optimization {
            Opt::Off => push_lit(&mut v, "-p=O0"),
            Opt::Low => push_lit(&mut v, "-p=O1"),
            Opt::Mid => push_lit(&mut v, "-p=O2"),
            Opt::Mcqueen => push_lit(&mut v, "-p=O3"),
        }
        push_lit(&mut v, "-p=globalopt");
        push_lit(&mut v, "-p=globaldce");
        push_lit(&mut v, "-p=dce");
        push_lit(&mut v, "-p=instcombine");
        push_lit(&mut v, "-p=strip-dead-prototypes");
        push_lit(&mut v, "-p=strip");
        push_lit(&mut v, "-p=mem2reg");
        push_lit(&mut v, "-p=memcpyopt");
        push_owned(&mut v, self.path_of(Artifact::Bitcode));
        assert(views(v@) =~= optimizer_args(self.opts().optimization, self.opts().name@));
        v
    }

    /// The compiler driver's command-line arguments.
    pub fn driver_args(&self) -> (r: Vec<String>)
        ensures
            views(r@) == driver_args(
                self.opts().linking,
                self.opts().build,
                self.opts().name@,
            ),
    {
        let mut v: Vec<String> = Vec::new();
        push_lit(&mut v, "-opaque-pointers");
        match self.options.linking {
            Linking::Static => push_lit(&mut v, "--static"),
            Linking::Dynamic => push_lit(&mut v, "-dynamic"),
        }
        push_lit(&mut v, "-ffast-math");
        if !self.options.build {
            push_lit(&mut v, "-c");
        }
        push_owned(&mut v, self.path_of(Artifact::Bitcode));
        push_lit(&mut v, "-o");
        let out = if self.options.build {
            self.path_of(Artifact::Executable)
        } else {
            self.path_of(Artifact::Object)
        };
        push_owned(&mut v, out);
        assert(views(v@) =~= driver_args(
            self.opts().linking,
            self.opts().build,
            self.opts().name@,
        ));
        v
    }
}

} // verus!
