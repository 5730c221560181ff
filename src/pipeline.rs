//! The build as a state machine: publish the manifest, optionally clean,
//! compile, locate the executable, read it, and write the launcher script.
//! The caller performs each action and reports how it went; the first
//! failure ends the build, with no rollback of what was already written.

use crate::launcher::{launcher_script, launcher_spec, ENTRYPOINT_FILE};
use crate::locate::{locate, qualifies, DirEntryInfo};
use crate::metadata::{join_spec, CargoMetadata, MANIFEST_FILE, STAGING_DIR};
use crate::toolchain::{clean_invocation, compile_args, texts, CrossTarget, Invocation};
use vstd::prelude::*;
use vstd::string::StringExecFns;

verus! {

/// The profile of a build: debug (no optimization flag) or release, and
/// whether a destructive clean runs first.
#[derive(Debug, Clone, Copy)]
pub struct BuildArgs {
    pub debug: bool,
    pub clean: bool,
}

/// Why a build failed.
#[derive(Debug, Clone)]
pub enum BuildError {
    Metadata(String),
    CargoBuild,
    RenderBuildOutput(String),
    GenezioManifestNotFound,
}

/// Text of the failure when the profile directory holds no executable.
pub const NO_EXECUTABLE: &'static str = "no executable found in the build output";

/// Where a build stands: the step to take next, or its end.
pub enum BuildStage {
    PublishManifest,
    Clean,
    Compile,
    Locate,
    ReadArtifact(String),
    WriteScript(Vec<u8>),
    Done,
    Failed(BuildError),
}

/// The stage without its data.
#[derive(PartialEq, Eq, Structural, Clone, Copy, Debug)]
pub enum StageKind {
    PublishManifest,
    Clean,
    Compile,
    Locate,
    ReadArtifact,
    WriteScript,
    Done,
    Failed,
}

/// What the caller is asked to do.
pub enum BuildAction {
    /// Create `staging_dir` where it is absent, then copy `source` to `target`.
    PublishManifest { staging_dir: String, source: String, target: String },
    /// Run the invocation and wait for it.
    Run(Invocation),
    /// List the entries of the directory.
    ListDir(String),
    /// Read the whole file.
    ReadFile(String),
    /// Write `contents` to the file at `path`.
    WriteFile { path: String, contents: String },
    /// Nothing: the build is over.
    Finish,
}

/// How the last action went.
pub enum StepOutcome {
    /// The action succeeded (a run: it started and exited with success).
    Succeeded,
    /// The action failed, with a description.
    Failed(String),
    /// The entries that a listing found, in the directory's order.
    Listing(Vec<DirEntryInfo>),
    /// The bytes that a read found.
    Contents(Vec<u8>),
}

pub open spec fn kind_of(s: BuildStage) -> StageKind {
    match s {
        BuildStage::PublishManifest => StageKind::PublishManifest,
        BuildStage::Clean => StageKind::Clean,
        BuildStage::Compile => StageKind::Compile,
        BuildStage::Locate => StageKind::Locate,
        BuildStage::ReadArtifact(_) => StageKind::ReadArtifact,
        BuildStage::WriteScript(_) => StageKind::WriteScript,
        BuildStage::Done => StageKind::Done,
        BuildStage::Failed(_) => StageKind::Failed,
    }
}

/// Whether the outcome lets the build go on from a stage of kind `k`.
pub open spec fn outcome_ok(k: StageKind, o: StepOutcome) -> bool {
    match o {
        StepOutcome::Succeeded => k == StageKind::PublishManifest || k == StageKind::Clean || k
            == StageKind::Compile || k == StageKind::WriteScript,
        StepOutcome::Listing(v) => k == StageKind::Locate && exists|i: int|
            0 <= i < v@.len() && qualifies(#[trigger] v@[i]),
        StepOutcome::Contents(_) => k == StageKind::ReadArtifact,
        StepOutcome::Failed(_) => false,
    }
}

/// The kind of stage that follows one of kind `k`, in a build that cleans
/// first or not, after an outcome that lets it go on or not.
pub open spec fn next_kind(clean: bool, k: StageKind, ok: bool) -> StageKind {
    if k == StageKind::Done || k == StageKind::Failed {
        k
    } else if !ok {
        StageKind::Failed
    } else {
        match k {
            StageKind::PublishManifest => if clean {
                StageKind::Clean
            } else {
                StageKind::Compile
            },
            StageKind::Clean => StageKind::Compile,
            StageKind::Compile => StageKind::Locate,
            StageKind::Locate => StageKind::ReadArtifact,
            StageKind::ReadArtifact => StageKind::WriteScript,
            _ => StageKind::Done,
        }
    }
}

/// The error that a failure at a stage of kind `k` ends the build with.
pub open spec fn failure_of(k: StageKind, o: StepOutcome, e: BuildError) -> bool {
    match k {
        StageKind::PublishManifest => e is GenezioManifestNotFound,
        StageKind::Clean | StageKind::Compile => e is CargoBuild,
        _ => match e {
            BuildError::RenderBuildOutput(m) => match o {
                StepOutcome::Failed(d) => m@ == d@,
                _ => m@ == NO_EXECUTABLE@,
            },
            _ => false,
        },
    }
}

/// One build in progress.
pub struct BuildRun {
    pub args: BuildArgs,
    pub metadata: CargoMetadata,
    pub target: CrossTarget,
    pub stage: BuildStage,
}

impl BuildRun {
    pub open spec fn wf(&self) -> bool {
        &&& self.stage matches BuildStage::WriteScript(b) ==> b@.len() <= isize::MAX as int
        &&& self.stage is Clean ==> self.args.clean
    }

    /// A build that has yet to take its first step.
    pub fn new(args: BuildArgs, metadata: CargoMetadata, target: CrossTarget) -> (r: BuildRun)
        ensures
            r.wf(),
            r.args == args,
            r.metadata == metadata,
            r.target == target,
            r.stage is PublishManifest,
    {
        BuildRun { args, metadata, target, stage: BuildStage::PublishManifest }
    }

    /// The action that the current stage asks for.
    pub fn action(&self) -> (r: BuildAction)
        requires
            self.wf(),
        ensures
            match self.stage {
                BuildStage::PublishManifest => match r {
                    BuildAction::PublishManifest { staging_dir, source, target } => staging_dir@
                        == join_spec(self.metadata.target_directory@, STAGING_DIR@) && source@
                        == join_spec(self.metadata.workspace_root@, MANIFEST_FILE@) && target@
                        == join_spec(
                        join_spec(self.metadata.target_directory@, STAGING_DIR@),
                        MANIFEST_FILE@,
                    ),
                    _ => false,
                },
                BuildStage::Clean => match r {
                    BuildAction::Run(inv) => inv.program@ == "cargo"@ && inv.arg_texts()
                        == seq!["clean"@] && inv.current_dir is None,
                    _ => false,
                },
                BuildStage::Compile => match r {
                    BuildAction::Run(inv) => inv.program@ == "cargo"@ && inv.arg_texts()
                        == compile_args(
                        self.target.triple@,
                        self.target.linker@,
                        texts(self.target.rustflags@),
                        !self.args.debug,
                    ) && inv.current_dir is None,
                    _ => false,
                },
                BuildStage::Locate => match r {
                    BuildAction::ListDir(d) => d@ == join_spec(
                        join_spec(self.metadata.target_directory@, self.target.triple@),
                        if self.args.debug {
                            "debug"@
                        } else {
                            "release"@
                        },
                    ),
                    _ => false,
                },
                BuildStage::ReadArtifact(p) => match r {
                    BuildAction::ReadFile(q) => q@ == p@,
                    _ => false,
                },
                BuildStage::WriteScript(b) => match r {
                    BuildAction::WriteFile { path, contents } => path@ == join_spec(
                        join_spec(self.metadata.target_directory@, STAGING_DIR@),
                        ENTRYPOINT_FILE@,
                    ) && contents@ == launcher_spec(b@),
                    _ => false,
                },
                _ => r is Finish,
            },
    {
        match &self.stage {
            BuildStage::PublishManifest => BuildAction::PublishManifest {
                staging_dir: self.metadata.get_genezio_out_dir(),
                source: self.metadata.manifest_source(),
                target: self.metadata.manifest_target(),
            },
            BuildStage::Clean => BuildAction::Run(clean_invocation()),
            BuildStage::Compile => BuildAction::Run(
                self.target.compile_invocation(!self.args.debug),
            ),
            BuildStage::Locate => BuildAction::ListDir(
                self.metadata.profile_dir(self.target.triple.as_str(), !self.args.debug),
            ),
            BuildStage::ReadArtifact(p) => BuildAction::ReadFile(p.clone()),
            BuildStage::WriteScript(b) => BuildAction::WriteFile {
                path: self.metadata.script_target(ENTRYPOINT_FILE),
                contents: launcher_script(b.as_slice()),
            },
            _ => BuildAction::Finish,
        }
    }

    /// The kind of the current stage.
    pub fn kind(&self) -> (r: StageKind)
        ensures
            r == kind_of(self.stage),
    {
        match &self.stage {
            BuildStage::PublishManifest => StageKind::PublishManifest,
            BuildStage::Clean => StageKind::Clean,
            BuildStage::Compile => StageKind::Compile,
            BuildStage::Locate => StageKind::Locate,
            BuildStage::ReadArtifact(_) => StageKind::ReadArtifact,
            BuildStage::WriteScript(_) => StageKind::WriteScript,
            BuildStage::Done => StageKind::Done,
            BuildStage::Failed(_) => StageKind::Failed,
        }
    }

    /// Takes the outcome of the current stage's action and moves to the next
    /// stage; a finished build stays as it is.
    pub fn advance(&mut self, outcome: StepOutcome)
        requires
            old(self).wf(),
            outcome matches StepOutcome::Contents(c) ==> c@.len() <= isize::MAX as int,
        ensures
            final(self).wf(),
            final(self).args == old(self).args,
            final(self).metadata == old(self).metadata,
            final(self).target == old(self).target,
            kind_of(final(self).stage) == next_kind(
                old(self).args.clean,
                kind_of(old(self).stage),
                outcome_ok(kind_of(old(self).stage), outcome),
            ),
            old(self).stage is Done || old(self).stage is Failed ==> final(self).stage
                == old(self).stage,
            final(self).stage matches BuildStage::Failed(e) ==> (old(self).stage is Failed
                || failure_of(kind_of(old(self).stage), outcome, e)),
            final(self).stage matches BuildStage::ReadArtifact(p) ==> (outcome matches StepOutcome::Listing(v)
                && exists|i: int|
                0 <= i < v@.len() && qualifies(v@[i]) && p@ == v@[i].path@ && forall|j: int|
                    0 <= j < i ==> !qualifies(#[trigger] v@[j])),
            final(self).stage matches BuildStage::WriteScript(b) ==> (outcome matches StepOutcome::Contents(c)
                && b@ == c@),
    {
        let k = self.kind();
        if k == StageKind::Done || k == StageKind::Failed {
            return;
        }
        let next = match outcome {
            StepOutcome::Succeeded => match k {
                StageKind::PublishManifest => if self.args.clean {
                    BuildStage::Clean
                } else {
                    BuildStage::Compile
                },
                StageKind::Clean => BuildStage::Compile,
                StageKind::Compile => BuildStage::Locate,
                StageKind::WriteScript => BuildStage::Done,
                _ => BuildStage::Failed(failure(k, None)),
            },
            StepOutcome::Failed(d) => BuildStage::Failed(failure(k, Some(d))),
            StepOutcome::Listing(v) => if k == StageKind::Locate {
                match locate(&v) {
                    Some(i) => BuildStage::ReadArtifact(v[i].path.clone()),
                    None => BuildStage::Failed(failure(k, None)),
                }
            } else {
                BuildStage::Failed(failure(k, None))
            },
            StepOutcome::Contents(c) => if k == StageKind::ReadArtifact {
                BuildStage::WriteScript(c)
            } else {
                BuildStage::Failed(failure(k, None))
            },
        };
        self.stage = next;
    }

    /// The result of a finished build.
    pub fn finish(self) -> (r: Result<(), BuildError>)
        requires
            self.stage is Done || self.stage is Failed,
        ensures
            self.stage is Done ==> r is Ok,
            self.stage matches BuildStage::Failed(e) ==> r == Err::<(), BuildError>(e),
    {
        match self.stage {
            BuildStage::Failed(e) => Err(e),
            _ => Ok(()),
        }
    }
}

/// The error that ends a build which failed at a stage of kind `k`, with the
/// description of the failure where there is one.
fn failure(k: StageKind, detail: Option<String>) -> (e: BuildError)
    requires
        k != StageKind::Done && k != StageKind::Failed,
    ensures
        k == StageKind::PublishManifest ==> e is GenezioManifestNotFound,
        k == StageKind::Clean || k == StageKind::Compile ==> e is CargoBuild,
        k == StageKind::Locate || k == StageKind::ReadArtifact || k == StageKind::WriteScript
            ==> (e matches BuildError::RenderBuildOutput(m) && match detail {
            Some(d) => m@ == d@,
            None => m@ == NO_EXECUTABLE@,
        }),
{
    match k {
        StageKind::PublishManifest => BuildError::GenezioManifestNotFound,
        StageKind::Clean | StageKind::Compile => BuildError::CargoBuild,
        _ => match detail {
            Some(d) => BuildError::RenderBuildOutput(d),
            None => BuildError::RenderBuildOutput(String::from_str(NO_EXECUTABLE)),
        },
    }
}

/// A build that cleans runs the clean strictly before the compile: the
/// compile is reached only from a clean that succeeded (from the published
/// manifest where the build does not clean), a failed clean ends the build,
/// and nothing after the compile leads back to it.
pub proof fn lemma_clean_precedes_compile(clean: bool, k: StageKind, ok: bool)
    ensures
        next_kind(clean, k, ok) == StageKind::Compile ==> ok && (k == StageKind::Clean || (!clean
            && k == StageKind::PublishManifest)),
        clean ==> next_kind(clean, StageKind::PublishManifest, true) == StageKind::Clean,
        next_kind(clean, StageKind::Clean, false) == StageKind::Failed,
        next_kind(clean, StageKind::Clean, true) == StageKind::Compile,
{
}

} // verus!
