//! The commands of the tool and what each of them sets in motion, the
//! deploy step's command line and verdict, and the one-line reports of the
//! errors.

use crate::doctor::{shipped_checks, shipped_spec, DoctorRun};
use crate::metadata::{join_spec, CargoMetadata, STAGING_DIR};
use crate::pipeline::{BuildArgs, BuildError};
use crate::project::{path_name, project_dir_name, NewError, EMPTY_NAME, NUMERIC_START};
use crate::project::is_numeric_char;
use crate::toolchain::Invocation;
use vstd::prelude::*;
use vstd::string::StringExecFns;

verus! {

/// Arguments of `new`: the project's name.
pub struct NewArgs {
    pub name: String,
}

/// Arguments of `deploy`: the profile of the build that precedes it.
#[derive(Debug, Clone, Copy)]
pub struct DeployArgs {
    pub debug: bool,
    pub clean: bool,
}

/// Arguments of `doctor`: none.
pub struct DoctorArgs {}

/// Arguments of `read`.
#[derive(Debug)]
pub struct ReadArgs {
    pub example_opt: bool,
    pub path: String,
}

/// Arguments of `write`.
#[derive(Debug)]
pub struct WriteArgs {
    pub path: String,
}

/// A command of the tool.
pub enum Command {
    /// Create a new project.
    New(NewArgs),
    /// Build the project.
    Build(BuildArgs),
    /// Build, then deploy the project.
    Deploy(DeployArgs),
    /// Verify the toolchain.
    Doctor(DoctorArgs),
}

/// The tool's command line.
pub struct App {
    pub command: Command,
}

/// What a command sets in motion.
pub enum Task {
    /// Create the project in the directory of this name, or fail.
    New(Result<String, NewError>),
    /// Build with this profile.
    Build(BuildArgs),
    /// Build with this profile, then deploy.
    Deploy(BuildArgs),
    /// Run this diagnosis.
    Doctor(DoctorRun),
}

impl From<&DeployArgs> for BuildArgs {
    fn from(args: &DeployArgs) -> (r: BuildArgs) {
        BuildArgs { debug: args.debug, clean: args.clean }
    }
}

impl vstd::std_specs::convert::FromSpecImpl<&DeployArgs> for BuildArgs {
    open spec fn obeys_from_spec() -> bool {
        true
    }

    open spec fn from_spec(args: &DeployArgs) -> BuildArgs {
        BuildArgs { debug: args.debug, clean: args.clean }
    }
}

impl Command {
    /// What the command sets in motion: a new project's directory name, a
    /// build, a build followed by a deploy, or the shipped diagnosis.
    pub fn run(&self) -> (r: Task)
        ensures
            match (*self, r) {
                (Command::New(a), Task::New(res)) => {
                    &&& path_name(a.name@).len() == 0 ==> (res matches Err(e) && e.0@
                        == EMPTY_NAME@)
                    &&& path_name(a.name@).len() > 0 && is_numeric_char(path_name(a.name@)[0])
                        ==> (res matches Err(e) && e.0@ == NUMERIC_START@)
                    &&& path_name(a.name@).len() > 0 && !is_numeric_char(path_name(a.name@)[0])
                        ==> (res matches Ok(d) && d@ == path_name(a.name@))
                },
                (Command::Build(a), Task::Build(b)) => b == a,
                (Command::Deploy(a), Task::Deploy(b)) => b.debug == a.debug && b.clean
                    == a.clean,
                (Command::Doctor(_), Task::Doctor(d)) => d.wf() && d.checks@ == shipped_spec()
                    && d.passed == 0 && d.failed is None,
                _ => false,
            },
    {
        match self {
            Command::New(a) => Task::New(project_dir_name(a.name.as_str())),
            Command::Build(a) => Task::Build(BuildArgs { debug: a.debug, clean: a.clean }),
            Command::Deploy(a) => Task::Deploy(BuildArgs::from(a)),
            Command::Doctor(_) => Task::Doctor(DoctorRun::new(shipped_checks())),
        }
    }
}

/// Why a deploy failed.
#[derive(Debug)]
pub enum DeployError {
    Metadata(String),
    BuildError(BuildError),
    Genezio,
}

/// The deploy tool's command line, run in the staging directory.
pub fn deploy_invocation(metadata: &CargoMetadata) -> (r: Invocation)
    ensures
        r.program@ == "genezio"@,
        r.arg_texts() == seq!["deploy"@],
        r.current_dir matches Some(d) && d@ == join_spec(metadata.target_directory@, STAGING_DIR@),
{
    let mut args: Vec<String> = Vec::new();
    args.push(String::from_str("deploy"));
    let r = Invocation {
        program: String::from_str("genezio"),
        args,
        current_dir: Some(metadata.get_genezio_out_dir()),
    };
    assert(r.arg_texts() =~= seq!["deploy"@]);
    r
}

/// The verdict on the deploy tool's run: it must have started and exited
/// with success.
pub fn deploy_result(started: bool, success: bool) -> (r: Result<(), DeployError>)
    ensures
        r is Ok <==> started && success,
        r is Err ==> r matches Err(DeployError::Genezio),
{
    if started && success {
        Ok(())
    } else {
        Err(DeployError::Genezio)
    }
}

/// The one-line report of a build error.
pub open spec fn build_message_spec(e: BuildError) -> Seq<char> {
    "BuildError: "@ + match e {
        BuildError::Metadata(t) => "failed to get cargo metadata: "@ + t@,
        BuildError::GenezioManifestNotFound => "genezio.yaml not found in workspace root"@,
        BuildError::CargoBuild => "failed to build with cargo"@,
        BuildError::RenderBuildOutput(t) => "failed to render build output: "@ + t@,
    }
}

/// The one-line report of a deploy error.
pub open spec fn deploy_message_spec(e: DeployError) -> Seq<char> {
    "DeployError: "@ + match e {
        DeployError::Metadata(t) => "failed to get cargo metadata: "@ + t@,
        DeployError::BuildError(b) => "failed to build: "@ + build_message_spec(b),
        DeployError::Genezio => "failed to deploy to genezio"@,
    }
}

impl BuildError {
    /// The one-line report of the error.
    pub fn message(&self) -> (r: String)
        ensures
            r@ == build_message_spec(*self),
    {
        let mut r = String::from_str("BuildError: ");
        match self {
            BuildError::Metadata(t) => {
                r.append("failed to get cargo metadata: ");
                r.append(t.as_str());
            },
            BuildError::GenezioManifestNotFound => r.append(
                "genezio.yaml not found in workspace root",
            ),
            BuildError::CargoBuild => r.append("failed to build with cargo"),
            BuildError::RenderBuildOutput(t) => {
                r.append("failed to render build output: ");
                r.append(t.as_str());
            },
        }
        r
    }
}

impl DeployError {
    /// The one-line report of the error.
    pub fn message(&self) -> (r: String)
        ensures
            r@ == deploy_message_spec(*self),
    {
        let mut r = String::from_str("DeployError: ");
        match self {
            DeployError::Metadata(t) => {
                r.append("failed to get cargo metadata: ");
                r.append(t.as_str());
            },
            DeployError::BuildError(b) => {
                r.append("failed to build: ");
                let m = b.message();
                r.append(m.as_str());
            },
            DeployError::Genezio => r.append("failed to deploy to genezio"),
        }
        r
    }
}

impl NewError {
    /// The one-line report of the error.
    pub fn message(&self) -> (r: String)
        ensures
            r@ == "NewError: "@ + self.0@,
    {
        let mut r = String::from_str("NewError: ");
        r.append(self.0.as_str());
        r
    }
}

} // verus!
