use cargo_genezio::command::{
    deploy_invocation, deploy_result, Command, DeployArgs, DeployError, DoctorArgs, NewArgs, Task,
};
use cargo_genezio::metadata::{join_path, CargoMetadata};
use cargo_genezio::pipeline::{BuildArgs, BuildError};
use cargo_genezio::project::{normalize_name_to_path, project_dir_name, NewError};

#[test]
fn normalizes_project_names() {
    assert_eq!(normalize_name_to_path("My Cool_Project"), "my-cool-project");
    assert_eq!(normalize_name_to_path("  hello--world__ "), "hello-world");
    assert_eq!(normalize_name_to_path("a.b!c"), "abc");
    assert_eq!(normalize_name_to_path("!!!"), "");
    assert_eq!(normalize_name_to_path(""), "");
    assert_eq!(normalize_name_to_path("Été 2"), "été-2");
}

#[test]
fn project_names_that_are_refused() {
    assert!(matches!(project_dir_name("--"), Err(NewError(m)) if m == "project name can't be empty"));
    assert!(
        matches!(project_dir_name("1st app"), Err(NewError(m)) if m == "project name can't start with a number")
    );
    assert!(matches!(project_dir_name("app 1"), Ok(d) if d == "app-1"));
}

#[test]
fn paths_join_like_the_platform() {
    assert_eq!(join_path(&"/a/target".to_string(), "genezio/out"), "/a/target/genezio/out");
    assert_eq!(join_path(&"/a/target/".to_string(), "genezio/out"), "/a/target/genezio/out");
    assert_eq!(join_path(&"".to_string(), "genezio/out"), "genezio/out");
    let m = CargoMetadata { target_directory: "/w/target".to_string(), workspace_root: "/w".to_string() };
    assert_eq!(m.get_genezio_out_dir(), "/w/target/genezio/out");
    assert_eq!(m.manifest_source(), "/w/genezio.yaml");
    assert_eq!(m.manifest_target(), "/w/target/genezio/out/genezio.yaml");
    assert_eq!(m.profile_dir("t", true), "/w/target/t/release");
}

#[test]
fn commands_set_tasks_in_motion() {
    let new = Command::New(NewArgs { name: "Hello World".to_string() });
    assert!(matches!(new.run(), Task::New(Ok(d)) if d == "hello-world"));
    let build = Command::Build(BuildArgs { debug: true, clean: false });
    assert!(matches!(build.run(), Task::Build(BuildArgs { debug: true, clean: false })));
    let deploy = Command::Deploy(DeployArgs { debug: false, clean: true });
    assert!(matches!(deploy.run(), Task::Deploy(BuildArgs { debug: false, clean: true })));
    match Command::Doctor(DoctorArgs {}).run() {
        Task::Doctor(run) => assert_eq!(run.checks.len(), 6),
        _ => panic!("expected a diagnosis"),
    }
    let args = DeployArgs { debug: true, clean: true };
    let b: BuildArgs = (&args).into();
    assert!(b.debug && b.clean);
}

#[test]
fn deploy_runs_in_the_staging_directory() {
    let m = CargoMetadata { target_directory: "/w/target".to_string(), workspace_root: "/w".to_string() };
    let inv = deploy_invocation(&m);
    assert_eq!(inv.program, "genezio");
    assert_eq!(inv.args, vec!["deploy"]);
    assert_eq!(inv.current_dir, Some("/w/target/genezio/out".to_string()));
    assert!(deploy_result(true, true).is_ok());
    assert!(matches!(deploy_result(true, false), Err(DeployError::Genezio)));
    assert!(matches!(deploy_result(false, false), Err(DeployError::Genezio)));
}

#[test]
fn error_reports() {
    assert_eq!(BuildError::CargoBuild.message(), "BuildError: failed to build with cargo");
    assert_eq!(
        BuildError::Metadata("no cargo".to_string()).message(),
        "BuildError: failed to get cargo metadata: no cargo"
    );
    assert_eq!(
        DeployError::BuildError(BuildError::GenezioManifestNotFound).message(),
        "DeployError: failed to build: BuildError: genezio.yaml not found in workspace root"
    );
    assert_eq!(DeployError::Genezio.message(), "DeployError: failed to deploy to genezio");
    assert_eq!(NewError("x".to_string()).message(), "NewError: x");
}
