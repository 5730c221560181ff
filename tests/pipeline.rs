use cargo_genezio::codec::decode_payload;
use cargo_genezio::launcher::{LAUNCHER_HEAD, LAUNCHER_TAIL};
use cargo_genezio::locate::DirEntryInfo;
use cargo_genezio::metadata::CargoMetadata;
use cargo_genezio::pipeline::{BuildAction, BuildArgs, BuildError, BuildRun, StepOutcome};
use cargo_genezio::toolchain::CrossTarget;
use std::collections::BTreeMap;

fn metadata() -> CargoMetadata {
    CargoMetadata {
        target_directory: "/ws/target".to_string(),
        workspace_root: "/ws".to_string(),
    }
}

/// Drives a build against an in-memory file tree, recording each action.
fn drive(
    args: BuildArgs,
    files: &mut BTreeMap<String, Vec<u8>>,
    fail_runs: bool,
) -> (Vec<String>, Result<(), BuildError>) {
    let mut run = BuildRun::new(args, metadata(), CrossTarget::host());
    let mut log = Vec::new();
    loop {
        let outcome = match run.action() {
            BuildAction::PublishManifest { staging_dir, source, target } => {
                log.push(format!("publish {staging_dir}"));
                match files.get(&source).cloned() {
                    Some(b) => {
                        files.insert(target, b);
                        StepOutcome::Succeeded
                    }
                    None => StepOutcome::Failed("missing".to_string()),
                }
            }
            BuildAction::Run(inv) => {
                log.push(format!("run {} {}", inv.program, inv.args[0]));
                if fail_runs {
                    StepOutcome::Failed("exit 1".to_string())
                } else {
                    StepOutcome::Succeeded
                }
            }
            BuildAction::ListDir(dir) => {
                log.push(format!("list {dir}"));
                let prefix = format!("{dir}/");
                let entries = files
                    .keys()
                    .filter(|k| k.starts_with(&prefix))
                    .map(|k| DirEntryInfo {
                        path: k.clone(),
                        is_file: true,
                        is_executable: !k.ends_with(".d"),
                    })
                    .collect();
                StepOutcome::Listing(entries)
            }
            BuildAction::ReadFile(path) => {
                log.push(format!("read {path}"));
                StepOutcome::Contents(files[&path].clone())
            }
            BuildAction::WriteFile { path, contents } => {
                log.push(format!("write {path}"));
                files.insert(path, contents.into_bytes());
                StepOutcome::Succeeded
            }
            BuildAction::Finish => return (log, run.finish()),
        };
        run.advance(outcome);
    }
}

fn workspace(exe: &[u8]) -> BTreeMap<String, Vec<u8>> {
    let mut files = BTreeMap::new();
    files.insert(
        "/ws/genezio.yaml".to_string(),
        b"name: app\nregion: eu-west-3\nlanguage: rust\ncloudProvider: genezio".to_vec(),
    );
    files.insert("/ws/target/aarch64-unknown-linux-musl/release/app".to_string(), exe.to_vec());
    files.insert("/ws/target/aarch64-unknown-linux-musl/release/app.d".to_string(), b"deps".to_vec());
    files
}

#[test]
fn clean_runs_strictly_before_compile() {
    let mut files = workspace(&[1, 2, 3]);
    let (log, r) = drive(BuildArgs { debug: false, clean: true }, &mut files, false);
    assert!(r.is_ok());
    assert_eq!(log[0], "publish /ws/target/genezio/out");
    assert_eq!(log[1], "run cargo clean");
    assert_eq!(log[2], "run cargo build");
    let clean_at = log.iter().position(|l| l == "run cargo clean").unwrap();
    let build_at = log.iter().position(|l| l == "run cargo build").unwrap();
    assert!(clean_at < build_at);
}

#[test]
fn no_clean_goes_straight_to_compile() {
    let mut files = workspace(&[1, 2, 3]);
    let (log, r) = drive(BuildArgs { debug: false, clean: false }, &mut files, false);
    assert!(r.is_ok());
    assert_eq!(log[1], "run cargo build");
    assert!(!log.iter().any(|l| l == "run cargo clean"));
}

#[test]
fn failed_clean_is_fatal() {
    let mut files = workspace(&[1, 2, 3]);
    let (log, r) = drive(BuildArgs { debug: false, clean: true }, &mut files, true);
    assert!(matches!(r, Err(BuildError::CargoBuild)));
    assert_eq!(log.len(), 2);
    assert_eq!(log[1], "run cargo clean");
}

#[test]
fn missing_manifest_fails_first() {
    let mut files = workspace(&[1, 2, 3]);
    files.remove("/ws/genezio.yaml");
    let (log, r) = drive(BuildArgs { debug: false, clean: false }, &mut files, false);
    assert!(matches!(r, Err(BuildError::GenezioManifestNotFound)));
    assert_eq!(log.len(), 1);
}

#[test]
fn debug_profile_reads_the_debug_directory() {
    let mut files = workspace(&[1, 2, 3]);
    let (log, r) = drive(BuildArgs { debug: true, clean: false }, &mut files, false);
    assert_eq!(log[2], "list /ws/target/aarch64-unknown-linux-musl/debug");
    match r {
        Err(BuildError::RenderBuildOutput(m)) => {
            assert_eq!(m, "no executable found in the build output")
        }
        _ => panic!("expected a missing executable"),
    }
}

#[test]
fn end_to_end_build_stages_manifest_and_script() {
    let exe = vec![0x7F, 0x45, 0x4C, 0x46, 0x02, 0x01, 0x01, 0x00, 0xAB, 0xCD];
    let mut files = workspace(&exe);
    let (log, r) = drive(BuildArgs { debug: false, clean: false }, &mut files, false);
    assert!(r.is_ok());
    assert_eq!(log.last().unwrap(), "write /ws/target/genezio/out/index.js");
    assert_eq!(files["/ws/target/genezio/out/genezio.yaml"], files["/ws/genezio.yaml"]);
    let script = String::from_utf8(files["/ws/target/genezio/out/index.js"].clone()).unwrap();
    assert!(script.starts_with(LAUNCHER_HEAD) && script.ends_with(LAUNCHER_TAIL));
    let payload = &script[LAUNCHER_HEAD.len()..script.len() - LAUNCHER_TAIL.len()];
    assert_eq!(decode_payload(payload), Some(exe));
}

#[test]
fn finished_build_stays_finished() {
    let mut run = BuildRun::new(BuildArgs { debug: false, clean: false }, metadata(), CrossTarget::host());
    run.advance(StepOutcome::Failed("no space".to_string()));
    run.advance(StepOutcome::Succeeded);
    assert!(matches!(run.action(), BuildAction::Finish));
    assert!(matches!(run.finish(), Err(BuildError::GenezioManifestNotFound)));
}
