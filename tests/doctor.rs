use cargo_genezio::doctor::{
    check_unix_based_os, shipped_checks, Check, DoctorError, DoctorRun, Probe, ProbeReport,
};
use cargo_genezio::text::lists_line;

#[test]
fn failure_stops_later_probes() {
    let mut run = DoctorRun::new(vec![Check::Rustup, Check::Cargo, Check::Genezio]);
    let mut probed = Vec::new();
    let results = [true, false, true];
    while let Some(check) = run.pending() {
        probed.push(check);
        run.record(results[probed.len() - 1]);
    }
    assert_eq!(probed, vec![Check::Rustup, Check::Cargo]);
    assert_eq!(run.verdict(), Some(Err(DoctorError::Cargo)));
}

#[test]
fn all_passing_checks_succeed() {
    let mut run = DoctorRun::new(shipped_checks());
    let mut n = 0;
    while run.pending().is_some() {
        run.record(true);
        n += 1;
    }
    assert_eq!(n, 6);
    assert_eq!(run.verdict(), Some(Ok(())));
}

#[test]
fn shipped_order() {
    assert_eq!(
        shipped_checks(),
        vec![
            Check::HostOs,
            Check::Rustup,
            Check::Cargo,
            Check::CrossTarget,
            Check::CrossLinker,
            Check::Genezio
        ]
    );
}

#[test]
fn host_os_family() {
    assert_eq!(check_unix_based_os("linux"), Ok(()));
    assert_eq!(check_unix_based_os("macos"), Ok(()));
    assert_eq!(check_unix_based_os("windows"), Err(DoctorError::OS));
    assert_eq!(check_unix_based_os("Linux"), Err(DoctorError::OS));
    assert_eq!(check_unix_based_os(""), Err(DoctorError::OS));
}

#[test]
fn target_listing_needs_an_exact_line() {
    let out = "x86_64-unknown-linux-gnu\naarch64-unknown-linux-musl\n";
    assert!(lists_line(out, "aarch64-unknown-linux-musl"));
    assert!(!lists_line("aarch64-unknown-linux-musl-extra\n", "aarch64-unknown-linux-musl"));
    assert!(!lists_line("", "aarch64-unknown-linux-musl"));
    assert!(lists_line("aarch64-unknown-linux-musl", "aarch64-unknown-linux-musl"));
    let report = |started: bool, success: bool, output: &str| ProbeReport {
        started,
        success,
        output: output.to_string(),
    };
    assert!(Check::CrossTarget.passed(&report(true, false, out)));
    assert!(!Check::CrossTarget.passed(&report(false, true, out)));
    assert!(!Check::Rustup.passed(&report(true, false, "")));
    assert!(Check::Rustup.passed(&report(true, true, "")));
    assert!(Check::HostOs.passed(&report(false, false, "linux")));
}

#[test]
fn probes_and_failures() {
    match Check::CrossTarget.probe() {
        Probe::ListsLine(inv, line) => {
            assert_eq!(inv.program, "rustup");
            assert_eq!(inv.args, vec!["target", "list", "--installed"]);
            assert_eq!(line, "aarch64-unknown-linux-musl");
        }
        _ => panic!("expected a listing probe"),
    }
    match Check::CrossLinker.probe() {
        Probe::ExitStatus(inv) => {
            assert_eq!(inv.program, "aarch64-linux-gnu-gcc");
            assert_eq!(inv.args, vec!["--version"]);
        }
        _ => panic!("expected an exit-status probe"),
    }
    assert!(matches!(Check::HostOs.probe(), Probe::HostOs));
    assert_eq!(Check::Genezio.failure(), DoctorError::Genezio);
    assert_eq!(Check::CrossTarget.failure(), DoctorError::RustupAarch64MuslTarget);
}

#[test]
fn failure_messages_carry_remediation() {
    assert_eq!(DoctorError::OS.message(), "DoctorError: Only Linux and MacOS are supported");
    assert_eq!(
        DoctorError::Rustup.message(),
        "DoctorError: rustup not found.\nHELP: make sure you have rustup installed: https://rustup.rs/"
    );
    assert_eq!(
        DoctorError::Genezio.message(),
        "DoctorError: genezio not found.\nHELP: make sure you have genezio installed: https://genez.io/"
    );
    assert!(DoctorError::RustupAarch64MuslTarget
        .message()
        .ends_with("`rustup target add aarch64-unknown-linux-musl`"));
}

#[test]
fn check_names() {
    assert_eq!(Check::Rustup.name(), "rustup");
    assert_eq!(Check::CrossTarget.name(), "target aarch64-unknown-linux-musl");
    assert_eq!(Check::CrossLinker.name(), "toolchain aarch64-linux-musl-gnu");
}
