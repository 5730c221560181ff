//! Diagnosis of the toolchain: an ordered list of checks, each a probe with
//! its own failure and remediation, run one after the other until the first
//! failure, since each check presupposes the ones before it.

use crate::text::{has_line, lists_line, same_text};
use crate::toolchain::{texts, Invocation, TARGET_LINKER, TARGET_TRIPLE};
use vstd::prelude::*;
use vstd::string::StringExecFns;

verus! {

/// Which component the diagnosis found missing.
#[derive(PartialEq, Eq, Structural, Clone, Copy, Debug)]
pub enum DoctorError {
    OS,
    Rustup,
    Cargo,
    RustupAarch64MuslTarget,
    GnuAarch64MuslToolchain,
    Genezio,
}

/// One check of the diagnosis.
#[derive(PartialEq, Eq, Structural, Clone, Copy, Debug)]
pub enum Check {
    /// The host is of the Unix family.
    HostOs,
    /// The toolchain manager runs.
    Rustup,
    /// The compiler driver runs.
    Cargo,
    /// The cross target is installed.
    CrossTarget,
    /// The cross linker runs.
    CrossLinker,
    /// The deploy tool runs.
    Genezio,
}

/// How a check finds out.
pub enum Probe {
    /// The name of the host's operating system is that of a Unix.
    HostOs,
    /// The invocation starts and exits with success.
    ExitStatus(Invocation),
    /// The invocation starts and one line of what it prints is the text.
    ListsLine(Invocation, String),
}

/// What running a probe gave: for the host check, `output` is the name of
/// the operating system; for the others, whether the program started, whether
/// it exited with success, and what it printed.
pub struct ProbeReport {
    pub started: bool,
    pub success: bool,
    pub output: String,
}

pub const HELP_RUSTUP: &'static str = "make sure you have rustup installed: https://rustup.rs/";

pub const HELP_CARGO: &'static str =
    "make sure you have rust and cargo installed (using rustup): https://rustup.rs/";

pub const HELP_RUSTUP_AARCH64_MUSL_TARGET: &'static str =
    "make sure you have the target available.\ninsall it with: `rustup target add aarch64-unknown-linux-musl`";

pub const HELP_GNU_AARCH64_MUSL_TOOLCHAIN: &'static str =
    "make sure you have the toolchain installed. more help here: https://github.com/laurci/genezio-rs";

pub const HELP_GENEZIO: &'static str = "make sure you have genezio installed: https://genez.io/";

/// The checks in the order they run.
pub open spec fn shipped_spec() -> Seq<Check> {
    seq![
        Check::HostOs,
        Check::Rustup,
        Check::Cargo,
        Check::CrossTarget,
        Check::CrossLinker,
        Check::Genezio,
    ]
}

/// The checks in the order they run.
pub fn shipped_checks() -> (r: Vec<Check>)
    ensures
        r@ == shipped_spec(),
{
    let r = vec![
        Check::HostOs,
        Check::Rustup,
        Check::Cargo,
        Check::CrossTarget,
        Check::CrossLinker,
        Check::Genezio,
    ];
    assert(r@ =~= shipped_spec());
    r
}

/// The failure that a check reports.
pub open spec fn failure_spec(c: Check) -> DoctorError {
    match c {
        Check::HostOs => DoctorError::OS,
        Check::Rustup => DoctorError::Rustup,
        Check::Cargo => DoctorError::Cargo,
        Check::CrossTarget => DoctorError::RustupAarch64MuslTarget,
        Check::CrossLinker => DoctorError::GnuAarch64MuslToolchain,
        Check::Genezio => DoctorError::Genezio,
    }
}

/// The program that a check runs, with its arguments; the host check runs
/// none.
pub open spec fn command_spec(c: Check) -> (Seq<char>, Seq<Seq<char>>) {
    match c {
        Check::HostOs => (seq![], seq![]),
        Check::Rustup => ("rustup"@, seq!["--version"@]),
        Check::Cargo => ("cargo"@, seq!["--version"@]),
        Check::CrossTarget => ("rustup"@, seq!["target"@, "list"@, "--installed"@]),
        Check::CrossLinker => (TARGET_LINKER@, seq!["--version"@]),
        Check::Genezio => ("genezio"@, seq!["--version"@]),
    }
}

/// Whether the report shows the check passed.
pub open spec fn passed_spec(c: Check, rep: ProbeReport) -> bool {
    match c {
        Check::HostOs => rep.output@ == "linux"@ || rep.output@ == "macos"@,
        Check::CrossTarget => rep.started && has_line(rep.output@, TARGET_TRIPLE@),
        _ => rep.started && rep.success,
    }
}

/// An invocation in the current directory.
fn command(program: &str, args: &[&str]) -> (r: Invocation)
    ensures
        r.program@ == program@,
        r.arg_texts() == args@.map_values(|a: &str| a@),
        r.current_dir is None,
{
    let mut v: Vec<String> = Vec::new();
    let mut i: usize = 0;
    while i < args.len()
        invariant
            i <= args@.len(),
            texts(v@) == args@.take(i as int).map_values(|a: &str| a@),
        decreases args@.len() - i,
    {
        let ghost before = v@;
        let s = String::from_str(args[i]);
        v.push(s);
        assert(texts(v@) =~= texts(before).push(args@[i as int]@));
        assert(args@.take(i + 1).map_values(|a: &str| a@) =~= args@.take(i as int).map_values(
            |a: &str| a@,
        ).push(args@[i as int]@));
        i = i + 1;
    }
    assert(args@.take(args@.len() as int) =~= args@);
    Invocation { program: String::from_str(program), args: v, current_dir: None }
}

/// The name under which a check reports success.
pub open spec fn name_spec(c: Check) -> Seq<char> {
    match c {
        Check::HostOs => "os"@,
        Check::Rustup => "rustup"@,
        Check::Cargo => "cargo"@,
        Check::CrossTarget => "target aarch64-unknown-linux-musl"@,
        Check::CrossLinker => "toolchain aarch64-linux-musl-gnu"@,
        Check::Genezio => "genezio"@,
    }
}

impl Check {
    /// The name under which the check reports success.
    pub fn name(&self) -> (r: &'static str)
        ensures
            r@ == name_spec(*self),
    {
        match self {
            Check::HostOs => "os",
            Check::Rustup => "rustup",
            Check::Cargo => "cargo",
            Check::CrossTarget => "target aarch64-unknown-linux-musl",
            Check::CrossLinker => "toolchain aarch64-linux-musl-gnu",
            Check::Genezio => "genezio",
        }
    }

    /// The failure that the check reports.
    pub fn failure(&self) -> (r: DoctorError)
        ensures
            r == failure_spec(*self),
    {
        match self {
            Check::HostOs => DoctorError::OS,
            Check::Rustup => DoctorError::Rustup,
            Check::Cargo => DoctorError::Cargo,
            Check::CrossTarget => DoctorError::RustupAarch64MuslTarget,
            Check::CrossLinker => DoctorError::GnuAarch64MuslToolchain,
            Check::Genezio => DoctorError::Genezio,
        }
    }

    /// The probe of the check.
    pub fn probe(&self) -> (r: Probe)
        ensures
            match *self {
                Check::HostOs => r is HostOs,
                Check::CrossTarget => match r {
                    Probe::ListsLine(inv, line) => inv.program@ == command_spec(*self).0
                        && inv.arg_texts() == command_spec(*self).1 && inv.current_dir is None
                        && line@ == TARGET_TRIPLE@,
                    _ => false,
                },
                _ => match r {
                    Probe::ExitStatus(inv) => inv.program@ == command_spec(*self).0
                        && inv.arg_texts() == command_spec(*self).1 && inv.current_dir is None,
                    _ => false,
                },
            },
    {
        let r = match self {
            Check::HostOs => Probe::HostOs,
            Check::Rustup => Probe::ExitStatus(command("rustup", &["--version"])),
            Check::Cargo => Probe::ExitStatus(command("cargo", &["--version"])),
            Check::CrossTarget => Probe::ListsLine(
                command("rustup", &["target", "list", "--installed"]),
                String::from_str(TARGET_TRIPLE),
            ),
            Check::CrossLinker => Probe::ExitStatus(command(TARGET_LINKER, &["--version"])),
            Check::Genezio => Probe::ExitStatus(command("genezio", &["--version"])),
        };
        r
    }

    /// Whether the report of the check's probe shows that it passed.
    pub fn passed(&self, report: &ProbeReport) -> (r: bool)
        ensures
            r == passed_spec(*self, *report),
    {
        match self {
            Check::HostOs => check_unix_based_os(report.output.as_str()).is_ok(),
            Check::CrossTarget => report.started && lists_line(
                report.output.as_str(),
                TARGET_TRIPLE,
            ),
            _ => report.started && report.success,
        }
    }
}

/// Whether the operating system with the given name is of the Unix family.
pub fn check_unix_based_os(os: &str) -> (r: Result<(), DoctorError>)
    ensures
        r is Ok <==> (os@ == "linux"@ || os@ == "macos"@),
        r is Err ==> r == Err::<(), DoctorError>(DoctorError::OS),
{
    if same_text(os, "linux") || same_text(os, "macos") {
        Ok(())
    } else {
        Err(DoctorError::OS)
    }
}

/// The one-line report of a failure, with its remediation.
pub open spec fn message_spec(e: DoctorError) -> Seq<char> {
    "DoctorError: "@ + match e {
        DoctorError::OS => "Only Linux and MacOS are supported"@,
        DoctorError::Rustup => "rustup not found.\nHELP: "@ + HELP_RUSTUP@,
        DoctorError::Cargo => "cargo not found.\nHELP: "@ + HELP_CARGO@,
        DoctorError::RustupAarch64MuslTarget => "aarch64-unknown-linux-musl target not found.\nHELP: "@
            + HELP_RUSTUP_AARCH64_MUSL_TARGET@,
        DoctorError::GnuAarch64MuslToolchain => "aarch64-linux-musl-gnu toolchain not found.\nHELP: "@
            + HELP_GNU_AARCH64_MUSL_TOOLCHAIN@,
        DoctorError::Genezio => "genezio not found.\nHELP: "@ + HELP_GENEZIO@,
    }
}

impl DoctorError {
    /// The report of the failure, with its remediation.
    pub fn message(&self) -> (r: String)
        ensures
            r@ == message_spec(*self),
    {
        let mut r = String::from_str("DoctorError: ");
        match self {
            DoctorError::OS => r.append("Only Linux and MacOS are supported"),
            DoctorError::Rustup => {
                r.append("rustup not found.\nHELP: ");
                r.append(HELP_RUSTUP);
            },
            DoctorError::Cargo => {
                r.append("cargo not found.\nHELP: ");
                r.append(HELP_CARGO);
            },
            DoctorError::RustupAarch64MuslTarget => {
                r.append("aarch64-unknown-linux-musl target not found.\nHELP: ");
                r.append(HELP_RUSTUP_AARCH64_MUSL_TARGET);
            },
            DoctorError::GnuAarch64MuslToolchain => {
                r.append("aarch64-linux-musl-gnu toolchain not found.\nHELP: ");
                r.append(HELP_GNU_AARCH64_MUSL_TOOLCHAIN);
            },
            DoctorError::Genezio => {
                r.append("genezio not found.\nHELP: ");
                r.append(HELP_GENEZIO);
            },
        }
        r
    }
}

/// A diagnosis in progress: the checks, how many of them passed so far, and
/// the failure that ended it, if one did.
pub struct DoctorRun {
    pub checks: Vec<Check>,
    pub passed: usize,
    pub failed: Option<DoctorError>,
}

impl DoctorRun {
    pub open spec fn wf(&self) -> bool {
        &&& self.passed <= self.checks@.len()
        &&& self.failed matches Some(e) ==> self.passed < self.checks@.len() && e == failure_spec(
            self.checks@[self.passed as int],
        )
    }

    /// The check whose probe runs next, if any.
    pub open spec fn pending_spec(&self) -> Option<Check> {
        if self.failed is None && self.passed < self.checks@.len() {
            Some(self.checks@[self.passed as int])
        } else {
            None
        }
    }

    /// The checks whose probes have run, in order.
    pub open spec fn probed(&self) -> Seq<Check> {
        if self.failed is Some {
            self.checks@.take(self.passed + 1)
        } else {
            self.checks@.take(self.passed as int)
        }
    }

    /// The result of the diagnosis, once there is one.
    pub open spec fn verdict_spec(&self) -> Option<Result<(), DoctorError>> {
        match self.failed {
            Some(e) => Some(Err(e)),
            None => if self.passed == self.checks@.len() {
                Some(Ok(()))
            } else {
                None
            },
        }
    }

    /// A diagnosis that has run no probe yet.
    pub fn new(checks: Vec<Check>) -> (r: DoctorRun)
        ensures
            r.wf(),
            r.checks@ == checks@,
            r.passed == 0,
            r.failed is None,
            r.probed() == Seq::<Check>::empty(),
    {
        let r = DoctorRun { checks, passed: 0, failed: None };
        assert(r.probed() =~= Seq::<Check>::empty());
        r
    }

    /// The check whose probe runs next, if any.
    pub fn pending(&self) -> (r: Option<Check>)
        ensures
            r == self.pending_spec(),
    {
        if self.failed.is_none() && self.passed < self.checks.len() {
            Some(self.checks[self.passed])
        } else {
            None
        }
    }

    /// Takes whether the pending check passed.
    pub fn record(&mut self, passed: bool)
        requires
            old(self).wf(),
            old(self).pending_spec() is Some,
        ensures
            final(self).wf(),
            final(self).checks == old(self).checks,
            final(self).probed() == old(self).probed().push(old(self).checks@[old(self).passed as int]),
            passed ==> final(self).failed is None && final(self).passed == old(self).passed + 1,
            !passed ==> final(self).failed == Some(failure_spec(old(self).checks@[old(self).passed as int]))
                && final(self).passed == old(self).passed,
    {
        let ghost before = self.probed();
        let n = self.checks.len();
        assert(self.passed < n);
        if passed {
            self.passed = self.passed + 1;
        } else {
            self.failed = Some(self.checks[self.passed].failure());
        }
        assert(self.probed() =~= before.push(old(self).checks@[old(self).passed as int]));
    }

    /// The result of the diagnosis, once there is one.
    pub fn verdict(&self) -> (r: Option<Result<(), DoctorError>>)
        ensures
            r == self.verdict_spec(),
    {
        match self.failed {
            Some(e) => Some(Err(e)),
            None => if self.passed == self.checks.len() {
                Some(Ok(()))
            } else {
                None
            },
        }
    }
}

/// Once a check has failed, the diagnosis reports that check's failure and
/// runs no further probe: the probes that ran are those of the checks up to
/// and including the failed one, and every one before it passed.
pub proof fn lemma_fail_fast(run: DoctorRun)
    requires
        run.wf(),
        run.failed is Some,
    ensures
        run.pending_spec() is None,
        run.probed() == run.checks@.take(run.passed + 1),
        run.verdict_spec() == Some(
            Err::<(), DoctorError>(failure_spec(run.checks@[run.passed as int])),
        ),
{
}

/// A diagnosis where every check passed reports success after probing each
/// check once, in order.
pub proof fn lemma_all_passed(run: DoctorRun)
    requires
        run.wf(),
        run.failed is None,
        run.passed == run.checks@.len(),
    ensures
        run.pending_spec() is None,
        run.probed() == run.checks@,
        run.verdict_spec() == Some(Ok::<(), DoctorError>(())),
{
    assert(run.checks@.take(run.passed as int) =~= run.checks@);
}

} // verus!
