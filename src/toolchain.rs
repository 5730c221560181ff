//! The cross-compilation parameters and the command lines that the build
//! runs: a destructive clean, and a compile for a fixed target with an
//! external linker and a fixed flag set.

use vstd::prelude::*;
use vstd::string::StringExecFns;

verus! {

/// A program to run, its arguments, and the directory to run it in (the
/// current one where `None`).
#[derive(Debug, Clone)]
pub struct Invocation {
    pub program: String,
    pub args: Vec<String>,
    pub current_dir: Option<String>,
}

/// The texts of a sequence of strings.
pub open spec fn texts(v: Seq<String>) -> Seq<Seq<char>> {
    v.map_values(|s: String| s@)
}

impl Invocation {
    /// The arguments, as texts.
    pub open spec fn arg_texts(&self) -> Seq<Seq<char>> {
        texts(self.args@)
    }
}

/// The target of the cross build: its triple, the linker that links for it,
/// and the compiler flags that the build passes for it.
#[derive(Debug, Clone)]
pub struct CrossTarget {
    pub triple: String,
    pub linker: String,
    pub rustflags: Vec<String>,
}

/// The target triple that the host runs.
pub const TARGET_TRIPLE: &'static str = "aarch64-unknown-linux-musl";

/// The external linker for that triple.
pub const TARGET_LINKER: &'static str = "aarch64-linux-gnu-gcc";

/// The conditional-compilation flag that selects the single-invocation code
/// path in the built program.
pub const LAMBDA_CFG: &'static str = "genezio_with_lambda";

/// The flags: static C runtime, the compiler support library, and the
/// conditional-compilation flag.
pub open spec fn host_rustflags() -> Seq<Seq<char>> {
    seq![
        "-C"@,
        "target-feature=+crt-static"@,
        "-C"@,
        "link-arg=-lgcc"@,
        "--cfg"@,
        LAMBDA_CFG@,
    ]
}

/// The items, each in double quotes, separated by `, `.
pub open spec fn quoted_list(items: Seq<Seq<char>>) -> Seq<char>
    decreases items.len(),
{
    if items.len() == 0 {
        seq![]
    } else if items.len() == 1 {
        "\""@ + items[0] + "\""@
    } else {
        quoted_list(items.drop_last()) + ", \""@ + items.last() + "\""@
    }
}

/// The items as an array of strings in the build tool's configuration syntax.
pub open spec fn config_array(items: Seq<Seq<char>>) -> Seq<char> {
    "[ "@ + quoted_list(items) + " ]"@
}

/// The configuration setting that names the linker.
pub open spec fn linker_setting(triple: Seq<char>, linker: Seq<char>) -> Seq<char> {
    "target."@ + triple + ".linker='"@ + linker + "'"@
}

/// The configuration setting that passes the flags.
pub open spec fn rustflags_setting(triple: Seq<char>, flags: Seq<Seq<char>>) -> Seq<char> {
    "target."@ + triple + ".rustflags="@ + config_array(flags)
}

/// The arguments of the compile: the same in both profiles but for the
/// trailing optimization flag of a release build.
pub open spec fn compile_args(
    triple: Seq<char>,
    linker: Seq<char>,
    flags: Seq<Seq<char>>,
    release: bool,
) -> Seq<Seq<char>> {
    let common = seq![
        "build"@,
        "--target"@,
        triple,
        "--config"@,
        linker_setting(triple, linker),
        "--config"@,
        rustflags_setting(triple, flags),
    ];
    if release {
        common.push("--release"@)
    } else {
        common
    }
}

impl CrossTarget {
    /// The target that the host runs.
    pub fn host() -> (r: CrossTarget)
        ensures
            r.triple@ == TARGET_TRIPLE@,
            r.linker@ == TARGET_LINKER@,
            texts(r.rustflags@) == host_rustflags(),
    {
        let mut flags: Vec<String> = Vec::new();
        flags.push(String::from_str("-C"));
        flags.push(String::from_str("target-feature=+crt-static"));
        flags.push(String::from_str("-C"));
        flags.push(String::from_str("link-arg=-lgcc"));
        flags.push(String::from_str("--cfg"));
        flags.push(String::from_str(LAMBDA_CFG));
        assert(texts(flags@) =~= host_rustflags());
        CrossTarget {
            triple: String::from_str(TARGET_TRIPLE),
            linker: String::from_str(TARGET_LINKER),
            rustflags: flags,
        }
    }

    /// The flags in the configuration syntax.
    pub fn rustflags_array(&self) -> (r: String)
        ensures
            r@ == config_array(texts(self.rustflags@)),
    {
        let ghost items = texts(self.rustflags@);
        let mut list = String::new();
        let mut i: usize = 0;
        while i < self.rustflags.len()
            invariant
                i <= self.rustflags@.len(),
                items == texts(self.rustflags@),
                list@ == quoted_list(items.take(i as int)),
            decreases self.rustflags@.len() - i,
        {
            proof {
                assert(items.take(i + 1).drop_last() =~= items.take(i as int));
                assert(items.take(i + 1).last() == self.rustflags@[i as int]@);
            }
            if i == 0 {
                list.append("\"");
                assert(items.take(1) =~= seq![items[0]]);
            } else {
                list.append(", \"");
            }
            list.append(self.rustflags[i].as_str());
            list.append("\"");
            i = i + 1;
        }
        assert(items.take(self.rustflags@.len() as int) =~= items);
        let mut r = String::from_str("[ ");
        r.append(list.as_str());
        r.append(" ]");
        r
    }

    /// The command line of the compile, for a release or a debug build.
    pub fn compile_invocation(&self, release: bool) -> (r: Invocation)
        ensures
            r.program@ == "cargo"@,
            r.arg_texts() == compile_args(
                self.triple@,
                self.linker@,
                texts(self.rustflags@),
                release,
            ),
            r.current_dir is None,
    {
        let mut linker = String::from_str("target.");
        linker.append(self.triple.as_str());
        linker.append(".linker='");
        linker.append(self.linker.as_str());
        linker.append("'");
        let flags = self.rustflags_array();
        let mut setting = String::from_str("target.");
        setting.append(self.triple.as_str());
        setting.append(".rustflags=");
        setting.append(flags.as_str());
        let mut args: Vec<String> = Vec::new();
        args.push(String::from_str("build"));
        args.push(String::from_str("--target"));
        args.push(self.triple.clone());
        args.push(String::from_str("--config"));
        args.push(linker);
        args.push(String::from_str("--config"));
        args.push(setting);
        if release {
            args.push(String::from_str("--release"));
        }
        let r = Invocation { program: String::from_str("cargo"), args, current_dir: None };
        assert(r.arg_texts() =~= compile_args(
            self.triple@,
            self.linker@,
            texts(self.rustflags@),
            release,
        ));
        r
    }
}

/// The command line of the clean, which removes the whole build output.
pub fn clean_invocation() -> (r: Invocation)
    ensures
        r.program@ == "cargo"@,
        r.arg_texts() == seq!["clean"@],
        r.current_dir is None,
{
    let mut args: Vec<String> = Vec::new();
    args.push(String::from_str("clean"));
    let r = Invocation { program: String::from_str("cargo"), args, current_dir: None };
    assert(r.arg_texts() =~= seq!["clean"@]);
    r
}

/// A release compile and a debug compile for the same target differ in the
/// trailing optimization flag alone.
pub proof fn lemma_profiles_differ_by_optimization(
    triple: Seq<char>,
    linker: Seq<char>,
    flags: Seq<Seq<char>>,
)
    ensures
        compile_args(triple, linker, flags, true) == compile_args(
            triple,
            linker,
            flags,
            false,
        ).push("--release"@),
{
}

} // verus!
