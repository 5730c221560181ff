//! The two workspace paths that the build tool reports, and the paths that
//! the build derives from them.

use vstd::prelude::*;
use vstd::string::{StrSliceExecFns, StringExecFns};

verus! {

/// Name of the deployment manifest, in the workspace root and in the staging
/// directory.
pub const MANIFEST_FILE: &'static str = "genezio.yaml";

/// The staging directory, relative to the build-output root.
pub const STAGING_DIR: &'static str = "genezio/out";

/// `rel` appended to `base` as a relative path: a separator goes between them
/// unless `base` is empty or already ends in one.
pub open spec fn join_spec(base: Seq<char>, rel: Seq<char>) -> Seq<char> {
    if base.len() == 0 || base.last() == '/' {
        base + rel
    } else {
        base + "/"@ + rel
    }
}

/// `rel` appended to `base` as a relative path.
pub fn join_path(base: &String, rel: &str) -> (r: String)
    ensures
        r@ == join_spec(base@, rel@),
{
    let n = base.as_str().unicode_len();
    let mut r = base.clone();
    if n != 0 && base.as_str().get_char(n - 1) != '/' {
        r.append("/");
    }
    r.append(rel);
    r
}

/// What the build tool reports of the workspace: its root and the root of
/// its build output.
#[derive(Debug, Clone)]
pub struct CargoMetadata {
    pub target_directory: String,
    pub workspace_root: String,
}

impl CargoMetadata {
    /// The staging directory, which receives the manifest and the script.
    pub fn get_genezio_out_dir(&self) -> (r: String)
        ensures
            r@ == join_spec(self.target_directory@, STAGING_DIR@),
    {
        join_path(&self.target_directory, STAGING_DIR)
    }

    /// The manifest in the workspace root.
    pub fn manifest_source(&self) -> (r: String)
        ensures
            r@ == join_spec(self.workspace_root@, MANIFEST_FILE@),
    {
        join_path(&self.workspace_root, MANIFEST_FILE)
    }

    /// Where the manifest is copied to.
    pub fn manifest_target(&self) -> (r: String)
        ensures
            r@ == join_spec(join_spec(self.target_directory@, STAGING_DIR@), MANIFEST_FILE@),
    {
        let dir = self.get_genezio_out_dir();
        join_path(&dir, MANIFEST_FILE)
    }

    /// Where the launcher script is written.
    pub fn script_target(&self, file: &str) -> (r: String)
        ensures
            r@ == join_spec(join_spec(self.target_directory@, STAGING_DIR@), file@),
    {
        let dir = self.get_genezio_out_dir();
        join_path(&dir, file)
    }

    /// The directory that the compiler writes the executables of a profile
    /// to, for the given target triple.
    pub fn profile_dir(&self, triple: &str, release: bool) -> (r: String)
        ensures
            r@ == join_spec(
                join_spec(self.target_directory@, triple@),
                if release { "release"@ } else { "debug"@ },
            ),
    {
        let t = join_path(&self.target_directory, triple);
        if release {
            join_path(&t, "release")
        } else {
            join_path(&t, "debug")
        }
    }
}

} // verus!
