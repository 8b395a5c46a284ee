//! Naming of generated patch artifacts.
//!
//! The patch-generation command turns chosen commits into patch artifact
//! files under the configuration directory.  Reading each commit's diff and
//! writing the file are operations of the version-control tool and the file
//! system, outside the library; what is decided here, and verified, is the
//! artifact's file name: a custom name when the user supplied one, else the
//! commit's message subject, else the commit hash itself, always under the
//! patch artifact extension.

use vstd::prelude::*;
use vstd::string::StringExecFns;

verus! {

/// Chooses the file name of one generated patch artifact.  The custom name
/// wins over the commit message subject, which wins over the bare hash; the
/// `.patch` extension is always appended.
pub fn patch_file_name(custom: Option<String>, subject: Option<String>, hash: &String) -> (r:
    String)
    ensures
        custom matches Some(c) ==> r@ == c@ + ".patch"@,
        custom is None ==> (subject matches Some(m) ==> r@ == m@ + ".patch"@),
        custom is None && subject is None ==> r@ == hash@ + ".patch"@,
{
    let stem = match custom {
        Some(c) => c,
        None => match subject {
            Some(m) => m,
            None => hash.clone(),
        },
    };
    stem.concat(".patch")
}

} // verus!
