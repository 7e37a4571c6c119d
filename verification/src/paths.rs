//! Cache path resolution.
//!
//! The cache root is found by walking upward from the directory that
//! holds the running executable until a directory named `target` is
//! found; cached assets live under a `dicom_test_files` directory
//! inside it, at the asset's own slash-separated name.

use vstd::prelude::*;
use vstd::string::StringExecFns;

verus! {

/// The longest prefix of `cs` that ends in a component reading
/// `target`, if any: the build output directory among the ancestors.
pub open spec fn spec_target_prefix(cs: Seq<String>) -> Option<Seq<String>>
    decreases cs.len(),
{
    if cs.len() == 0 {
        None
    } else if cs.last()@ == "target"@ {
        Some(cs)
    } else {
        spec_target_prefix(cs.drop_last())
    }
}

/// The components of the cache data directory, given the components of
/// the directory holding the running executable: the nearest ancestor
/// named `target`, with a final `dicom_test_files` component appended.
/// `None` when no ancestor is named `target`.
pub fn data_root(exe_dir: Vec<String>) -> (r: Option<Vec<String>>)
    ensures
        (r matches Some(v) ==> {
            &&& spec_target_prefix(exe_dir@) matches Some(p)
            &&& v@.len() == p.len() + 1
            &&& v@.subrange(0, p.len() as int) == p
            &&& v@.last()@ == "dicom_test_files"@
        }),
        r is None ==> spec_target_prefix(exe_dir@) is None,
{
    let mut v = exe_dir;
    loop
        invariant
            spec_target_prefix(exe_dir@) == spec_target_prefix(v@),
        decreases v@.len(),
    {
        if v.len() == 0 {
            return None;
        }
        if v[v.len() - 1].eq(&String::from_str("target")) {
            let ghost p = v@;
            let mut out = v;
            out.push(String::from_str("dicom_test_files"));
            proof {
                assert(out@.subrange(0, p.len() as int) =~= p);
            }
            return Some(out);
        }
        v.pop();
    }
}

/// The canonical cache location of a named asset: the cache root and
/// the name, joined with `/`. The name's own internal separators are
/// preserved, so a path-shaped name maps to subdirectories.
pub open spec fn spec_cached_path(root: Seq<char>, name: Seq<char>) -> Seq<char> {
    root + "/"@ + name
}

/// Join the cache root and an asset name into the asset's cache path.
pub fn cached_path(cache_root: &str, name: &str) -> (r: String)
    ensures
        r@ == spec_cached_path(cache_root@, name@),
{
    cache_root.to_owned().concat("/").concat(name)
}

} // verus!
