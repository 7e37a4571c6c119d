//! Resolution of the remote base URL.
//!
//! The environment itself is read by the caller; this module only
//! decides, from the values read, which base URL to use. Each value is
//! handed in as the result of reading one environment variable: the
//! override URL, the continuous-integration marker, the repository
//! name, the event name and the head branch of a pull request.

use vstd::prelude::*;
use vstd::string::{StrSliceExecFns, StringExecFns};

use crate::EnvVarError;

verus! {

/// Does `s` end with `suffix`?
pub open spec fn spec_ends_with(s: Seq<char>, suffix: Seq<char>) -> bool {
    suffix.len() <= s.len() && s.skip(s.len() - suffix.len()) == suffix
}

/// Does `s` end with `suffix`?
pub fn str_ends_with(s: &str, suffix: &str) -> (r: bool)
    ensures
        r == spec_ends_with(s@, suffix@),
{
    let n = s.unicode_len();
    let m = suffix.unicode_len();
    if m > n {
        return false;
    }
    let mut i: usize = 0;
    while i < m
        invariant
            n == s@.len(),
            m == suffix@.len(),
            m <= n,
            i <= m,
            forall|j: int| 0 <= j < i ==> s@[n - m + j] == suffix@[j],
        decreases m - i,
    {
        if s.get_char(n - m + i) != suffix.get_char(i) {
            proof {
                assert(s@.skip(n - m)[i as int] == s@[n - m + i]);
            }
            return false;
        }
        i = i + 1;
    }
    proof {
        assert(s@.skip(n - m) =~= suffix@);
    }
    true
}

/// The value read from an environment variable, with an empty value
/// standing in for a read that failed.
pub open spec fn spec_or_empty(v: Result<String, EnvVarError>) -> Seq<char> {
    match v {
        Ok(s) => s@,
        Err(_) => Seq::<char>::empty(),
    }
}

/// A base URL, normalized to end with a path separator.
pub open spec fn spec_normalized(u: Seq<char>) -> Seq<char> {
    if spec_ends_with(u, "/"@) {
        u
    } else {
        u + "/"@
    }
}

/// The canonical base URL of the hosted data set.
pub open spec fn spec_default_base_url() -> Seq<char> {
    "https://raw.githubusercontent.com/robyoung/dicom-test-files/master/data/"@
}

/// Which base URL to use, given the environment values read:
/// a non-empty override URL wins, normalized to end with `/`; otherwise,
/// in continuous integration on a pull request against the hosting
/// repository, the head branch's raw-content location is used; failing
/// both, the canonical default. The event name and head branch are
/// consulted only on that pull-request route, and a failure to read
/// them is propagated from there alone.
pub open spec fn spec_base_url(
    override_url: Result<String, EnvVarError>,
    ci: Result<String, EnvVarError>,
    repo: Result<String, EnvVarError>,
    event: Result<String, EnvVarError>,
    head: Result<String, EnvVarError>,
) -> Result<Seq<char>, EnvVarError> {
    match override_url {
        Ok(u) => if u@.len() > 0 {
            Ok(spec_normalized(u@))
        } else {
            spec_base_url_from_ci(ci, repo, event, head)
        },
        Err(_) => spec_base_url_from_ci(ci, repo, event, head),
    }
}

/// Which base URL to use when no override URL is set: see
/// [`spec_base_url`].
pub open spec fn spec_base_url_from_ci(
    ci: Result<String, EnvVarError>,
    repo: Result<String, EnvVarError>,
    event: Result<String, EnvVarError>,
    head: Result<String, EnvVarError>,
) -> Result<Seq<char>, EnvVarError> {
    if spec_or_empty(ci) == "true"@ && spec_ends_with(
        spec_or_empty(repo),
        "/dicom-test-files"@,
    ) {
        match event {
            Err(e) => Err(e),
            Ok(ev) => if ev@ == "pull_request"@ {
                match head {
                    Err(e) => Err(e),
                    Ok(h) => Ok(
                        "https://raw.githubusercontent.com"@ + "/"@ + spec_or_empty(repo) + "/"@
                            + h@ + "/data/"@,
                    ),
                }
            } else {
                Ok(spec_default_base_url())
            },
        }
    } else {
        Ok(spec_default_base_url())
    }
}

/// Decide the base URL from the environment values read.
pub fn base_url(
    override_url: Result<String, EnvVarError>,
    ci: Result<String, EnvVarError>,
    repo: Result<String, EnvVarError>,
    event: Result<String, EnvVarError>,
    head: Result<String, EnvVarError>,
) -> (r: Result<String, EnvVarError>)
    ensures
        (r is Ok) == (spec_base_url(override_url, ci, repo, event, head) is Ok),
        r matches Ok(s) ==> s@ == spec_base_url(override_url, ci, repo, event, head)->Ok_0,
        r matches Err(e) ==> e == spec_base_url(override_url, ci, repo, event, head)->Err_0,
{
    if let Ok(u) = &override_url {
        if !u.as_str().is_empty() {
            if str_ends_with(u.as_str(), "/") {
                return Ok(u.clone());
            } else {
                return Ok(u.clone().concat("/"));
            }
        }
    }
    let ci_value: String = match &ci {
        Ok(s) => s.clone(),
        Err(_) => String::new(),
    };
    if ci_value.eq(&String::from_str("true")) {
        let repo_value: String = match &repo {
            Ok(s) => s.clone(),
            Err(_) => String::new(),
        };
        if str_ends_with(repo_value.as_str(), "/dicom-test-files") {
            match event {
                Err(e) => {
                    return Err(e);
                },
                Ok(ev) => {
                    if ev.eq(&String::from_str("pull_request")) {
                        match head {
                            Err(e) => {
                                return Err(e);
                            },
                            Ok(h) => {
                                let url = String::from_str("https://raw.githubusercontent.com")
                                    .concat("/").concat(repo_value.as_str()).concat("/").concat(
                                    h.as_str(),
                                ).concat("/data/");
                                return Ok(url);
                            },
                        }
                    }
                },
            }
        }
    }
    Ok(String::from_str("https://raw.githubusercontent.com/robyoung/dicom-test-files/master/data/"))
}

} // verus!
