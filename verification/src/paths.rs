//! File system paths, as plain strings.

use vstd::prelude::*;

verus! {

/// `base` with `segment` pushed on, as `PathBuf::push` does it on Unix: an
/// absolute segment replaces the path; otherwise a `/` is put between the two
/// unless `base` is empty or already ends with one.
pub open spec fn join_spec(base: Seq<char>, segment: Seq<char>) -> Seq<char> {
    if segment.len() > 0 && segment[0] == '/' {
        segment
    } else if base.len() > 0 && base.last() != '/' {
        base + seq!['/'] + segment
    } else {
        base + segment
    }
}

/// Joins `segment` onto the path `base`.
pub fn join_path(base: &str, segment: &str) -> (r: String)
    ensures
        r@ == join_spec(base@, segment@),
{
    proof {
        reveal_strlit("/");
    }
    let seg_len = segment.unicode_len();
    if seg_len > 0 && segment.get_char(0) == '/' {
        return String::from_str(segment);
    }
    let base_len = base.unicode_len();
    let mut r = String::from_str(base);
    if base_len > 0 && base.get_char(base_len - 1) != '/' {
        r.append("/");
    }
    r.append(segment);
    r
}

/// The home directory of the current user, from `dirs::home_dir`.
///
/// `dirs::home_dir` reads `$HOME`, or the password database when `$HOME` is
/// unset or empty, and gives `None` rather than an empty path. What it finds
/// depends on the environment, so only that a found path is non-empty is stated.
#[verifier::external_body]
pub(crate) fn home_dir() -> (r: Option<String>)
    ensures
        r matches Some(h) ==> h@.len() > 0,
{
    dirs::home_dir().map(|p| p.to_string_lossy().to_string())
}

/// Whether something exists at `path`, from `std::path::Path::exists`.
///
/// The answer depends on the file system at the moment of the call, so
/// nothing is stated of it.
#[verifier::external_body]
pub(crate) fn path_exists(path: &str) -> bool {
    std::path::Path::new(path).exists()
}

} // verus!
