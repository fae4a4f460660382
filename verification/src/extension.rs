//! The extension validator: every input path must end in `.json` or `.arb`.

use vstd::prelude::*;
use crate::errors::ExtensionError;

verus! {

/// The character sequence ends with the given suffix.
pub open spec fn ends_with(s: Seq<char>, suffix: Seq<char>) -> bool {
    suffix.len() <= s.len() && s.subrange(s.len() - suffix.len(), s.len() as int) == suffix
}

/// The path carries one of the accepted extensions, case-sensitively.
pub open spec fn valid_extension(path: Seq<char>) -> bool {
    ends_with(path, ".json"@) || ends_with(path, ".arb"@)
}

/// Every path of the list carries an accepted extension.
pub open spec fn all_valid_extensions(paths: Seq<String>) -> bool {
    forall|i: int| 0 <= i < paths.len() ==> valid_extension((#[trigger] paths[i])@)
}

/// Whether `s` ends with `suffix`, counted in characters.
pub fn has_suffix(s: &str, suffix: &str) -> (r: bool)
    ensures
        r == ends_with(s@, suffix@),
{
    let n = s.unicode_len();
    let m = suffix.unicode_len();
    if m > n {
        return false;
    }
    let mut i: usize = 0;
    while i < m
        invariant
            n == s@.len(),
            m == suffix@.len(),
            m <= n,
            0 <= i <= m,
            forall|j: int| 0 <= j < i ==> s@[n - m + j] == suffix@[j],
        decreases m - i,
    {
        let sc = s.get_char(n - m + i);
        let tc = suffix.get_char(i);
        if sc != tc {
            proof {
                if ends_with(s@, suffix@) {
                    assert(s@.subrange(n - m, n as int)[i as int] == s@[n - m + i]);
                }
            }
            return false;
        }
        i += 1;
    }
    proof {
        assert(s@.subrange(n - m, n as int) =~= suffix@);
    }
    true
}

/// Accepts the path list exactly when every path ends in `.json` or
/// `.arb`; otherwise reports the one extension error, without naming the
/// offending path.
pub fn check_file_extension(file_paths: &Vec<String>) -> (r: Result<(), ExtensionError>)
    ensures
        r is Ok <==> all_valid_extensions(file_paths@),
{
    let n = file_paths.len();
    let mut i: usize = 0;
    while i < n
        invariant
            n == file_paths@.len(),
            forall|j: int| 0 <= j < i ==> valid_extension((#[trigger] file_paths@[j])@),
        decreases n - i,
    {
        let p = &file_paths[i];
        let is_json = has_suffix(p.as_str(), ".json");
        let is_arb = has_suffix(p.as_str(), ".arb");
        if !is_json && !is_arb {
            proof {
                assert(!valid_extension((file_paths@[i as int])@));
            }
            return Err(ExtensionError::InvalidExtension);
        }
        i += 1;
    }
    Ok(())
}

} // verus!
