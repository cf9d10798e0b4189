//! Canonical form of the virtual paths used as file-table and package keys.
//!
//! Every path handed in by a caller or read out of a package archive is put
//! into a rooted form (leading `/`) before it is stored, so lookups never need
//! to re-normalize.

use vstd::prelude::*;
use vstd::string::StrSliceExecFns;
use vstd::string::StringExecFns;

verus! {

/// A path is rooted when it begins with `/`.
pub open spec fn is_rooted(p: Seq<char>) -> bool {
    p.len() > 0 && p[0] == '/'
}

/// The canonical form of a caller-supplied path: itself when already rooted,
/// otherwise the path with `/` put in front.
pub open spec fn spec_normalize(p: Seq<char>) -> Seq<char> {
    if is_rooted(p) {
        p
    } else {
        seq!['/'] + p
    }
}

/// Normalizing always yields a rooted path.
pub proof fn lemma_normalize_rooted(p: Seq<char>)
    ensures
        is_rooted(spec_normalize(p)),
{
}

/// Normalizing is idempotent: a second pass changes nothing.
pub proof fn lemma_normalize_idempotent(p: Seq<char>)
    ensures
        spec_normalize(spec_normalize(p)) == spec_normalize(p),
{
    lemma_normalize_rooted(p);
}

/// Returns the rooted form of `path`: unchanged when it already starts with
/// `/`, otherwise prefixed with `/`.
pub fn normalize_path(path: String) -> (r: String)
    ensures
        r@ == spec_normalize(path@),
{
    proof {
        reveal_strlit("/");
    }
    let s = path.as_str();
    if s.unicode_len() > 0 && s.get_char(0) == '/' {
        path
    } else {
        let mut r = String::new();
        r.append("/");
        r.append(path.as_str());
        proof {
            assert(r@ =~= spec_normalize(path@));
        }
        r
    }
}

} // verus!
