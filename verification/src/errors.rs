//! The error taxonomy of the resolution layer.
//!
//! Every tier failure is folded into one of these shapes before it reaches the
//! compiler.  Disk-cache write failures never appear here: the in-memory copy
//! is authoritative for the session, so persisting is best effort only.

use vstd::prelude::*;
use vstd::string::StringExecFns;

use crate::package::PackageSpec;

verus! {

/// Why a package could not be materialized.
#[derive(Clone, Debug)]
pub enum PackageError {
    /// The package is not available from any tier.
    NotFound(PackageSpec),
    /// The registry was unreachable or answered with a failure.
    NetworkFailed(String),
    /// The archive that came back could not be decompressed or unpacked.
    MalformedArchive(String),
    /// A local failure outside the network path.
    Other(String),
}

/// Why a file lookup failed.
#[derive(Clone, Debug)]
pub enum FileError {
    /// No tier holds content for the path.
    NotFound(String),
    /// Content was found where text was required, but it is not valid UTF-8.
    InvalidEncoding,
    /// The file is package-scoped and the package could not be materialized.
    Package(PackageError),
}

/// Errors surfaced to the caller of a whole compilation.
#[derive(Clone, Debug, PartialEq, Eq)]
pub enum CompileError {
    /// One or more compiler diagnostics, joined by semicolons.
    Typst(String),
    /// A package could not be loaded.
    Package(String),
}

/// The messages joined by `; `: empty for none, the sole message for one,
/// and each further message appended after a separator.
pub open spec fn spec_joined(msgs: Seq<Seq<char>>) -> Seq<char>
    decreases msgs.len(),
{
    if msgs.len() == 0 {
        Seq::empty()
    } else if msgs.len() == 1 {
        msgs[0]
    } else {
        spec_joined(msgs.drop_last()) + "; "@ + msgs.last()
    }
}

/// Joins diagnostic messages with `; `, the form the compile errors carry.
pub fn join_messages(msgs: &Vec<String>) -> (r: String)
    ensures
        r@ == spec_joined(msgs@.map_values(|m: String| m@)),
{
    let ghost all = msgs@.map_values(|m: String| m@);
    let mut r = String::new();
    let n = msgs.len();
    let mut i: usize = 0;
    while i < n
        invariant
            all == msgs@.map_values(|m: String| m@),
            n == msgs@.len(),
            0 <= i <= n,
            r@ == spec_joined(all.take(i as int)),
        decreases n - i,
    {
        if i > 0 {
            r.append("; ");
        }
        r.append(msgs[i].as_str());
        proof {
            assert(all.take(i + 1).drop_last() =~= all.take(i as int));
            assert(all.take(i + 1).last() == all[i as int]);
            if i == 0 {
                assert(r@ =~= spec_joined(all.take(i + 1)));
            }
        }
        i = i + 1;
    }
    proof {
        assert(all.take(n as int) =~= all);
    }
    r
}

impl CompileError {
    /// A human-readable description of the error.
    pub fn message(&self) -> (r: String)
        ensures
            self matches CompileError::Typst(m) ==> r@ == "Typst compilation error: "@ + m@,
            self matches CompileError::Package(m) ==> r@ == "Package error: "@ + m@,
    {
        match self {
            CompileError::Typst(m) => {
                let mut r = String::new();
                r.append("Typst compilation error: ");
                r.append(m.as_str());
                r
            },
            CompileError::Package(m) => {
                let mut r = String::new();
                r.append("Package error: ");
                r.append(m.as_str());
                r
            },
        }
    }
}

} // verus!
