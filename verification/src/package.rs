//! Package identifiers and the strings derived from them.
//!
//! A package is addressed by namespace, name and a semantic-version triple.
//! The identifier determines both the registry URL an archive is fetched from
//! and the on-disk cache directory it is unpacked into.

use vstd::prelude::*;
use vstd::string::StringExecFns;

verus! {

/// A semantic-version triple.
#[derive(Clone, Copy, Debug, PartialEq, Eq, Structural)]
pub struct PackageVersion {
    pub major: u32,
    pub minor: u32,
    pub patch: u32,
}

/// The identifier of a package: namespace, name, version.
#[derive(Clone, Debug)]
pub struct PackageSpec {
    pub namespace: String,
    pub name: String,
    pub version: PackageVersion,
}

/// The mathematical reading of a package identifier.
pub struct PackageSpecView {
    pub namespace: Seq<char>,
    pub name: Seq<char>,
    pub version: PackageVersion,
}

impl View for PackageSpec {
    type V = PackageSpecView;

    open spec fn view(&self) -> PackageSpecView {
        PackageSpecView { namespace: self.namespace@, name: self.name@, version: self.version }
    }
}

impl PackageSpec {
    /// Builds an identifier from its parts.
    pub fn new(namespace: String, name: String, version: PackageVersion) -> (r: PackageSpec)
        ensures
            r@ == (PackageSpecView { namespace: namespace@, name: name@, version }),
    {
        PackageSpec { namespace, name, version }
    }

    /// A copy whose reading is the same as this one's.
    pub fn dup(&self) -> (r: PackageSpec)
        ensures
            r@ == self@,
    {
        PackageSpec {
            namespace: self.namespace.clone(),
            name: self.name.clone(),
            version: self.version,
        }
    }

    /// Structural equality of two identifiers.
    pub fn same_spec(&self, other: &PackageSpec) -> (r: bool)
        ensures
            r == (self@ == other@),
    {
        let r = self.namespace == other.namespace && self.name == other.name
            && self.version.major == other.version.major
            && self.version.minor == other.version.minor
            && self.version.patch == other.version.patch;
        proof {
            if r {
                assert(self@ == other@);
            }
        }
        r
    }
}

/// The character for one decimal digit.
pub open spec fn digit_char(d: nat) -> char {
    if d == 0 {
        '0'
    } else if d == 1 {
        '1'
    } else if d == 2 {
        '2'
    } else if d == 3 {
        '3'
    } else if d == 4 {
        '4'
    } else if d == 5 {
        '5'
    } else if d == 6 {
        '6'
    } else if d == 7 {
        '7'
    } else if d == 8 {
        '8'
    } else {
        '9'
    }
}

/// The decimal notation of `n`, most significant digit first, no leading
/// zeros (a single `0` for zero).
pub open spec fn spec_decimal(n: nat) -> Seq<char>
    decreases n,
{
    if n < 10 {
        seq![digit_char(n)]
    } else {
        spec_decimal(n / 10) + seq![digit_char(n % 10)]
    }
}

/// The decimal notation of a version triple: `major.minor.patch`.
pub open spec fn spec_version(v: PackageVersion) -> Seq<char> {
    spec_decimal(v.major as nat) + seq!['.'] + spec_decimal(v.minor as nat) + seq!['.']
        + spec_decimal(v.patch as nat)
}

/// The registry URL a package archive is fetched from.
pub open spec fn spec_package_url(s: PackageSpecView) -> Seq<char> {
    "https://packages.typst.org/preview/"@ + s.name + "-"@ + spec_version(s.version) + ".tar.gz"@
}

/// The path of a package's cache directory relative to the cache root:
/// `namespace/name/version`.
pub open spec fn spec_package_rel_path(s: PackageSpecView) -> Seq<char> {
    s.namespace + "/"@ + s.name + "/"@ + spec_version(s.version)
}

fn digit_str(d: u32) -> (r: &'static str)
    requires
        d < 10,
    ensures
        r@ == seq![digit_char(d as nat)],
{
    proof {
        reveal_strlit("0");
        reveal_strlit("1");
        reveal_strlit("2");
        reveal_strlit("3");
        reveal_strlit("4");
        reveal_strlit("5");
        reveal_strlit("6");
        reveal_strlit("7");
        reveal_strlit("8");
        reveal_strlit("9");
    }
    let r = if d == 0 {
        "0"
    } else if d == 1 {
        "1"
    } else if d == 2 {
        "2"
    } else if d == 3 {
        "3"
    } else if d == 4 {
        "4"
    } else if d == 5 {
        "5"
    } else if d == 6 {
        "6"
    } else if d == 7 {
        "7"
    } else if d == 8 {
        "8"
    } else {
        "9"
    };
    proof {
        assert(r@ =~= seq![digit_char(d as nat)]);
    }
    r
}

/// Appends the decimal notation of `n` to `s`.
fn push_decimal(s: &mut String, n: u32)
    ensures
        final(s)@ == old(s)@ + spec_decimal(n as nat),
    decreases n,
{
    if n < 10 {
        s.append(digit_str(n));
    } else {
        push_decimal(s, n / 10);
        s.append(digit_str(n % 10));
        proof {
            assert(old(s)@ + spec_decimal((n / 10) as nat) + seq![digit_char((n % 10) as nat)]
                =~= old(s)@ + spec_decimal(n as nat));
        }
    }
}

/// The decimal notation of a version triple, e.g. `0.1.0`.
pub fn version_string(v: &PackageVersion) -> (r: String)
    ensures
        r@ == spec_version(*v),
{
    let mut r = String::new();
    push_decimal(&mut r, v.major);
    r.append(".");
    push_decimal(&mut r, v.minor);
    r.append(".");
    push_decimal(&mut r, v.patch);
    proof {
        reveal_strlit(".");
        assert(seq!['.'] =~= "."@);
        assert(r@ =~= spec_version(*v));
    }
    r
}

/// The registry URL for `spec`'s archive:
/// `https://packages.typst.org/preview/<name>-<version>.tar.gz`.
pub fn package_url(spec: &PackageSpec) -> (r: String)
    ensures
        r@ == spec_package_url(spec@),
{
    let mut r = String::new();
    r.append("https://packages.typst.org/preview/");
    r.append(spec.name.as_str());
    r.append("-");
    let ver = version_string(&spec.version);
    r.append(ver.as_str());
    r.append(".tar.gz");
    proof {
        assert(r@ =~= spec_package_url(spec@));
    }
    r
}

/// The cache directory of `spec` relative to the cache root:
/// `<namespace>/<name>/<version>`.
pub fn package_rel_path(spec: &PackageSpec) -> (r: String)
    ensures
        r@ == spec_package_rel_path(spec@),
{
    let mut r = String::new();
    r.append(spec.namespace.as_str());
    r.append("/");
    r.append(spec.name.as_str());
    r.append("/");
    let ver = version_string(&spec.version);
    r.append(ver.as_str());
    proof {
        assert(r@ =~= spec_package_rel_path(spec@));
    }
    r
}

/// Relies on dirs::cache_dir: the platform's per-user cache directory, if the
/// platform defines one.  Which directory comes back depends on the
/// environment, so nothing is stated of the value.
#[verifier::external_body]
fn os_cache_dir() -> (r: Option<String>) {
    dirs::cache_dir().map(|p| p.to_string_lossy().into_owned())
}

/// The root directory of the on-disk package cache, when the platform has a
/// cache directory: `<platform cache dir>/typst/packages`.
pub fn cache_dir() -> (r: Option<String>)
    ensures
        r matches Some(p) ==> exists|base: Seq<char>| p@ == base + "/typst/packages"@,
{
    match os_cache_dir() {
        Some(base) => {
            let ghost base_view = base@;
            let mut p = base;
            p.append("/typst/packages");
            proof {
                assert(p@ == base_view + "/typst/packages"@);
            }
            Some(p)
        },
        None => None,
    }
}

/// The on-disk cache directory of `spec`, when the platform has a cache
/// directory: `<cache root>/<namespace>/<name>/<version>`.
pub fn package_dir(spec: &PackageSpec) -> (r: Option<String>)
    ensures
        r matches Some(p) ==> exists|root: Seq<char>|
            p@ == root + "/"@ + spec_package_rel_path(spec@),
{
    match cache_dir() {
        Some(root) => {
            let ghost root_view = root@;
            let mut p = root;
            p.append("/");
            let rel = package_rel_path(spec);
            p.append(rel.as_str());
            proof {
                assert(p@ == root_view + "/"@ + spec_package_rel_path(spec@));
            }
            Some(p)
        },
        None => None,
    }
}

} // verus!
