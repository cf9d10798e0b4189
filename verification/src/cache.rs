//! The in-memory package cache: the first tier of the package chain.
//!
//! The cache maps package identifiers to whole file sets.  Packages are
//! versioned, so a materialized version is treated as immutable for the rest
//! of the session: merging is first-writer-wins and the cache only grows.

use vstd::prelude::*;

use crate::fileset::FileSet;
use crate::package::{PackageSpec, PackageSpecView};

verus! {

/// The mapping described by a list of package entries; a later entry for the
/// same identifier would win, though the merge discipline never adds one.
pub open spec fn cache_map(s: Seq<(PackageSpec, FileSet)>) -> Map<
    PackageSpecView,
    Map<Seq<char>, Seq<u8>>,
>
    decreases s.len(),
{
    if s.len() == 0 {
        Map::empty()
    } else {
        cache_map(s.drop_last()).insert(s.last().0@, s.last().1@)
    }
}

/// Law: once a fetch for `spec` succeeds and its file set is merged, every
/// path of that set resolves from the cache to exactly the fetched bytes —
/// no further fetch is needed for any of them.
pub proof fn lemma_cache_hit_after_merge(
    m: Map<PackageSpecView, Map<Seq<char>, Seq<u8>>>,
    spec: PackageSpecView,
    files: Map<Seq<char>, Seq<u8>>,
    path: Seq<char>,
)
    requires
        files.contains_key(path),
    ensures
        m.insert(spec, files).contains_key(spec),
        m.insert(spec, files)[spec].contains_key(path),
        m.insert(spec, files)[spec][path] == files[path],
{
}

/// Law: merging is all-or-nothing.  When two lookups miss on the same
/// uncached identifier and both come back with a fetched set, whichever merge
/// commits second changes nothing: afterwards the table for `spec` is either
/// exactly the set merged now or exactly what an earlier merge put there —
/// never a mixture, so no reader observes a partially-written package.
pub proof fn lemma_merge_all_or_nothing(
    m: Map<PackageSpecView, Map<Seq<char>, Seq<u8>>>,
    spec: PackageSpecView,
    files: Map<Seq<char>, Seq<u8>>,
)
    ensures
        ({
            let post = if m.contains_key(spec) {
                m
            } else {
                m.insert(spec, files)
            };
            post.contains_key(spec) && (post[spec] == files || (m.contains_key(spec) && post[spec]
                == m[spec]))
        }),
{
}

/// The shared, lazily-populated package cache.
pub struct PackageCache {
    packages: Vec<(PackageSpec, FileSet)>,
}

impl View for PackageCache {
    type V = Map<PackageSpecView, Map<Seq<char>, Seq<u8>>>;

    closed spec fn view(&self) -> Map<PackageSpecView, Map<Seq<char>, Seq<u8>>> {
        cache_map(self.packages@)
    }
}

impl PackageCache {
    /// Every stored file set is well formed (all keys rooted).
    pub closed spec fn wf(self) -> bool {
        forall|i: int|
            0 <= i < self.packages@.len() ==> (#[trigger] self.packages@[i].1).wf()
    }

    /// The empty cache.
    pub fn new() -> (r: PackageCache)
        ensures
            r@ == Map::<PackageSpecView, Map<Seq<char>, Seq<u8>>>::empty(),
            r.wf(),
    {
        PackageCache { packages: Vec::new() }
    }

    /// The file set of `spec`, when the package is materialized.
    pub fn get_package(&self, spec: &PackageSpec) -> (r: Option<&FileSet>)
        ensures
            r is Some <==> self@.contains_key(spec@),
            r matches Some(fs) ==> fs@ == self@[spec@],
            r matches Some(fs) ==> (self.wf() ==> fs.wf()),
    {
        let ghost all = self.packages@;
        let mut found: Option<&FileSet> = None;
        let n = self.packages.len();
        let mut i: usize = 0;
        while i < n
            invariant
                all == self.packages@,
                n == all.len(),
                0 <= i <= n,
                found is Some <==> cache_map(all.take(i as int)).contains_key(spec@),
                found matches Some(fs) ==> cache_map(all.take(i as int))[spec@] == fs@,
                found matches Some(fs) ==> (self.wf() ==> fs.wf()),
            decreases n - i,
        {
            let ghost prefix = all.take(i as int);
            if self.packages[i].0.same_spec(spec) {
                found = Some(&self.packages[i].1);
            }
            proof {
                assert(all.take(i + 1).drop_last() =~= prefix);
                assert(all.take(i + 1).last() == all[i as int]);
            }
            i = i + 1;
        }
        proof {
            assert(all.take(n as int) =~= all);
        }
        found
    }

    /// Whether `spec` is already materialized.
    pub fn contains_spec(&self, spec: &PackageSpec) -> (r: bool)
        ensures
            r == self@.contains_key(spec@),
    {
        self.get_package(spec).is_some()
    }

    /// The bytes cached for `path` inside `spec`, when present: the fast path
    /// of every package lookup.
    pub fn lookup(&self, spec: &PackageSpec, path: &String) -> (r: Option<&Vec<u8>>)
        ensures
            r is Some <==> self@.contains_key(spec@) && self@[spec@].contains_key(path@),
            r matches Some(v) ==> v@ == self@[spec@][path@],
    {
        match self.get_package(spec) {
            Some(fs) => fs.get(path),
            None => None,
        }
    }

    /// Stores `files` under `spec`, replacing any earlier entry for the same
    /// identifier.  This is for seeding a cache before a session starts; the
    /// in-session merge discipline is `merge`.
    pub fn put(&mut self, spec: PackageSpec, files: FileSet)
        ensures
            final(self)@ == old(self)@.insert(spec@, files@),
            old(self).wf() && files.wf() ==> final(self).wf(),
    {
        let ghost before = self.packages@;
        self.packages.push((spec, files));
        proof {
            assert(self.packages@.drop_last() =~= before);
            assert forall|i: int|
                0 <= i < self.packages@.len() implies (old(self).wf() && files.wf() ==> (
            #[trigger] self.packages@[i].1).wf()) by {
                if i < before.len() {
                    assert(self.packages@[i] == before[i]);
                }
            }
        }
    }

    /// Merges a whole package into the cache.  First writer wins: when `spec`
    /// is already materialized, nothing changes, so content once observed
    /// stays immutable for the session.
    pub fn merge(&mut self, spec: PackageSpec, files: FileSet)
        ensures
            old(self)@.contains_key(spec@) ==> *final(self) == *old(self),
            !old(self)@.contains_key(spec@) ==> final(self)@ == old(self)@.insert(
                spec@,
                files@,
            ),
            old(self).wf() && files.wf() ==> final(self).wf(),
    {
        let ghost before = self.packages@;
        if !self.contains_spec(&spec) {
            self.packages.push((spec, files));
            proof {
                assert(self.packages@.drop_last() =~= before);
                assert forall|i: int|
                    0 <= i < self.packages@.len() implies (old(self).wf() && files.wf() ==> (
                #[trigger] self.packages@[i].1).wf()) by {
                    if i < before.len() {
                        assert(self.packages@[i] == before[i]);
                    }
                }
            }
        }
    }
}

} // verus!
