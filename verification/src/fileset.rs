//! The immutable path → bytes tables that back both the static file table and
//! the per-package file sets.
//!
//! A `FileSet` is modelled as a `Map<Seq<char>, Seq<u8>>` from rooted paths to
//! byte contents.  Keys are normalized on the way in, so a lookup never
//! re-normalizes.  When a key is stored twice, the later entry wins, matching
//! plain map-insert semantics.

use vstd::prelude::*;

use crate::paths::{is_rooted, normalize_path, spec_normalize};

verus! {

/// The mathematical reading of a list of path/content entries.
pub open spec fn entries_view(s: Seq<(String, Vec<u8>)>) -> Seq<(Seq<char>, Seq<u8>)> {
    s.map_values(|p: (String, Vec<u8>)| (p.0@, p.1@))
}

/// The mapping described by a sequence of already-rooted entries: each entry
/// in turn overwrites earlier ones with the same key.
pub open spec fn entries_map(s: Seq<(Seq<char>, Seq<u8>)>) -> Map<Seq<char>, Seq<u8>>
    decreases s.len(),
{
    if s.len() == 0 {
        Map::empty()
    } else {
        entries_map(s.drop_last()).insert(s.last().0, s.last().1)
    }
}

/// The mapping described by a sequence of raw entries whose keys still need
/// normalizing: each entry in turn overwrites earlier ones with the same
/// normalized key.
pub open spec fn ingest_map(s: Seq<(Seq<char>, Seq<u8>)>) -> Map<Seq<char>, Seq<u8>>
    decreases s.len(),
{
    if s.len() == 0 {
        Map::empty()
    } else {
        ingest_map(s.drop_last()).insert(spec_normalize(s.last().0), s.last().1)
    }
}

/// Every key of the mapping is a rooted path.
pub open spec fn rooted_keys(m: Map<Seq<char>, Seq<u8>>) -> bool {
    forall|k: Seq<char>| m.dom().contains(k) ==> is_rooted(k)
}

/// All entries of `s` carry a rooted key.
pub open spec fn entries_rooted(s: Seq<(Seq<char>, Seq<u8>)>) -> bool {
    forall|i: int| 0 <= i < s.len() ==> is_rooted(#[trigger] s[i].0)
}

/// On entries whose keys are already rooted, ingesting changes nothing:
/// normalization leaves each key alone, so both readings give one mapping.
/// This is the verified core of the disk-cache round trip: the entries a file
/// set hands out for writing rebuild the same mapping when read back in.
pub proof fn lemma_file_set_round_trip(s: Seq<(Seq<char>, Seq<u8>)>)
    requires
        entries_rooted(s),
    ensures
        ingest_map(s) == entries_map(s),
    decreases s.len(),
{
    if s.len() > 0 {
        assert(entries_rooted(s.drop_last()));
        lemma_file_set_round_trip(s.drop_last());
        assert(is_rooted(s.last().0));
    }
}

/// Ingesting yields only rooted keys, whatever the raw entries were.
pub proof fn lemma_ingest_map_rooted(s: Seq<(Seq<char>, Seq<u8>)>)
    ensures
        rooted_keys(ingest_map(s)),
    decreases s.len(),
{
    if s.len() > 0 {
        lemma_ingest_map_rooted(s.drop_last());
        crate::paths::lemma_normalize_rooted(s.last().0);
    }
}

/// Law: after storing `content` under `path`, looking up the normalized path
/// yields exactly `content` (the insert/lookup round trip).
pub proof fn lemma_insert_round_trip(
    m: Map<Seq<char>, Seq<u8>>,
    path: Seq<char>,
    content: Seq<u8>,
)
    ensures
        m.insert(spec_normalize(path), content).contains_key(spec_normalize(path)),
        m.insert(spec_normalize(path), content)[spec_normalize(path)] == content,
{
}

/// Law: in a caller-supplied file set, looking up any key that was inserted
/// returns exactly the bytes inserted with it — where a key recurs, the later
/// entry is the one that was kept.
pub proof fn lemma_ingest_round_trip(s: Seq<(Seq<char>, Seq<u8>)>, i: int)
    requires
        0 <= i < s.len(),
        forall|j: int|
            i < j < s.len() ==> spec_normalize(#[trigger] s[j].0) != spec_normalize(s[i].0),
    ensures
        ingest_map(s).contains_key(spec_normalize(s[i].0)),
        ingest_map(s)[spec_normalize(s[i].0)] == s[i].1,
    decreases s.len(),
{
    if i == s.len() - 1 {
    } else {
        assert(s.drop_last()[i] == s[i]);
        lemma_ingest_round_trip(s.drop_last(), i);
        assert(spec_normalize(s.last().0) != spec_normalize(s[i].0));
    }
}

/// Reading a list of entries commutes with appending one entry.
pub proof fn lemma_entries_view_push(s: Seq<(String, Vec<u8>)>, p: (String, Vec<u8>))
    ensures
        entries_view(s.push(p)) =~= entries_view(s).push((p.0@, p.1@)),
{
}

/// Appending a rooted entry keeps every key rooted.
pub proof fn lemma_entries_rooted_push(s: Seq<(Seq<char>, Seq<u8>)>, p: (Seq<char>, Seq<u8>))
    requires
        entries_rooted(s),
        is_rooted(p.0),
    ensures
        entries_rooted(s.push(p)),
{
    assert forall|i: int| 0 <= i < s.push(p).len() implies is_rooted(
        #[trigger] s.push(p)[i].0,
    ) by {
        if i < s.len() {
            assert(s.push(p)[i] == s[i]);
        }
    }
}

/// An immutable table from rooted virtual paths to file contents.
pub struct FileSet {
    entries: Vec<(String, Vec<u8>)>,
}

impl View for FileSet {
    type V = Map<Seq<char>, Seq<u8>>;

    closed spec fn view(&self) -> Map<Seq<char>, Seq<u8>> {
        entries_map(entries_view(self.entries@))
    }
}

impl FileSet {
    /// Each stored entry carries a rooted key; this holds from construction on.
    pub closed spec fn wf(self) -> bool {
        entries_rooted(entries_view(self.entries@))
    }

    /// The empty table.
    pub fn new() -> (r: FileSet)
        ensures
            r@ == Map::<Seq<char>, Seq<u8>>::empty(),
            r.wf(),
    {
        FileSet { entries: Vec::new() }
    }

    /// Stores `content` under the normalized form of `path`, overwriting any
    /// earlier entry for that key.
    pub fn insert(&mut self, path: String, content: Vec<u8>)
        ensures
            final(self)@ == old(self)@.insert(spec_normalize(path@), content@),
            old(self).wf() ==> final(self).wf(),
    {
        let ghost before_raw = self.entries@;
        let ghost before = entries_view(self.entries@);
        let key = normalize_path(path);
        let ghost pair = (key, content);
        self.entries.push((key, content));
        proof {
            crate::paths::lemma_normalize_rooted(path@);
            lemma_entries_view_push(before_raw, pair);
            assert(entries_view(self.entries@) == before.push((spec_normalize(path@), content@)));
            assert(entries_view(self.entries@).drop_last() =~= before);
            if old(self).wf() {
                lemma_entries_rooted_push(before, (spec_normalize(path@), content@));
            }
        }
    }

    /// Looks `path` up by exact match; the path is expected to be rooted
    /// already, as every path coming out of the compiler is.
    pub fn get(&self, path: &String) -> (r: Option<&Vec<u8>>)
        ensures
            r is Some <==> self@.contains_key(path@),
            r matches Some(v) ==> self@[path@] == v@,
    {
        let ghost all = entries_view(self.entries@);
        let mut found: Option<&Vec<u8>> = None;
        let n = self.entries.len();
        let mut i: usize = 0;
        while i < n
            invariant
                all == entries_view(self.entries@),
                n == self.entries@.len(),
                0 <= i <= n,
                found is Some <==> entries_map(all.take(i as int)).contains_key(path@),
                found matches Some(v) ==> entries_map(all.take(i as int))[path@] == v@,
            decreases n - i,
        {
            let ghost prefix = all.take(i as int);
            if self.entries[i].0 == *path {
                found = Some(&self.entries[i].1);
            }
            proof {
                assert(all.take(i + 1).drop_last() =~= prefix);
                assert(all.take(i + 1).last() == all[i as int]);
            }
            i = i + 1;
        }
        proof {
            assert(all.take(n as int) =~= all);
        }
        found
    }

    /// Builds a table from raw entries, normalizing every key; later entries
    /// overwrite earlier ones with the same normalized key.
    pub fn from_entries(entries: Vec<(String, Vec<u8>)>) -> (r: FileSet)
        ensures
            r@ == ingest_map(entries_view(entries@)),
            r.wf(),
    {
        let ghost orig = entries_view(entries@);
        let ghost mut i: int = 0;
        let mut rest = entries;
        let mut r = FileSet::new();
        while rest.len() > 0
            invariant
                r.wf(),
                0 <= i <= orig.len(),
                entries_view(rest@) =~= orig.subrange(i, orig.len() as int),
                r@ == ingest_map(orig.take(i)),
            decreases orig.len() - i,
        {
            let ghost rest_before = rest@;
            proof {
                assert(entries_view(rest_before).len() == rest_before.len());
                assert(i < orig.len());
            }
            let (path, content) = rest.remove(0);
            proof {
                assert(entries_view(rest_before)[0] == (rest_before[0].0@, rest_before[0].1@));
                assert((path@, content@) == orig[i]);
            }
            r.insert(path, content);
            proof {
                assert(orig.take(i + 1).drop_last() =~= orig.take(i));
                assert(orig.take(i + 1).last() == orig[i]);
                i = i + 1;
                assert forall|j: int| 0 <= j < rest@.len() implies entries_view(rest@)[j]
                    == orig.subrange(i, orig.len() as int)[j] by {
                    assert(rest@[j] == rest_before[j + 1]);
                    assert(entries_view(rest_before)[j + 1] == (rest_before[j + 1].0@, rest_before[
                        j + 1
                    ].1@));
                }
                assert(entries_view(rest@) =~= orig.subrange(i, orig.len() as int));
            }
        }
        proof {
            assert(orig.take(orig.len() as int) =~= orig);
        }
        r
    }

    /// Hands out a copy of the stored entries, for instance so a caller can
    /// persist them; ingesting them again rebuilds exactly this mapping.
    pub fn to_entries(&self) -> (r: Vec<(String, Vec<u8>)>)
        requires
            self.wf(),
        ensures
            entries_rooted(entries_view(r@)),
            ingest_map(entries_view(r@)) == self@,
            entries_map(entries_view(r@)) == self@,
    {
        let ghost all = entries_view(self.entries@);
        let mut out: Vec<(String, Vec<u8>)> = Vec::new();
        let n = self.entries.len();
        let mut i: usize = 0;
        while i < n
            invariant
                all == entries_view(self.entries@),
                n == self.entries@.len(),
                0 <= i <= n,
                entries_view(out@) =~= all.take(i as int),
            decreases n - i,
        {
            let ghost out_before = out@;
            let path = self.entries[i].0.clone();
            let content = clone_bytes(&self.entries[i].1);
            let ghost pair = (path, content);
            out.push((path, content));
            proof {
                lemma_entries_view_push(out_before, pair);
                assert((pair.0@, pair.1@) == all[i as int]);
                assert(entries_view(out@) =~= all.take(i + 1));
            }
            i = i + 1;
        }
        proof {
            assert(entries_view(out@) =~= all);
            lemma_file_set_round_trip(entries_view(out@));
        }
        out
    }
}

/// A byte-for-byte copy of a blob.
pub fn clone_bytes(v: &Vec<u8>) -> (r: Vec<u8>)
    ensures
        r@ == v@,
{
    let mut r: Vec<u8> = Vec::new();
    let n = v.len();
    let mut i: usize = 0;
    while i < n
        invariant
            n == v@.len(),
            0 <= i <= n,
            r@ =~= v@.take(i as int),
        decreases n - i,
    {
        r.push(v[i]);
        proof {
            assert(r@ =~= v@.take(i + 1));
        }
        i = i + 1;
    }
    proof {
        assert(r@ =~= v@);
    }
    r
}

} // verus!
