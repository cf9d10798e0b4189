//! Caller-supplied configuration: the static file table and the pre-seeded
//! packages a resolver is constructed with.
//!
//! Supplying a package here is the only way to resolve package-scoped content
//! without any network access.

use vstd::prelude::*;

use crate::cache::PackageCache;
use crate::fileset::{entries_view, ingest_map, FileSet};
use crate::package::PackageSpec;
use crate::paths::spec_normalize;

verus! {

/// Options for configuring a compilation: auxiliary files (images,
/// bibliographies, data files) and pre-loaded packages.
pub struct CompileOptions {
    /// Files available to the document, keyed by their normalized virtual
    /// path.
    pub files: FileSet,
    /// Pre-loaded packages, keyed by their identifier.
    pub packages: PackageCache,
}

impl CompileOptions {
    /// Both tables are well formed.
    pub open spec fn wf(self) -> bool {
        self.files.wf() && self.packages.wf()
    }

    /// Empty options: no auxiliary files, no pre-loaded packages.
    pub fn new() -> (r: CompileOptions)
        ensures
            r.files@ == Map::<Seq<char>, Seq<u8>>::empty(),
            r.packages@ == Map::<crate::package::PackageSpecView, Map<Seq<char>, Seq<u8>>>::empty(),
            r.wf(),
    {
        CompileOptions { files: FileSet::new(), packages: PackageCache::new() }
    }

    /// Adds a file, its path normalized to start with `/`, overwriting any
    /// earlier file at the same normalized path.
    #[must_use]
    pub fn with_file(self, path: String, content: Vec<u8>) -> (r: CompileOptions)
        ensures
            r.files@ == self.files@.insert(spec_normalize(path@), content@),
            r.packages == self.packages,
            self.wf() ==> r.wf(),
    {
        let mut files = self.files;
        files.insert(path, content);
        CompileOptions { files, packages: self.packages }
    }

    /// Adds a pre-loaded package from raw entries, each path normalized to
    /// start with `/`; a package added twice keeps the later file set.
    #[must_use]
    pub fn with_package(self, spec: PackageSpec, files: Vec<(String, Vec<u8>)>) -> (r:
        CompileOptions)
        ensures
            r.packages@ == self.packages@.insert(spec@, ingest_map(entries_view(files@))),
            r.files == self.files,
            self.wf() ==> r.wf(),
    {
        let set = FileSet::from_entries(files);
        let mut packages = self.packages;
        packages.put(spec, set);
        CompileOptions { files: self.files, packages }
    }
}

impl Default for CompileOptions {
    /// Empty options, as `new` builds them.
    fn default() -> (r: CompileOptions)
        ensures
            r.files@ == Map::<Seq<char>, Seq<u8>>::empty(),
            r.packages@ == Map::<crate::package::PackageSpecView, Map<Seq<char>, Seq<u8>>>::empty(),
            r.wf(),
    {
        CompileOptions::new()
    }
}

} // verus!
