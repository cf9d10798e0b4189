//! The resource resolver: the façade the compiler queries.
//!
//! Each lookup names a `FileIdentifier` — the main document, a plain path
//! served by the static file table, or a package-scoped path served by the
//! package chain (memory, then, when downloads are allowed, the registry).
//! The resolver itself is stateless across calls; all mutable state lives in
//! the package cache, which only grows, so content once observed never
//! changes for the rest of the session.

use vstd::prelude::*;

use crate::cache::PackageCache;
use crate::clock::{current_datetime, Datetime};
use crate::errors::{FileError, PackageError};
use crate::fetch::download_package;
use crate::fileset::{clone_bytes, FileSet};
use crate::options::CompileOptions;
use crate::package::{PackageSpec, PackageSpecView};

verus! {

/// A reference to resolvable content.
///
/// The main document is distinguished from `Path` identifiers even when they
/// would name the same virtual location, so a document can be supplied
/// without being independently addressable as a plain file.
pub enum FileIdentifier {
    /// The single entry document.
    Main,
    /// A caller-supplied file, by normalized absolute path.
    Path(String),
    /// Content scoped to a package, by normalized absolute path.
    PackageFile(PackageSpec, String),
}

/// What `String::from_utf8` decodes the bytes to, when they are valid UTF-8.
/// The result is a function of the bytes alone.
pub uninterp spec fn utf8_decode(bytes: Seq<u8>) -> Option<Seq<char>>;

/// Relies on `String::from_utf8`: decoding succeeds exactly on valid UTF-8,
/// and what the bytes decode to depends on the bytes alone.
#[verifier::external_body]
fn decode_utf8(bytes: Vec<u8>) -> (r: Result<String, ()>)
    ensures
        r is Ok <==> utf8_decode(bytes@) is Some,
        r matches Ok(s) ==> utf8_decode(bytes@) == Some(s@),
{
    match String::from_utf8(bytes) {
        Ok(s) => Ok(s),
        Err(_) => Err(()),
    }
}

/// The resolver bound to one compilation: one main document, one static file
/// table, one (possibly pre-seeded) package cache.
pub struct Resolver {
    main: String,
    files: FileSet,
    packages: PackageCache,
    allow_downloads: bool,
}

impl Resolver {
    /// The text of the main document.
    pub closed spec fn main_text(self) -> Seq<char> {
        self.main@
    }

    /// The static file table: normalized path to bytes.
    pub closed spec fn file_table(self) -> Map<Seq<char>, Seq<u8>> {
        self.files@
    }

    /// The packages materialized so far: identifier to path-to-bytes table.
    pub closed spec fn package_table(self) -> Map<PackageSpecView, Map<Seq<char>, Seq<u8>>> {
        self.packages@
    }

    /// Whether a miss may go to the network.
    pub closed spec fn downloads_allowed(self) -> bool {
        self.allow_downloads
    }

    /// Both tables are well formed.
    pub closed spec fn wf(self) -> bool {
        self.files.wf() && self.packages.wf()
    }

    /// Everything but the package cache is the same in both states.
    pub open spec fn same_config(pre: Resolver, post: Resolver) -> bool {
        post.main_text() == pre.main_text() && post.file_table() == pre.file_table()
            && post.downloads_allowed() == pre.downloads_allowed()
    }

    /// The package cache only grew: every materialized package is still
    /// there, with the same content.
    pub open spec fn grows_to(pre: Resolver, post: Resolver) -> bool {
        forall|k: PackageSpecView| pre.package_table().contains_key(k)
            ==> post.package_table().contains_key(k) && post.package_table()[k]
            == pre.package_table()[k]
    }

    /// Binds a resolver to one main document and the caller-supplied
    /// configuration; downloads start allowed.
    pub fn new(source: String, options: CompileOptions) -> (r: Resolver)
        requires
            options.wf(),
        ensures
            r.main_text() == source@,
            r.file_table() == options.files@,
            r.package_table() == options.packages@,
            r.downloads_allowed(),
            r.wf(),
    {
        Resolver {
            main: source,
            files: options.files,
            packages: options.packages,
            allow_downloads: true,
        }
    }

    /// The same resolver with downloads allowed or disallowed.
    #[must_use]
    pub fn with_downloads(self, allow: bool) -> (r: Resolver)
        ensures
            r.main_text() == self.main_text(),
            r.file_table() == self.file_table(),
            r.package_table() == self.package_table(),
            r.downloads_allowed() == allow,
            self.wf() ==> r.wf(),
    {
        Resolver {
            main: self.main,
            files: self.files,
            packages: self.packages,
            allow_downloads: allow,
        }
    }

    /// The static file table alone: the bytes supplied for `path` at
    /// construction, when there are any.
    pub fn static_file(&self, path: &String) -> (r: Option<Vec<u8>>)
        ensures
            r is Some <==> self.file_table().contains_key(path@),
            r matches Some(v) ==> v@ == self.file_table()[path@],
    {
        match self.files.get(path) {
            Some(v) => Some(clone_bytes(v)),
            None => None,
        }
    }

    /// The in-memory tier alone: the bytes already materialized for `path`
    /// inside `spec`, without touching disk or network.
    pub fn cached_package_file(&self, spec: &PackageSpec, path: &String) -> (r: Option<Vec<u8>>)
        ensures
            r is Some <==> (self.package_table().contains_key(spec@) && self.package_table()[
                spec@
            ].contains_key(path@)),
            r matches Some(v) ==> v@ == self.package_table()[spec@][path@],
    {
        match self.packages.lookup(spec, path) {
            Some(v) => Some(clone_bytes(v)),
            None => None,
        }
    }

    /// The text of the main document.
    pub fn main_source(&self) -> (r: String)
        ensures
            r@ == self.main_text(),
    {
        self.main.clone()
    }

    /// Merges a package materialized by an outer tier (the disk cache, or a
    /// fetch made elsewhere) into the in-memory cache, first writer wins.
    pub fn install_package(&mut self, spec: PackageSpec, files: FileSet)
        requires
            old(self).wf(),
            files.wf(),
        ensures
            final(self).wf(),
            Resolver::same_config(*old(self), *final(self)),
            Resolver::grows_to(*old(self), *final(self)),
            old(self).package_table().contains_key(spec@) ==> *final(self) == *old(self),
            !old(self).package_table().contains_key(spec@) ==> final(self).package_table() == old(self).package_table().insert(spec@, files@),
    {
        self.packages.merge(spec, files);
    }

    /// Retrieves a file from a package through the chain: the in-memory cache
    /// first; on a miss, when downloads are allowed, a registry fetch whose
    /// result is merged first-writer-wins and then consulted.
    ///
    /// Success holds exactly when the pair is materialized afterwards; a pair
    /// already cached answers from memory with the cache untouched, so no
    /// second fetch for it is ever visible to a caller.
    pub fn get_package_file(&mut self, spec: &PackageSpec, path: &String) -> (r: Result<
        Vec<u8>,
        FileError,
    >)
        requires
            old(self).wf(),
        ensures
            final(self).wf(),
            Resolver::same_config(*old(self), *final(self)),
            Resolver::grows_to(*old(self), *final(self)),
            r is Ok <==> (final(self).package_table().contains_key(spec@) && final(self).package_table()[spec@].contains_key(path@)),
            r matches Ok(v) ==> v@ == final(self).package_table()[spec@][path@],
            old(self).package_table().contains_key(spec@) && old(self).package_table()[
                spec@
            ].contains_key(path@) ==> (*final(self) == *old(self) && (r matches Ok(v) && v@ == old(self).package_table()[spec@][path@])),
            !old(self).downloads_allowed() && !old(self).package_table().contains_key(spec@) ==> (
            *final(self) == *old(self) && (r matches Err(e) && e matches FileError::Package(pe)
                && pe matches PackageError::NotFound(s) && s@ == spec@)),
            old(self).package_table().contains_key(spec@) && !old(self).package_table()[
                spec@
            ].contains_key(path@) ==> (*final(self) == *old(self) && r is Err),
            r matches Err(e) ==> (e matches FileError::NotFound(q) && q@ == path@) || (e
                matches FileError::Package(pe) && (pe is NotFound || pe is NetworkFailed
                || pe is MalformedArchive)),
    {
        let cached = match self.packages.lookup(spec, path) {
            Some(v) => Some(clone_bytes(v)),
            None => None,
        };
        if let Some(v) = cached {
            return Ok(v);
        }
        if !self.allow_downloads {
            return Err(FileError::Package(PackageError::NotFound(spec.dup())));
        }
        match download_package(spec) {
            Ok(fetched) => {
                self.packages.merge(spec.dup(), fetched);
                match self.packages.lookup(spec, path) {
                    Some(v) => Ok(clone_bytes(v)),
                    None => Err(FileError::NotFound(path.clone())),
                }
            },
            Err(e) => Err(FileError::Package(e)),
        }
    }

    /// Resolves an identifier to bytes: plain paths through the static file
    /// table, package-scoped paths through the package chain; the main
    /// document is not byte-addressable.
    pub fn resolve_bytes(&mut self, id: &FileIdentifier) -> (r: Result<Vec<u8>, FileError>)
        requires
            old(self).wf(),
        ensures
            final(self).wf(),
            Resolver::same_config(*old(self), *final(self)),
            Resolver::grows_to(*old(self), *final(self)),
            id is Main ==> (*final(self) == *old(self) && (r matches Err(e) && e
                matches FileError::NotFound(q) && q@ == "/main.typ"@)),
            id matches FileIdentifier::Path(p) ==> (*final(self) == *old(self) && (old(self).file_table().contains_key(p@) ==> (r matches Ok(v) && v@ == old(self).file_table()[
                p@
            ])) && (!old(self).file_table().contains_key(p@) ==> (r matches Err(e) && e
                matches FileError::NotFound(q) && q@ == p@))),
            id matches FileIdentifier::PackageFile(ps, p) ==> ((r is Ok <==> (final(self).package_table().contains_key(ps@) && final(self).package_table()[ps@].contains_key(
                p@,
            ))) && (r matches Ok(v) ==> v@ == final(self).package_table()[ps@][p@])),
            id matches FileIdentifier::PackageFile(ps, p) ==> ((old(self).package_table().contains_key(ps@) && old(self).package_table()[ps@].contains_key(p@))
                ==> (*final(self) == *old(self) && (r matches Ok(v) && v@ == old(self).package_table()[ps@][p@]))),
            id matches FileIdentifier::PackageFile(ps, p) ==> ((!old(self).downloads_allowed()
                && !old(self).package_table().contains_key(ps@)) ==> (*final(self) == *old(self)
                && (r matches Err(e) && e matches FileError::Package(pe)
                && pe matches PackageError::NotFound(s) && s@ == ps@))),
    {
        match id {
            FileIdentifier::Main => {
                let mut q = String::new();
                q.append("/main.typ");
                Err(FileError::NotFound(q))
            },
            FileIdentifier::Path(p) => {
                match self.files.get(p) {
                    Some(v) => Ok(clone_bytes(v)),
                    None => Err(FileError::NotFound(p.clone())),
                }
            },
            FileIdentifier::PackageFile(ps, p) => self.get_package_file(ps, p),
        }
    }

    /// Resolves an identifier to source text: the main document verbatim, or
    /// package-scoped bytes decoded as UTF-8.  Plain paths are not valid as
    /// source lookups and fail as not found.
    pub fn resolve_source(&mut self, id: &FileIdentifier) -> (r: Result<String, FileError>)
        requires
            old(self).wf(),
        ensures
            final(self).wf(),
            Resolver::same_config(*old(self), *final(self)),
            Resolver::grows_to(*old(self), *final(self)),
            id is Main ==> (*final(self) == *old(self) && (r matches Ok(s) && s@ == old(self).main_text())),
            id matches FileIdentifier::Path(p) ==> (*final(self) == *old(self) && (r matches Err(
                e,
            ) && e matches FileError::NotFound(q) && q@ == p@)),
            id matches FileIdentifier::PackageFile(ps, p) ==> ((r is Ok <==> (final(self).package_table().contains_key(ps@) && final(self).package_table()[ps@].contains_key(
                p@,
            ) && utf8_decode(final(self).package_table()[ps@][p@]) is Some)) && (r matches Ok(s)
                ==> utf8_decode(final(self).package_table()[ps@][p@]) == Some(s@))),
    {
        match id {
            FileIdentifier::Main => Ok(self.main.clone()),
            FileIdentifier::Path(p) => Err(FileError::NotFound(p.clone())),
            FileIdentifier::PackageFile(ps, p) => {
                let bytes = match self.get_package_file(ps, p) {
                    Ok(b) => b,
                    Err(e) => {
                        return Err(e);
                    },
                };
                match decode_utf8(bytes) {
                    Ok(s) => Ok(s),
                    Err(_) => Err(FileError::InvalidEncoding),
                }
            },
        }
    }

    /// The current date and time, optionally shifted to a whole-hour UTC
    /// offset; `None` when the offset is not representable.
    pub fn today(&self, offset_hours: Option<i64>) -> (r: Option<Datetime>)
        ensures
            r is Some <==> (match offset_hours {
                Option::Some(h) => -24 < h < 24,
                Option::None => true,
            }),
            r matches Some(d) ==> d.wf(),
    {
        current_datetime(offset_hours)
    }
}

} // verus!
