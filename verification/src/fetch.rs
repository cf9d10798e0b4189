//! The package fetcher: the network tier of the package chain.
//!
//! A package archive is fetched from the registry as one gzip-compressed tar
//! stream, decompressed and unpacked into a file set.  Persisting the result
//! to the on-disk cache is the caller's concern and best effort only: the
//! in-memory result is authoritative for the session.

use vstd::prelude::*;

use crate::errors::PackageError;
use crate::fileset::{entries_view, ingest_map, FileSet};
use crate::package::{package_url, PackageSpec};

verus! {

/// What gzip data decompresses to, when it is well formed.  The result is a
/// function of the bytes alone.
pub uninterp spec fn gunzip_of(data: Seq<u8>) -> Option<Seq<u8>>;

/// The regular-file entries of a tar stream — path and content, in archive
/// order — when the stream is well formed.  The result is a function of the
/// bytes alone.
pub uninterp spec fn untar_of(data: Seq<u8>) -> Option<Seq<(Seq<char>, Seq<u8>)>>;

/// Relies on flate2's `GzDecoder`: whether gzip data decompresses, and to
/// what, depends on the bytes alone.  On failure the I/O error's message is
/// returned.
#[verifier::external_body]
fn gunzip(data: &Vec<u8>) -> (r: Result<Vec<u8>, String>)
    ensures
        r is Ok <==> gunzip_of(data@) is Some,
        r matches Ok(v) ==> gunzip_of(data@) == Some(v@),
{
    let mut out = Vec::new();
    let mut dec = flate2::read::GzDecoder::new(data.as_slice());
    match std::io::Read::read_to_end(&mut dec, &mut out) {
        Ok(_) => Ok(out),
        Err(e) => Err(e.to_string()),
    }
}

/// Relies on the tar crate's `Archive`: which regular-file entries a tar
/// stream holds, with their paths and contents in archive order, depends on
/// the bytes alone.  Directory and other non-file entries are skipped, as
/// `untar_of` describes.  On failure the I/O error's message is returned.
#[verifier::external_body]
fn untar_regular_files(data: &Vec<u8>) -> (r: Result<Vec<(String, Vec<u8>)>, String>)
    ensures
        r is Ok <==> untar_of(data@) is Some,
        r matches Ok(v) ==> untar_of(data@) == Some(entries_view(v@)),
{
    let mut out = Vec::new();
    let mut archive = tar::Archive::new(data.as_slice());
    for entry in archive.entries().map_err(|e| e.to_string())? {
        let mut file = entry.map_err(|e| e.to_string())?;
        if file.header().entry_type().is_file() {
            let path = file.path().map_err(|e| e.to_string())?.to_string_lossy().into_owned();
            let mut content = Vec::new();
            std::io::Read::read_to_end(&mut file, &mut content).map_err(|e| e.to_string())?;
            out.push((path, content));
        }
    }
    Ok(out)
}

/// Relies on ureq's `get`: one blocking GET of `url`, returning the response
/// body (up to ureq's default body-size limit); a transport failure, a
/// non-success status, or an over-limit body comes back as its message.  What
/// comes back depends on the network, so nothing is stated of the value.
#[verifier::external_body]
fn http_get_bytes(url: &str) -> (r: Result<Vec<u8>, String>) {
    match ureq::get(url).call() {
        Ok(resp) => resp.into_body().read_to_vec().map_err(|e| e.to_string()),
        Err(e) => Err(e.to_string()),
    }
}

/// The regular-file entries of a gzip-compressed tar stream, when the stream
/// decompresses and unpacks cleanly.
pub open spec fn archive_files(data: Seq<u8>) -> Option<Seq<(Seq<char>, Seq<u8>)>> {
    match gunzip_of(data) {
        Some(t) => untar_of(t),
        None => None,
    }
}

/// Decompresses and unpacks one fetched archive into a file set, normalizing
/// every entry path; a stream that neither gunzips nor untars cleanly is a
/// malformed archive.
pub fn unpack_archive(data: &Vec<u8>) -> (r: Result<FileSet, PackageError>)
    ensures
        r is Ok <==> archive_files(data@) is Some,
        archive_files(data@) matches Some(entries) ==> (r matches Ok(fs) && fs@ == ingest_map(
            entries,
        ) && fs.wf()),
        r is Err ==> (r matches Err(e) && e is MalformedArchive),
{
    let decompressed = match gunzip(data) {
        Ok(v) => v,
        Err(m) => {
            return Err(PackageError::MalformedArchive(m));
        },
    };
    let entries = match untar_regular_files(&decompressed) {
        Ok(v) => v,
        Err(m) => {
            return Err(PackageError::MalformedArchive(m));
        },
    };
    Ok(FileSet::from_entries(entries))
}

/// Fetches `spec`'s archive from the registry and unpacks it.  The bytes that
/// come back depend on the network, so the contract states what holds of
/// every outcome: a well-formed file set, or the most specific terminal
/// error — `NetworkFailed` when the registry was unreachable or answered with
/// a failure, `MalformedArchive` when the stream would not unpack.
pub fn download_package(spec: &PackageSpec) -> (r: Result<FileSet, PackageError>)
    ensures
        r matches Ok(fs) ==> fs.wf(),
        r matches Err(e) ==> (e is NetworkFailed || e is MalformedArchive),
{
    let url = package_url(spec);
    let body = match http_get_bytes(url.as_str()) {
        Ok(v) => v,
        Err(m) => {
            return Err(PackageError::NetworkFailed(m));
        },
    };
    unpack_archive(&body)
}

} // verus!
