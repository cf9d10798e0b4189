use std::io::Write;

use dioxus_typst::{
    download_package, unpack_archive, PackageError, PackageSpec, PackageVersion,
};
use dioxus_typst::package::{cache_dir, package_dir, package_rel_path, package_url, version_string};

fn spec(namespace: &str, name: &str, major: u32, minor: u32, patch: u32) -> PackageSpec {
    PackageSpec::new(
        namespace.to_string(),
        name.to_string(),
        PackageVersion { major, minor, patch },
    )
}

fn gzipped_tar(files: &[(&str, &[u8])]) -> Vec<u8> {
    let mut builder = tar::Builder::new(Vec::new());
    for (path, content) in files {
        let mut header = tar::Header::new_gnu();
        header.set_size(content.len() as u64);
        header.set_mode(0o644);
        header.set_cksum();
        builder.append_data(&mut header, path, *content).unwrap();
    }
    let tar_bytes = builder.into_inner().unwrap();
    let mut encoder = flate2::write::GzEncoder::new(Vec::new(), flate2::Compression::default());
    encoder.write_all(&tar_bytes).unwrap();
    encoder.finish().unwrap()
}

#[test]
fn version_string_is_dotted_decimal() {
    assert_eq!(version_string(&PackageVersion { major: 0, minor: 1, patch: 0 }), "0.1.0");
    assert_eq!(
        version_string(&PackageVersion { major: 12, minor: 345, patch: 6789 }),
        "12.345.6789"
    );
}

#[test]
fn package_url_names_the_registry_archive() {
    assert_eq!(
        package_url(&spec("preview", "demo", 0, 1, 0)),
        "https://packages.typst.org/preview/demo-0.1.0.tar.gz"
    );
    assert_eq!(
        package_url(&spec("preview", "cetz", 10, 20, 30)),
        "https://packages.typst.org/preview/cetz-10.20.30.tar.gz"
    );
}

#[test]
fn package_rel_path_mirrors_the_identifier() {
    assert_eq!(package_rel_path(&spec("preview", "demo", 0, 1, 0)), "preview/demo/0.1.0");
}

#[test]
fn package_dir_extends_the_cache_root() {
    // The cache root depends on the platform; the shape around it does not.
    if let Some(root) = cache_dir() {
        assert!(root.ends_with("/typst/packages"));
        let dir = package_dir(&spec("preview", "demo", 0, 1, 0)).unwrap();
        assert_eq!(dir, format!("{}/preview/demo/0.1.0", root));
    }
}

#[test]
fn unpack_archive_extracts_regular_files() {
    let data = gzipped_tar(&[
        ("lib.typ", b"#let x = 1".as_slice()),
        ("assets/logo.bin", &[0u8, 1, 2, 3]),
    ]);
    let set = unpack_archive(&data).unwrap();
    assert_eq!(set.get(&"/lib.typ".to_string()).unwrap(), &b"#let x = 1".to_vec());
    assert_eq!(set.get(&"/assets/logo.bin".to_string()).unwrap(), &vec![0u8, 1, 2, 3]);
    assert!(set.get(&"/absent.typ".to_string()).is_none());
}

#[test]
fn unpack_archive_keeps_later_duplicate() {
    let data = gzipped_tar(&[("lib.typ", b"first".as_slice()), ("lib.typ", b"second".as_slice())]);
    let set = unpack_archive(&data).unwrap();
    assert_eq!(set.get(&"/lib.typ".to_string()).unwrap(), &b"second".to_vec());
}

#[test]
fn unpack_archive_rejects_garbage() {
    let got = unpack_archive(&vec![0u8, 1, 2, 3, 4, 5]);
    assert!(matches!(got, Err(PackageError::MalformedArchive(_))));
}

#[test]
fn unpack_archive_rejects_gzip_of_garbage_tar() {
    let mut encoder = flate2::write::GzEncoder::new(Vec::new(), flate2::Compression::default());
    encoder.write_all(&[7u8; 100]).unwrap();
    let data = encoder.finish().unwrap();
    let got = unpack_archive(&data);
    assert!(matches!(got, Err(PackageError::MalformedArchive(_))));
}

#[test]
fn download_without_registry_is_a_network_failure() {
    // No reachable registry here, and the name exists nowhere: whichever way
    // the request dies, it must surface as NetworkFailed, not hang or panic.
    let got = download_package(&spec("preview", "no-such-package-zqx", 9, 9, 9));
    assert!(matches!(got, Err(PackageError::NetworkFailed(_))));
}
