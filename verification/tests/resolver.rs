use dioxus_typst::{
    CompileOptions, FileError, FileIdentifier, FileSet, PackageError, PackageSpec, PackageVersion,
    Resolver,
};

fn demo_spec() -> PackageSpec {
    PackageSpec::new(
        "preview".to_string(),
        "demo".to_string(),
        PackageVersion { major: 0, minor: 1, patch: 0 },
    )
}

#[test]
fn resolve_bytes_returns_seeded_file() {
    let logo = vec![137u8, 80, 78, 71];
    let options = CompileOptions::new().with_file("/logo.png".to_string(), logo.clone());
    let mut resolver = Resolver::new("= Doc".to_string(), options);
    let got = resolver.resolve_bytes(&FileIdentifier::Path("/logo.png".to_string()));
    assert_eq!(got.unwrap(), logo);
}

#[test]
fn resolve_bytes_missing_file_is_not_found() {
    let options = CompileOptions::new().with_file("/logo.png".to_string(), vec![1, 2, 3]);
    let mut resolver = Resolver::new("= Doc".to_string(), options);
    let got = resolver.resolve_bytes(&FileIdentifier::Path("/missing.png".to_string()));
    match got {
        Err(FileError::NotFound(p)) => assert_eq!(p, "/missing.png"),
        other => panic!("expected NotFound, got {:?}", other),
    }
}

#[test]
fn with_file_normalizes_relative_paths() {
    let options = CompileOptions::new().with_file("data.csv".to_string(), vec![42]);
    let mut resolver = Resolver::new(String::new(), options);
    let got = resolver.resolve_bytes(&FileIdentifier::Path("/data.csv".to_string()));
    assert_eq!(got.unwrap(), vec![42]);
}

#[test]
fn resolve_source_returns_main_verbatim() {
    let options = CompileOptions::new();
    let mut resolver = Resolver::new("= Title".to_string(), options);
    let got = resolver.resolve_source(&FileIdentifier::Main);
    assert_eq!(got.unwrap(), "= Title");
}

#[test]
fn main_is_not_path_addressable_as_source() {
    let options = CompileOptions::new();
    let mut resolver = Resolver::new("= Title".to_string(), options);
    let got = resolver.resolve_source(&FileIdentifier::Path("/main.typ".to_string()));
    match got {
        Err(FileError::NotFound(p)) => assert_eq!(p, "/main.typ"),
        other => panic!("expected NotFound, got {:?}", other),
    }
}

#[test]
fn main_is_not_byte_addressable() {
    let options = CompileOptions::new();
    let mut resolver = Resolver::new("= Title".to_string(), options);
    let got = resolver.resolve_bytes(&FileIdentifier::Main);
    assert!(matches!(got, Err(FileError::NotFound(_))));
}

#[test]
fn seeded_package_resolves_without_network() {
    let lib = b"#let answer = 42".to_vec();
    let options = CompileOptions::new()
        .with_package(demo_spec(), vec![("/lib.typ".to_string(), lib.clone())]);
    // Downloads off: the only way this can succeed is from the seeded cache.
    let mut resolver = Resolver::new(String::new(), options).with_downloads(false);
    let id = FileIdentifier::PackageFile(demo_spec(), "/lib.typ".to_string());
    assert_eq!(resolver.resolve_bytes(&id).unwrap(), lib);
    assert_eq!(resolver.resolve_source(&id).unwrap(), "#let answer = 42");
}

#[test]
fn seeded_package_paths_are_normalized() {
    let options =
        CompileOptions::new().with_package(demo_spec(), vec![("lib.typ".to_string(), vec![7])]);
    let mut resolver = Resolver::new(String::new(), options).with_downloads(false);
    let id = FileIdentifier::PackageFile(demo_spec(), "/lib.typ".to_string());
    assert_eq!(resolver.resolve_bytes(&id).unwrap(), vec![7]);
}

#[test]
fn package_file_that_is_not_text_is_invalid_encoding() {
    let options = CompileOptions::new()
        .with_package(demo_spec(), vec![("/blob.bin".to_string(), vec![0xff, 0xfe, 0x00])]);
    let mut resolver = Resolver::new(String::new(), options).with_downloads(false);
    let id = FileIdentifier::PackageFile(demo_spec(), "/blob.bin".to_string());
    assert!(matches!(resolver.resolve_source(&id), Err(FileError::InvalidEncoding)));
}

#[test]
fn unseeded_package_with_downloads_disabled_is_not_found() {
    let options = CompileOptions::new();
    let mut resolver = Resolver::new(String::new(), options).with_downloads(false);
    let id = FileIdentifier::PackageFile(demo_spec(), "/lib.typ".to_string());
    match resolver.resolve_bytes(&id) {
        Err(FileError::Package(PackageError::NotFound(s))) => {
            assert_eq!(s.name, "demo");
            assert_eq!(s.namespace, "preview");
        }
        other => panic!("expected package NotFound, got {:?}", other),
    }
}

#[test]
fn repeated_lookup_hits_the_cache() {
    let options = CompileOptions::new()
        .with_package(demo_spec(), vec![("/lib.typ".to_string(), vec![1, 2, 3])]);
    let mut resolver = Resolver::new(String::new(), options).with_downloads(false);
    let id = FileIdentifier::PackageFile(demo_spec(), "/lib.typ".to_string());
    let first = resolver.resolve_bytes(&id).unwrap();
    let second = resolver.resolve_bytes(&id).unwrap();
    assert_eq!(first, second);
    assert_eq!(second, vec![1, 2, 3]);
}

#[test]
fn today_accepts_representable_offsets_only() {
    let resolver = Resolver::new(String::new(), CompileOptions::new());
    assert!(resolver.today(None).is_some());
    assert!(resolver.today(Some(0)).is_some());
    assert!(resolver.today(Some(23)).is_some());
    assert!(resolver.today(Some(-23)).is_some());
    assert!(resolver.today(Some(24)).is_none());
    assert!(resolver.today(Some(-24)).is_none());
    assert!(resolver.today(Some(9999)).is_none());
}

#[test]
fn main_source_returns_the_bound_document() {
    let resolver = Resolver::new("= Title".to_string(), CompileOptions::new());
    assert_eq!(resolver.main_source(), "= Title");
}

#[test]
fn memory_tier_accessors_mirror_the_chain() {
    let options = CompileOptions::new().with_file("/a.bin".to_string(), vec![9]);
    let resolver = Resolver::new(String::new(), options);
    assert_eq!(resolver.static_file(&"/a.bin".to_string()).unwrap(), vec![9]);
    assert!(resolver.static_file(&"/b.bin".to_string()).is_none());
    assert!(resolver.cached_package_file(&demo_spec(), &"/lib.typ".to_string()).is_none());
}

#[test]
fn install_package_is_first_writer_wins() {
    let mut resolver = Resolver::new(String::new(), CompileOptions::new()).with_downloads(false);
    let mut first = FileSet::new();
    first.insert("/lib.typ".to_string(), vec![1]);
    resolver.install_package(demo_spec(), first);
    let mut second = FileSet::new();
    second.insert("/lib.typ".to_string(), vec![2]);
    resolver.install_package(demo_spec(), second);
    let got = resolver.cached_package_file(&demo_spec(), &"/lib.typ".to_string());
    assert_eq!(got.unwrap(), vec![1]);
}
