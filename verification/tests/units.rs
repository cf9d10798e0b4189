use dioxus_typst::{
    join_messages, normalize_path, CompileError, Datetime, FileSet, PackageCache, PackageSpec,
    PackageVersion,
};

#[test]
fn normalize_prefixes_unrooted_paths() {
    assert_eq!(normalize_path("logo.png".to_string()), "/logo.png");
    assert_eq!(normalize_path("a/b/c.typ".to_string()), "/a/b/c.typ");
    assert_eq!(normalize_path(String::new()), "/");
}

#[test]
fn normalize_keeps_rooted_paths() {
    assert_eq!(normalize_path("/logo.png".to_string()), "/logo.png");
    assert_eq!(normalize_path("/".to_string()), "/");
}

#[test]
fn normalize_is_idempotent_on_samples() {
    for p in ["x", "/x", "", "/", "a/b", "//double"] {
        let once = normalize_path(p.to_string());
        let twice = normalize_path(once.clone());
        assert_eq!(once, twice);
        assert!(once.starts_with('/'));
    }
}

#[test]
fn file_set_round_trips_through_entries() {
    let mut set = FileSet::new();
    set.insert("a.txt".to_string(), vec![1]);
    set.insert("/b.txt".to_string(), vec![2, 2]);
    let entries = set.to_entries();
    let rebuilt = FileSet::from_entries(entries);
    assert_eq!(rebuilt.get(&"/a.txt".to_string()).unwrap(), &vec![1]);
    assert_eq!(rebuilt.get(&"/b.txt".to_string()).unwrap(), &vec![2, 2]);
    assert!(rebuilt.get(&"/c.txt".to_string()).is_none());
}

#[test]
fn file_set_insert_overwrites() {
    let mut set = FileSet::new();
    set.insert("/a".to_string(), vec![1]);
    set.insert("/a".to_string(), vec![2]);
    assert_eq!(set.get(&"/a".to_string()).unwrap(), &vec![2]);
}

#[test]
fn cache_merge_is_first_writer_wins() {
    let spec = PackageSpec::new(
        "preview".to_string(),
        "demo".to_string(),
        PackageVersion { major: 0, minor: 1, patch: 0 },
    );
    let mut first = FileSet::new();
    first.insert("/lib.typ".to_string(), vec![1]);
    let mut second = FileSet::new();
    second.insert("/lib.typ".to_string(), vec![2]);

    let mut cache = PackageCache::new();
    cache.merge(spec.dup(), first);
    cache.merge(spec.dup(), second);
    let got = cache.lookup(&spec, &"/lib.typ".to_string());
    assert_eq!(got.unwrap(), &vec![1]);
}

#[test]
fn cache_put_replaces_seeded_package() {
    let spec = PackageSpec::new(
        "preview".to_string(),
        "demo".to_string(),
        PackageVersion { major: 0, minor: 1, patch: 0 },
    );
    let mut first = FileSet::new();
    first.insert("/lib.typ".to_string(), vec![1]);
    let mut second = FileSet::new();
    second.insert("/lib.typ".to_string(), vec![2]);

    let mut cache = PackageCache::new();
    cache.put(spec.dup(), first);
    cache.put(spec.dup(), second);
    let got = cache.lookup(&spec, &"/lib.typ".to_string());
    assert_eq!(got.unwrap(), &vec![2]);
}

#[test]
fn datetime_validates_the_calendar() {
    assert!(Datetime::from_ymd_hms(2024, 2, 29, 0, 0, 0).is_some());
    assert!(Datetime::from_ymd_hms(2023, 2, 29, 0, 0, 0).is_none());
    assert!(Datetime::from_ymd_hms(2000, 2, 29, 0, 0, 0).is_some());
    assert!(Datetime::from_ymd_hms(1900, 2, 29, 0, 0, 0).is_none());
    assert!(Datetime::from_ymd_hms(2024, 4, 31, 0, 0, 0).is_none());
    assert!(Datetime::from_ymd_hms(2024, 12, 31, 23, 59, 59).is_some());
    assert!(Datetime::from_ymd_hms(2024, 1, 1, 24, 0, 0).is_none());
    assert!(Datetime::from_ymd_hms(2024, 1, 1, 0, 60, 0).is_none());
    assert!(Datetime::from_ymd_hms(2024, 0, 1, 0, 0, 0).is_none());
    assert!(Datetime::from_ymd_hms(2024, 13, 1, 0, 0, 0).is_none());

    let d = Datetime::from_ymd_hms(2024, 2, 29, 12, 30, 45).unwrap();
    assert_eq!((d.year, d.month, d.day), (2024, 2, 29));
    assert_eq!((d.hour, d.minute, d.second), (12, 30, 45));
}

#[test]
fn compile_error_messages_name_their_source() {
    let t = CompileError::Typst("bad math".to_string());
    assert_eq!(t.message(), "Typst compilation error: bad math");
    let p = CompileError::Package("gone".to_string());
    assert_eq!(p.message(), "Package error: gone");
}

#[test]
fn join_messages_separates_with_semicolons() {
    assert_eq!(join_messages(&vec![]), "");
    assert_eq!(join_messages(&vec!["one".to_string()]), "one");
    assert_eq!(
        join_messages(&vec!["one".to_string(), "two".to_string(), "three".to_string()]),
        "one; two; three"
    );
}
