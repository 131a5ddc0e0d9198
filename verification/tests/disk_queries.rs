use madamiru::media::{resolve_playlist_placeholder, Source, SourceKind};
use madamiru::path::parse::{analyze_components, Analysis, Drive, PathComponent};
use madamiru::path::{canonical_given, Canonical, Host, StrictPath, StrictPathError};

fn host() -> Host {
    Host::with_home(false, "/work".to_string(), Some("/home/me".to_string())).unwrap()
}

#[test]
fn the_queried_path_is_the_interpreted_one() {
    let h = host();
    let p = StrictPath::new("/a/b".to_string());
    assert_eq!(Some("/real/b".to_string()), p.queried_path(&h, &Canonical::Valid("/real/b".to_string())));
    assert_eq!(Some("/a/b".to_string()), p.queried_path(&h, &Canonical::Inaccessible));
    assert_eq!(None, p.queried_path(&h, &Canonical::Unsupported));
}

#[test]
fn resolution_outcomes() {
    assert_eq!(Canonical::Unsupported, canonical_given(&Err(StrictPathError::Empty), Some("/x".to_string())));
    assert_eq!(Canonical::Inaccessible, canonical_given(&Ok("/x".to_string()), None));
    assert_eq!(
        Canonical::Valid("/y".to_string()),
        canonical_given(&Ok("/x".to_string()), Some("/y".to_string()))
    );
    let windows_only = StrictPath::new("C:/x".to_string());
    assert_eq!(Canonical::Unsupported, windows_only.canonical(&host()));
}

#[test]
fn paths_are_equivalent_to_themselves() {
    let h = host();
    let p = StrictPath::new("/no/such/place".to_string());
    assert!(p.equivalent(&p, &h));
    assert!(StrictPath::new(String::new()).equivalent(&StrictPath::new("C:/x".to_string()), &h));
    assert!(!p.is_file(&h));
    assert!(!p.is_dir(&h));
    assert!(!p.exists_on_disk(&h));
    assert_eq!(Ok("/no/such/place".to_string()), p.parent_if_file(&h).map(|q| q.raw()));
}

#[test]
fn file_names_only_for_interpretable_paths() {
    let h = host();
    let p = StrictPath::new("C:/x/y.txt".to_string());
    assert_eq!(None, p.leaf(&h));
    assert_eq!(None, p.file_stem(&h));
    assert_eq!(None, p.file_extension(&h));
    let q = StrictPath::new("/no/such/y.txt".to_string());
    assert_eq!(Some("y.txt".to_string()), q.leaf(&h));
    assert_eq!(Some("y".to_string()), q.file_stem(&h));
    assert_eq!(Some("txt".to_string()), q.file_extension(&h));
}

#[test]
fn components_fold_into_an_analysis() {
    let comps = vec![
        PathComponent::RootDir,
        PathComponent::Normal("a".to_string()),
        PathComponent::ParentDir,
        PathComponent::Normal("b".to_string()),
    ];
    assert_eq!(Analysis::new(Some(Drive::Root), vec!["b".to_string()]), analyze_components(&comps, &None, &None));
    let base = Some(Analysis::new(Some(Drive::Root), vec!["base".to_string()]));
    let home = Some(Analysis::new(Some(Drive::Root), vec!["home".to_string()]));
    let rel = vec![PathComponent::Normal("x".to_string())];
    assert_eq!(
        Analysis::new(Some(Drive::Root), vec!["base".to_string(), "x".to_string()]),
        analyze_components(&rel, &base, &home)
    );
    let tilde = vec![PathComponent::Normal("~".to_string()), PathComponent::Normal("y".to_string())];
    assert_eq!(
        Analysis::new(Some(Drive::Root), vec!["home".to_string(), "y".to_string()]),
        analyze_components(&tilde, &base, &home)
    );
}

#[test]
fn playlist_placeholder_resolves() {
    let h = host();
    let p = StrictPath::new("<playlist>/clips".to_string());
    assert_eq!("/lists/clips", resolve_playlist_placeholder(&p, Some("/lists"), &h).raw());
    assert_eq!("/work/clips", resolve_playlist_placeholder(&p, None, &h).raw());
    let q = StrictPath::new("/other".to_string());
    assert_eq!("/other", resolve_playlist_placeholder(&q, Some("/lists"), &h).raw());
}

#[test]
fn sources_change_text_and_kind() {
    let mut s = Source::new_path(StrictPath::relative("a".to_string(), Some("/b".to_string())));
    assert_eq!(SourceKind::Path, s.kind());
    s.reset("c".to_string());
    assert_eq!(Source::new_path(StrictPath::relative("c".to_string(), Some("/b".to_string()))), s);
    s.set_kind(SourceKind::Glob);
    assert_eq!(Source::Glob { pattern: "c".to_string() }, s);
    assert!(!s.is_empty());
    assert!(Source::default().is_empty());
    assert!(Source::Glob { pattern: "  ".to_string() }.is_empty());
}
