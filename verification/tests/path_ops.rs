use madamiru::path::{Canonical, CommonPath, Host, StrictPath, StrictPathError};

fn host() -> Host {
    Host::with_home(false, "/work".to_string(), Some("/home/me".to_string())).unwrap()
}

fn windows_host() -> Host {
    Host::with_home(true, r"C:\work".to_string(), Some(r"C:\Users\me".to_string())).unwrap()
}

fn sp(raw: &str) -> StrictPath {
    StrictPath::new(raw.to_string())
}

#[test]
fn host_refuses_a_home_that_starts_with_tilde() {
    assert!(Host::with_home(false, "/".to_string(), Some("~/x".to_string())).is_none());
    assert!(Host::with_home(false, "/".to_string(), Some("/home/x".to_string())).is_some());
    assert!(Host::with_home(false, "/".to_string(), None).is_some());
    assert!(Host::new(false, "/".to_string()).is_some() || CommonPath::Home.get().is_some());
}

#[test]
fn tilde_uses_the_given_home() {
    let h = host();
    assert_eq!(Ok("/home/me/docs".to_string()), sp("~/docs").access(&h));
    assert_eq!("/home/me/docs", sp("~/docs").render(&h));
}

#[test]
fn relative_path_without_basis_uses_working_directory() {
    assert_eq!(Ok("/work/a/b".to_string()), sp("a/b").access_nonwindows(&host()));
    assert_eq!(Ok(r"C:\work\a\b".to_string()), sp("a/b").access_windows(&windows_host()));
    assert_eq!(Ok(r"C:\work\a\b".to_string()), sp("a/b").access(&windows_host()));
}

#[test]
fn resolve_falls_back_to_raw() {
    let h = host();
    assert_eq!("C:/x", sp("C:/x").resolve(&h));
    assert_eq!(Err(StrictPathError::Unsupported), sp("C:/x").try_resolve(&h));
    assert_eq!("/x/y", sp("/x//y").resolve(&h));
}

#[test]
fn globbable_form() {
    let h = host();
    assert_eq!("/foo/bar", sp(r"/foo\bar\").globbable(&h));
    assert_eq!("C:/foo", sp(r"C:\foo\").globbable(&h));
}

#[test]
fn joined_appends_and_turns_slashes() {
    let p = StrictPath::relative(r"a\b".to_string(), Some("/base".to_string()));
    let j = p.joined(r"c\d");
    assert_eq!("a/b/c/d", j.raw());
    assert_eq!(Some("/base".to_string()), j.basis());
    assert_eq!(p.joined("x").joined("y"), p.joined("x/y"));
}

#[test]
fn popped_and_parent() {
    let h = host();
    assert_eq!(sp("/foo"), sp("/foo/bar").popped(&h));
    assert_eq!(sp("/"), sp("/").popped(&h));
    assert_eq!(Some(sp("/foo")), sp("/foo/bar").parent(&h));
    assert_eq!(None, sp("/").parent(&h));
    assert_eq!(sp("C:/"), sp(r"C:\foo").popped(&h));
    let rel = StrictPath::relative("tmp/foo".to_string(), Some("base".to_string()));
    assert_eq!(sp("base/base/tmp"), rel.popped(&h));
}

#[test]
fn replace_raw_prefix_cases() {
    let p = StrictPath::relative("/old/x".to_string(), Some("/b".to_string()));
    let r = p.replace_raw_prefix("/old", "/new");
    assert_eq!("/new/x", r.raw());
    assert_eq!(Some("/b".to_string()), r.basis());
    assert_eq!(p, p.replace_raw_prefix("/other", "/new"));
    assert_eq!("pre/old/x", p.replace_raw_prefix("", "pre").raw());
}

#[test]
fn is_absolute_follows_first_component() {
    assert!(sp("/a").is_absolute());
    assert!(sp(r"C:\a").is_absolute());
    assert!(sp(r"\\server\share").is_absolute());
    assert!(!sp("a/b").is_absolute());
    assert!(!sp("./a").is_absolute());
    assert!(!sp("").is_absolute());
}

#[test]
fn is_blank_cases() {
    assert!(sp("").is_blank());
    assert!(sp(" \t ").is_blank());
    assert!(!sp(" a ").is_blank());
}

#[test]
fn interpret_with_each_outcome() {
    let h = host();
    let p = sp("/a/b");
    assert_eq!(
        Ok("/real/b".to_string()),
        p.interpret_with(&h, &Canonical::Valid("/real/b".to_string()))
    );
    assert_eq!(
        Ok("/a/b".to_string()),
        p.interpret_with(&h, &Canonical::Valid(r"C:\real".to_string()))
    );
    assert_eq!(Err(StrictPathError::Unsupported), p.interpret_with(&h, &Canonical::Unsupported));
    assert_eq!(Ok("/a/b".to_string()), p.interpret_with(&h, &Canonical::Inaccessible));
    let rel = StrictPath::relative("x".to_string(), Some("/base".to_string()));
    let n = rel.normalized_with(&h, &Canonical::Unsupported);
    assert_eq!("/base/x", n.raw());
    assert_eq!(Some("/base".to_string()), n.basis());
    let i = rel.interpreted_with(&h, &Canonical::Inaccessible).unwrap();
    assert_eq!("/base/x", i.raw());
    assert!(p.equivalent_with(&sp("/a//b"), &h, &Canonical::Inaccessible, &Canonical::Inaccessible));
    assert!(!p.equivalent_with(&sp("/a/c"), &h, &Canonical::Inaccessible, &Canonical::Inaccessible));
}

#[test]
fn canonical_of_unsupported_path() {
    assert_eq!(Canonical::Unsupported, sp("C:/x").canonical(&host()));
    assert_eq!(Canonical::Inaccessible, sp("/surely/missing/path").canonical(&host()));
    assert_eq!(Err(StrictPathError::Unsupported), sp("C:/x").interpret(&host()));
    assert!(sp("/").is_dir(&host()));
    assert!(!sp("C:/x").exists_on_disk(&host()));
}

#[test]
fn file_names_of_interpreted_path() {
    let h = host();
    let p = sp("/surely/missing/clip.mkv");
    assert_eq!(Some("clip.mkv".to_string()), p.leaf(&h));
    assert_eq!(Some("clip".to_string()), p.file_stem(&h));
    assert_eq!(Some("mkv".to_string()), p.file_extension(&h));
    assert_eq!(None, sp("C:/clip.mkv").leaf(&h));
    assert_eq!(Some(sp("/surely/missing")), p.parent_raw());
    assert_eq!(Ok(p.clone()), p.parent_if_file(&h));
}

#[test]
fn rendered_keeps_basis() {
    let h = host();
    let rel = StrictPath::relative(r".\x".to_string(), Some("/b".to_string()));
    let r = rel.rendered(&h);
    assert_eq!("/b/./x", r.raw());
    assert_eq!(Some("/b".to_string()), r.basis());
}

#[test]
fn reset_keeps_basis() {
    let mut p = StrictPath::relative("a".to_string(), Some("/b".to_string()));
    p.reset("c".to_string());
    assert_eq!("c", p.raw_ref());
    assert_eq!(Some("/b".to_string()), p.basis());
}

#[test]
fn nearest_prefix_ignores_roots_and_prefers_first() {
    let h = host();
    assert_eq!(None, sp("/foo").nearest_prefix(vec![sp("/")], &h));
    assert_eq!(
        Some(StrictPath::relative("/foo".to_string(), Some("x".to_string()))),
        sp("/foo/bar").nearest_prefix(
            vec![StrictPath::relative("/foo".to_string(), Some("x".to_string())), sp("/foo")],
            &h
        )
    );
}

#[test]
fn empty_spelling_has_no_raw_parent() {
    assert!(StrictPath::new(String::new()).parent_raw().is_none());
    assert_eq!(Some("/foo".to_string()), StrictPath::new("/foo/bar".to_string()).parent_raw().map(|p| p.raw()));
}
