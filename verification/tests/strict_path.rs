use madamiru::path::{Analysis, CommonPath, Drive, Host, StrictPath, StrictPathError};

fn repo() -> String {
    ".".to_string()
}

fn home() -> String {
    CommonPath::Home.get().unwrap()
}

fn host() -> Host {
    Host::with_home(false, ".".to_string(), CommonPath::Home.get()).unwrap()
}

fn sp(raw: &str) -> StrictPath {
    StrictPath::new(raw.to_string())
}

fn analysis(drive: Drive) -> Analysis {
    Analysis::new(Some(drive), vec!["foo".to_string(), "bar".to_string()])
}

fn analysis_3(drive: Drive) -> Analysis {
    Analysis::new(
        Some(drive),
        vec!["foo".to_string(), "bar".to_string(), "baz".to_string()],
    )
}

#[test]
fn can_check_if_it_is_a_file() {
    let host = host();
    assert!(StrictPath::new(format!("{}/src/lib.rs", repo())).is_file(&host));
    assert!(!StrictPath::new(repo()).is_file(&host));
}

#[test]
fn can_check_if_it_is_a_directory() {
    let host = host();
    assert!(StrictPath::new(repo()).is_dir(&host));
    assert!(!StrictPath::new(format!("{}/src/lib.rs", repo())).is_dir(&host));
}

#[test]
fn can_check_if_it_exists() {
    let host = host();
    assert!(StrictPath::new(repo()).exists_on_disk(&host));
    assert!(StrictPath::new(format!("{}/src/lib.rs", repo())).exists_on_disk(&host));
    assert!(!StrictPath::new(format!("{}/fake", repo())).exists_on_disk(&host));
}

#[test]
fn is_prefix_of() {
    let host = host();
    assert!(sp("/").is_prefix_of(&sp("/foo"), &host));
    assert!(sp("/foo").is_prefix_of(&sp("/foo/bar"), &host));
    assert!(!sp("/foo").is_prefix_of(&sp("/f"), &host));
    assert!(!sp("/foo").is_prefix_of(&sp("/foo"), &host));
    assert!(!sp("/foo").is_prefix_of(&sp("/bar"), &host));
    assert!(!sp("").is_prefix_of(&sp("/foo"), &host));
}

#[test]
fn is_prefix_of_with_windows_drive_letters() {
    let host = host();
    assert!(sp(r#"C:"#).is_prefix_of(&sp("C:/foo"), &host));
    assert!(sp(r#"C:/"#).is_prefix_of(&sp("C:/foo"), &host));
    assert!(sp(r#"C:\"#).is_prefix_of(&sp("C:/foo"), &host));
}

#[test]
fn is_prefix_of_with_unc_drives() {
    let host = host();
    assert!(!sp(r#"\\?\C:\foo"#).is_prefix_of(&sp("C:/foo"), &host));
    assert!(sp(r#"\\?\C:\foo"#).is_prefix_of(&sp("C:/foo/bar"), &host));
    assert!(!sp(r#"\\remote\foo"#).is_prefix_of(&sp("C:/foo"), &host));
    assert!(sp(r#"C:\"#).is_prefix_of(&sp("C:/foo"), &host));
}

#[test]
fn nearest_prefix() {
    let host = host();
    assert_eq!(
        Some(sp(r#"/foo/bar"#)),
        sp(r#"/foo/bar/baz"#).nearest_prefix(
            vec![sp(r#"/foo"#), sp(r#"/foo/bar"#), sp(r#"/foo/bar/baz"#)],
            &host
        )
    );
    assert_eq!(
        None,
        sp(r#"/foo/bar/baz"#).nearest_prefix(
            vec![sp(r#"/fo"#), sp(r#"/fooo"#), sp(r#"/foo/bar/baz"#)],
            &host
        )
    );
}

#[test]
fn can_replace() {
    let host = host();
    // Identical
    assert_eq!(sp("/foo"), sp("/foo").replace(&sp("/foo"), &sp("/foo"), &host));

    // Match
    assert_eq!(sp("/baz/bar"), sp("/foo/bar").replace(&sp("/foo"), &sp("/baz"), &host));

    // Mismatch
    assert_eq!(sp("/a"), sp("/a").replace(&sp("/ab"), &sp("/ac"), &host));

    // Linux to Windows
    assert_eq!(sp("C:/foo"), sp("/foo").replace(&sp("/"), &sp("C:"), &host));

    // Windows to Linux
    assert_eq!(sp("/foo"), sp("C:/foo").replace(&sp("C:/"), &sp("/"), &host));

    // Empty - original
    assert_eq!(sp(""), sp("").replace(&sp("/foo"), &sp("/bar"), &host));

    // Empty - find
    assert_eq!(sp("/foo"), sp("/foo").replace(&sp(""), &sp("/bar"), &host));

    // Empty - new
    assert_eq!(sp("/foo"), sp("/foo").replace(&sp("/foo"), &sp(""), &host));
}

#[test]
fn linux_style() {
    let host = host();
    let path = sp("/foo/bar");

    assert_eq!(analysis(Drive::Root), path.analyze(&host));
    assert_eq!("/foo/bar", path.display(&host));
    assert_eq!(Err(StrictPathError::Unsupported), path.access_windows(&host));
    assert_eq!(Ok("/foo/bar".to_string()), path.access_nonwindows(&host));
}

#[test]
fn windows_style_verbatim() {
    let host = host();
    let path = sp(r"\\?\share\foo\bar");

    assert_eq!(analysis(Drive::Windows(r"\\?\share".to_string())), path.analyze(&host));
    assert_eq!(r"\\?\share/foo/bar", path.display(&host));
    assert_eq!(Ok(r"\\?\share\foo\bar".to_string()), path.access_windows(&host));
    assert_eq!(Err(StrictPathError::Unsupported), path.access_nonwindows(&host));
}

#[test]
fn windows_style_verbatim_with_forward_slash() {
    let host = host();
    let path = sp(r"\\?\share/foo\bar/baz");

    assert_eq!(analysis_3(Drive::Windows(r"\\?\share".to_string())), path.analyze(&host));
    assert_eq!(r"\\?\share/foo/bar/baz", path.display(&host));
    assert_eq!(Ok(r"\\?\share\foo\bar\baz".to_string()), path.access_windows(&host));
    assert_eq!(Err(StrictPathError::Unsupported), path.access_nonwindows(&host));
}

#[test]
fn windows_style_verbatim_unc() {
    let host = host();
    let path = sp(r"\\?\UNC\server\share\foo\bar");

    assert_eq!(
        analysis(Drive::Windows(r"\\?\UNC\server\share".to_string())),
        path.analyze(&host)
    );
    assert_eq!(r"\\?\UNC\server\share/foo/bar", path.display(&host));
    assert_eq!(Ok(r"\\?\UNC\server\share\foo\bar".to_string()), path.access_windows(&host));
    assert_eq!(Err(StrictPathError::Unsupported), path.access_nonwindows(&host));
}

#[test]
fn windows_style_verbatim_unc_with_forward_slash() {
    let host = host();
    let path = sp(r"\\?\UNC\server\share/foo\bar/baz");

    assert_eq!(
        analysis_3(Drive::Windows(r"\\?\UNC\server\share".to_string())),
        path.analyze(&host)
    );
    assert_eq!(r"\\?\UNC\server\share/foo/bar/baz", path.display(&host));
    assert_eq!(
        Ok(r"\\?\UNC\server\share\foo\bar\baz".to_string()),
        path.access_windows(&host)
    );
    assert_eq!(Err(StrictPathError::Unsupported), path.access_nonwindows(&host));
}

#[test]
fn windows_style_verbatim_disk() {
    let host = host();
    let path = sp(r"\\?\C:\foo\bar");

    assert_eq!(analysis(Drive::Windows(r"C:".to_string())), path.analyze(&host));
    assert_eq!(r"C:/foo/bar", path.display(&host));
    assert_eq!(Ok(r"C:\foo\bar".to_string()), path.access_windows(&host));
    assert_eq!(Err(StrictPathError::Unsupported), path.access_nonwindows(&host));
}

#[test]
fn windows_style_verbatim_disk_with_forward_slash() {
    let host = host();
    let path = sp(r"\\?\C:/foo\bar/baz");

    assert_eq!(analysis_3(Drive::Windows(r"C:".to_string())), path.analyze(&host));
    assert_eq!(r"C:/foo/bar/baz", path.display(&host));
    assert_eq!(Ok(r"C:\foo\bar\baz".to_string()), path.access_windows(&host));
    assert_eq!(Err(StrictPathError::Unsupported), path.access_nonwindows(&host));
}

#[test]
fn windows_style_device_ns() {
    let host = host();
    let path = sp(r"\\.\COM42\foo\bar");

    assert_eq!(analysis(Drive::Windows(r"\\.\COM42".to_string())), path.analyze(&host));
    assert_eq!(r"\\.\COM42/foo/bar", path.display(&host));
    assert_eq!(Ok(r"\\.\COM42\foo\bar".to_string()), path.access_windows(&host));
    assert_eq!(Err(StrictPathError::Unsupported), path.access_nonwindows(&host));
}

#[test]
fn windows_style_device_ns_with_forward_slash() {
    let host = host();
    let path = sp(r"\\.\COM42/foo\bar/baz");

    assert_eq!(analysis_3(Drive::Windows(r"\\.\COM42".to_string())), path.analyze(&host));
    assert_eq!(r"\\.\COM42/foo/bar/baz", path.display(&host));
    assert_eq!(Ok(r"\\.\COM42\foo\bar\baz".to_string()), path.access_windows(&host));
    assert_eq!(Err(StrictPathError::Unsupported), path.access_nonwindows(&host));
}

#[test]
fn windows_style_unc() {
    let host = host();
    let path = sp(r"\\server\share\foo\bar");

    assert_eq!(analysis(Drive::Windows(r"\\server\share".to_string())), path.analyze(&host));
    assert_eq!(r"\\server\share/foo/bar", path.display(&host));
    assert_eq!(Ok(r"\\server\share\foo\bar".to_string()), path.access_windows(&host));
    assert_eq!(Err(StrictPathError::Unsupported), path.access_nonwindows(&host));
}

#[test]
fn windows_style_unc_with_forward_slash() {
    let host = host();
    let path = sp(r"\\server\share/foo\bar/baz");

    assert_eq!(
        analysis_3(Drive::Windows(r"\\server\share".to_string())),
        path.analyze(&host)
    );
    assert_eq!(r"\\server\share/foo/bar/baz", path.display(&host));
    assert_eq!(Ok(r"\\server\share\foo\bar\baz".to_string()), path.access_windows(&host));
    assert_eq!(Err(StrictPathError::Unsupported), path.access_nonwindows(&host));
}

#[test]
fn windows_style_disk() {
    let host = host();
    let path = sp(r"C:\foo\bar");

    assert_eq!(analysis(Drive::Windows(r"C:".to_string())), path.analyze(&host));
    assert_eq!(r"C:/foo/bar", path.display(&host));
    assert_eq!(Ok(r"C:\foo\bar".to_string()), path.access_windows(&host));
    assert_eq!(Err(StrictPathError::Unsupported), path.access_nonwindows(&host));
}

#[test]
fn windows_style_disk_with_forward_slash() {
    let host = host();
    let path = sp(r"C:/foo\bar/baz");

    assert_eq!(analysis_3(Drive::Windows(r"C:".to_string())), path.analyze(&host));
    assert_eq!(r"C:/foo/bar/baz", path.display(&host));
    assert_eq!(Ok(r"C:\foo\bar\baz".to_string()), path.access_windows(&host));
    assert_eq!(Err(StrictPathError::Unsupported), path.access_nonwindows(&host));
}

#[test]
fn relative_plain() {
    let host = host();
    let path = StrictPath::relative("foo".to_string(), Some("/tmp".to_string()));
    assert_eq!(
        Analysis::new(Some(Drive::Root), vec!["tmp".to_string(), "foo".to_string()]),
        path.analyze(&host)
    );
    assert_eq!("/tmp/foo".to_string(), path.display(&host));
    assert_eq!(Err(StrictPathError::Unsupported), path.access_windows(&host));
    assert_eq!(Ok("/tmp/foo".to_string()), path.access_nonwindows(&host));

    let path = StrictPath::relative("foo".to_string(), Some("C:/tmp".to_string()));
    assert_eq!(
        Analysis::new(
            Some(Drive::Windows("C:".to_string())),
            vec!["tmp".to_string(), "foo".to_string()]
        ),
        path.analyze(&host)
    );
    assert_eq!("C:/tmp/foo".to_string(), path.display(&host));
    assert_eq!(Ok(r"C:\tmp\foo".to_string()), path.access_windows(&host));
    assert_eq!(Err(StrictPathError::Unsupported), path.access_nonwindows(&host));
}

#[test]
fn relative_single_dot() {
    let host = host();
    let path = StrictPath::relative("./foo".to_string(), Some("/tmp".to_string()));
    assert_eq!(
        Analysis::new(Some(Drive::Root), vec!["tmp".to_string(), "foo".to_string()]),
        path.analyze(&host)
    );
    assert_eq!("/tmp/foo".to_string(), path.display(&host));
    assert_eq!(Err(StrictPathError::Unsupported), path.access_windows(&host));
    assert_eq!(Ok("/tmp/foo".to_string()), path.access_nonwindows(&host));

    let path = StrictPath::relative("./foo".to_string(), Some("C:/tmp".to_string()));
    assert_eq!(
        Analysis::new(
            Some(Drive::Windows("C:".to_string())),
            vec!["tmp".to_string(), "foo".to_string()]
        ),
        path.analyze(&host)
    );
    assert_eq!("C:/tmp/foo".to_string(), path.display(&host));
    assert_eq!(Ok(r"C:\tmp\foo".to_string()), path.access_windows(&host));
    assert_eq!(Err(StrictPathError::Unsupported), path.access_nonwindows(&host));
}

#[test]
fn relative_double_dot() {
    let host = host();
    let path = StrictPath::relative("../foo".to_string(), Some("/tmp/bar".to_string()));
    assert_eq!(
        Analysis::new(Some(Drive::Root), vec!["tmp".to_string(), "foo".to_string()]),
        path.analyze(&host)
    );
    assert_eq!("/tmp/foo".to_string(), path.display(&host));
    assert_eq!(Err(StrictPathError::Unsupported), path.access_windows(&host));
    assert_eq!(Ok("/tmp/foo".to_string()), path.access_nonwindows(&host));

    let path = StrictPath::relative("../foo".to_string(), Some("C:/tmp/bar".to_string()));
    assert_eq!(
        Analysis::new(
            Some(Drive::Windows("C:".to_string())),
            vec!["tmp".to_string(), "foo".to_string()]
        ),
        path.analyze(&host)
    );
    assert_eq!("C:/tmp/foo".to_string(), path.display(&host));
    assert_eq!(Ok(r"C:\tmp\foo".to_string()), path.access_windows(&host));
    assert_eq!(Err(StrictPathError::Unsupported), path.access_nonwindows(&host));
}

#[test]
fn tilde() {
    let host = host();
    let path = StrictPath::new("~".to_owned());
    assert_eq!(Ok(home()), path.access(&host));
}

#[test]
fn empty() {
    let host = host();
    let path = sp("");
    assert_eq!(Analysis::new(None, vec![]), path.analyze(&host));
    assert_eq!("".to_string(), path.display(&host));
    assert_eq!(Err(StrictPathError::Empty), path.access_windows(&host));
    assert_eq!(Err(StrictPathError::Empty), path.access_nonwindows(&host));
}

#[test]
fn extra_slashes() {
    let host = host();
    let path = sp(r"///foo\\bar/\baz");
    assert_eq!(
        Analysis::new(
            Some(Drive::Root),
            vec!["foo".to_string(), "bar".to_string(), "baz".to_string()]
        ),
        path.analyze(&host)
    );
}

#[test]
fn mixed_style() {
    let host = host();
    let path = sp(r"/foo\bar");
    assert_eq!(
        Analysis::new(Some(Drive::Root), vec!["foo".to_string(), "bar".to_string()]),
        path.analyze(&host)
    );
}

#[test]
fn linux_root_variations() {
    let host = host();
    let path = sp("/");

    assert_eq!(Analysis::new(Some(Drive::Root), vec![]), path.analyze(&host));
    assert_eq!("/", path.display(&host));
    assert_eq!(Err(StrictPathError::Unsupported), path.access_windows(&host));
    assert_eq!(Ok("/".to_string()), path.access_nonwindows(&host));

    let path = sp(r"\");

    assert_eq!(Analysis::new(Some(Drive::Root), vec![]), path.analyze(&host));
    assert_eq!("/", path.display(&host));
    assert_eq!(Err(StrictPathError::Unsupported), path.access_windows(&host));
    assert_eq!(Ok("/".to_string()), path.access_nonwindows(&host));
}

fn check_root(input: &str, output: &str) {
    let host = host();
    let path = sp(input);
    assert_eq!(
        Analysis::new(Some(Drive::Windows(output.to_string())), vec![]),
        path.analyze(&host)
    );
}

#[test]
fn windows_root_variations() {
    // Verbatim
    check_root(r"\\?\share", r"\\?\share");
    check_root(r"//?/share", r"\\?\share");

    // Verbatim UNC
    check_root(r"\\?\UNC\server\share", r"\\?\UNC\server\share");

    // Verbatim disk
    check_root(r"\\?\C:", r"C:");
    check_root(r"\\?\C:\", r"C:");
    check_root(r"//?/C:", r"C:");
    check_root(r"//?/C:/", r"C:");

    // Device NS
    check_root(r"\\.\COM42", r"\\.\COM42");
    check_root(r"//./COM42", r"\\.\COM42");

    // UNC
    check_root(r"\\server\share", r"\\server\share");
    check_root(r"//server/share", r"\\server\share");

    // Disk
    check_root(r"C:", r"C:");
    check_root(r"C:\", r"C:");
    check_root(r"C:/", r"C:");
}

#[test]
fn handles_windows_classic_path_with_extra_colon() {
    let host = host();
    let path = StrictPath::relative(
        r"C:\Users\Foo\Documents/C:\Users\Bar".to_string(),
        Some(r"\\?\C:\Users\Foo\.config\app".to_string()),
    );
    assert_eq!(Err(StrictPathError::Unsupported), path.access_windows(&host));
    assert_eq!(Err(StrictPathError::Unsupported), path.access_nonwindows(&host));
    assert_eq!("C:/Users/Foo/Documents/C:/Users/Bar", path.display(&host));
}

#[test]
fn handles_windows_unc_path_with_extra_colon() {
    let host = host();
    let path = StrictPath::relative(
        r"\\?\C:\Users\Foo\Documents\C:\Users\Bar".to_string(),
        Some(r"\\?\C:\Users\Foo\.config\app".to_string()),
    );
    assert_eq!(Err(StrictPathError::Unsupported), path.access_windows(&host));
    assert_eq!(Err(StrictPathError::Unsupported), path.access_nonwindows(&host));
    assert_eq!("C:/Users/Foo/Documents/C:/Users/Bar", path.display(&host));
}

#[test]
fn handles_nonwindows_path_with_extra_colon() {
    let host = host();
    let path = sp(r"/tmp/foo: bar.baz");
    assert_eq!(Err(StrictPathError::Unsupported), path.access_windows(&host));
    assert_eq!("/tmp/foo: bar.baz", path.access_nonwindows(&host).unwrap());
    assert_eq!("/tmp/foo: bar.baz", path.display(&host));
}
