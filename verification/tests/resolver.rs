use tui_diagnostics::paths::{
    get_config_dir, get_data_dir, platform_directory_of, resolve_dir, DirectoryKind,
    DirectoryResolutionError, PlatformDirectories, ResolvedPath,
};

fn path(text: &str) -> ResolvedPath {
    ResolvedPath::from_text(text)
}

fn alice() -> PlatformDirectories {
    PlatformDirectories {
        data_local: b"/home/alice/.local/share/systemctl-tui".to_vec(),
        config_local: b"/home/alice/.config/systemctl-tui".to_vec(),
    }
}

// A home directory whose name is not valid UTF-8.
fn odd_home() -> PlatformDirectories {
    PlatformDirectories {
        data_local: b"/home/al\xffce/.local/share/systemctl-tui".to_vec(),
        config_local: b"/home/al\xffce/.config/systemctl-tui".to_vec(),
    }
}

fn none_found(kind: DirectoryKind) -> DirectoryResolutionError {
    DirectoryResolutionError { kind }
}

#[test]
fn data_dir_override_is_returned_unmodified() {
    let resolved = get_data_dir(Some(String::from("/tmp/some where/data")));
    assert_eq!(resolved, Ok(path("/tmp/some where/data")));
    assert_eq!(resolved.unwrap().path, b"/tmp/some where/data");
}

#[test]
fn config_dir_override_is_returned_unmodified() {
    let resolved = get_config_dir(Some(String::from("relative/../cfg/")));
    assert_eq!(resolved, Ok(path("relative/../cfg/")));
    assert_eq!(resolved.unwrap().path, b"relative/../cfg/");
}

#[test]
fn empty_override_is_taken_as_given() {
    assert_eq!(get_data_dir(Some(String::new())), Ok(ResolvedPath::new(Vec::new())));
    assert_eq!(get_config_dir(Some(String::new())), Ok(ResolvedPath::new(Vec::new())));
}

#[test]
fn override_with_unusual_characters_is_kept() {
    let given = "/data/\u{e9}t\u{e9} \"quoted\"\\back\n";
    let resolved = get_data_dir(Some(String::from(given))).unwrap();
    assert_eq!(resolved.path, given.as_bytes());
    assert_eq!(resolved.display_text(), given);
}

#[test]
fn override_wins_over_platform_directory() {
    let resolved = resolve_dir(DirectoryKind::Data, Some(String::from("/override")), Some(alice()));
    assert_eq!(resolved, Ok(path("/override")));
    let resolved = resolve_dir(DirectoryKind::Config, Some(String::from("/override")), None);
    assert_eq!(resolved, Ok(path("/override")));
}

#[test]
fn platform_directory_is_returned_without_override() {
    let data = resolve_dir(DirectoryKind::Data, None, Some(alice()));
    assert_eq!(data, Ok(path("/home/alice/.local/share/systemctl-tui")));
    let config = resolve_dir(DirectoryKind::Config, None, Some(alice()));
    assert_eq!(config, Ok(path("/home/alice/.config/systemctl-tui")));
}

#[test]
fn each_kind_takes_its_own_platform_directory() {
    let dirs = Some(alice());
    assert_eq!(
        platform_directory_of(DirectoryKind::Data, &dirs),
        Some(b"/home/alice/.local/share/systemctl-tui".to_vec())
    );
    assert_eq!(
        platform_directory_of(DirectoryKind::Config, &dirs),
        Some(b"/home/alice/.config/systemctl-tui".to_vec())
    );
    assert_eq!(platform_directory_of(DirectoryKind::Data, &None), None);
    assert_eq!(platform_directory_of(DirectoryKind::Config, &None), None);
}

#[test]
fn platform_directory_that_is_not_unicode_is_returned_as_it_is() {
    let data = resolve_dir(DirectoryKind::Data, None, Some(odd_home()));
    assert_eq!(
        data,
        Ok(ResolvedPath::new(b"/home/al\xffce/.local/share/systemctl-tui".to_vec()))
    );
    let config = resolve_dir(DirectoryKind::Config, None, Some(odd_home()));
    assert_eq!(
        config,
        Ok(ResolvedPath::new(b"/home/al\xffce/.config/systemctl-tui".to_vec()))
    );
    assert_eq!(config.unwrap().as_bytes().len(), 33);
}

#[test]
fn resolution_fails_without_override_and_platform() {
    assert_eq!(resolve_dir(DirectoryKind::Data, None, None), Err(none_found(DirectoryKind::Data)));
    assert_eq!(
        resolve_dir(DirectoryKind::Config, None, None),
        Err(none_found(DirectoryKind::Config))
    );
}

#[test]
fn resolution_errors_name_the_directory() {
    assert_eq!(
        none_found(DirectoryKind::Data).message(),
        "Unable to find data directory for systemctl-tui"
    );
    assert_eq!(
        none_found(DirectoryKind::Config).message(),
        "Unable to find config directory for systemctl-tui"
    );
}

#[test]
fn override_variables_are_named_after_the_application() {
    assert_eq!(DirectoryKind::Data.override_variable(), "SYSTEMCTL_TUI_DATA");
    assert_eq!(DirectoryKind::Config.override_variable(), "SYSTEMCTL_TUI_CONFIG");
}

#[test]
fn platform_lookup_is_made_for_this_application() {
    let expected = directories::ProjectDirs::from("com", "rgwood", "systemctl-tui");
    let data = get_data_dir(None);
    let config = get_config_dir(None);
    match expected {
        Some(dirs) => {
            let data_dir = dirs.data_local_dir().as_os_str().as_encoded_bytes().to_vec();
            let config_dir = dirs.config_local_dir().as_os_str().as_encoded_bytes().to_vec();
            assert!(data_dir.windows(13).any(|run| run == b"systemctl-tui"));
            assert!(config_dir.windows(13).any(|run| run == b"systemctl-tui"));
            assert_eq!(data, Ok(ResolvedPath::new(data_dir)));
            assert_eq!(config, Ok(ResolvedPath::new(config_dir)));
        }
        None => {
            assert_eq!(data, Err(none_found(DirectoryKind::Data)));
            assert_eq!(config, Err(none_found(DirectoryKind::Config)));
        }
    }
}

#[test]
fn resolution_gives_the_same_directory_each_time() {
    assert_eq!(get_data_dir(None), get_data_dir(None));
    assert_eq!(get_config_dir(None), get_config_dir(None));
    assert_eq!(
        get_data_dir(Some(String::from("/d"))),
        get_data_dir(Some(String::from("/d")))
    );
}

#[test]
fn resolved_path_accessors_keep_the_bytes() {
    let p = path("/var/lib/app");
    assert_eq!(p.as_bytes(), b"/var/lib/app");
    assert_eq!(p.duplicate(), p);
    assert_eq!(p.path, b"/var/lib/app");
    assert_eq!(ResolvedPath::new(b"/var/lib/app".to_vec()), p);
}

#[test]
fn path_is_shown_as_the_text_it_encodes() {
    assert_eq!(path("/var/lib/app").display_text(), "/var/lib/app");
    assert_eq!(path("").display_text(), "");
    assert_eq!(path("/d\u{e9}j\u{e0}/\u{4e2d}").display_text(), "/d\u{e9}j\u{e0}/\u{4e2d}");
}

#[test]
fn path_that_is_not_unicode_is_shown_with_replacements() {
    let odd = ResolvedPath::new(b"/home/al\xffce".to_vec());
    assert_eq!(odd.display_text(), "/home/al\u{fffd}ce");
    assert_eq!(odd.path, b"/home/al\xffce");
}
