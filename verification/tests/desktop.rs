use gpui_template::desktop::{
    desktop_entry_text, desktop_exec_value, join_path, plan_entry_install, plan_icon_install,
    user_applications_dir, user_data_dir, user_icons_dir, DirError, Existing, InstallAction,
};
use gpui_template::text::replace;

fn ok(path: &str) -> Result<Vec<u8>, DirError> {
    Ok(path.as_bytes().to_vec())
}

#[test]
fn data_dir_prefers_xdg_data_home() {
    assert_eq!(user_data_dir(Some(b"/xdg"), Some(b"/home/u")), ok("/xdg"));
    assert_eq!(user_data_dir(Some(b""), Some(b"/home/u")), ok("/home/u/.local/share"));
    assert_eq!(user_data_dir(None, Some(b"/home/u/")), ok("/home/u/.local/share"));
    assert_eq!(user_data_dir(None, None), Err(DirError::HomeNotSet));
    assert_eq!(user_data_dir(Some(b""), None), Err(DirError::HomeNotSet));
}

#[test]
fn applications_dir() {
    assert_eq!(user_applications_dir(Some(b"/data"), None), ok("/data/applications"));
    assert_eq!(
        user_applications_dir(None, Some(b"/home/u")),
        ok("/home/u/.local/share/applications")
    );
    assert_eq!(
        user_applications_dir(Some(b""), Some(b"/home/u")),
        ok("/home/u/.local/share/applications")
    );
    let missing = user_applications_dir(None, None).unwrap_err();
    assert_eq!(missing, DirError::HomeNotSet);
    assert_eq!(missing.message(), "resolve HOME for XDG desktop file installation");
    assert_eq!(user_icons_dir(Some(b"/xdg/"), None), ok("/xdg/icons/hicolor/512x512/apps"));
}

#[test]
fn non_utf8_paths_are_kept() {
    let home: &[u8] = &[b'/', 0xff, b'h'];
    let mut expected = home.to_vec();
    expected.extend_from_slice(b"/.local/share/applications");
    assert_eq!(user_applications_dir(None, Some(home)), Ok(expected));
}

#[test]
fn path_joining() {
    assert_eq!(join_path(b"/a", b"b"), b"/a/b".to_vec());
    assert_eq!(join_path(b"/a/", b"b"), b"/a/b".to_vec());
    assert_eq!(join_path(b"", b"b"), b"b".to_vec());
    assert_eq!(join_path(b"/a", b"/b"), b"/b".to_vec());
    let expected = std::path::PathBuf::from("/a").join("b/c");
    assert_eq!(join_path(b"/a", b"b/c"), expected.to_str().unwrap().as_bytes().to_vec());
}

#[test]
fn exec_value_is_quoted_and_escaped() {
    assert_eq!(desktop_exec_value("/usr/bin/app"), "\"/usr/bin/app\"");
    assert_eq!(desktop_exec_value("/a b/\"q\"\\x"), "\"/a b/\\\"q\\\"\\\\x\"");
    assert_eq!(desktop_exec_value(""), "\"\"");
}

#[test]
fn entry_text_replaces_exec_and_icon() {
    let template = "[Desktop Entry]\nExec=hotkey-hold-app\nIcon=dev.gpui.HotkeyHoldApp\n";
    assert_eq!(
        desktop_entry_text(template, "\"/bin/x\"", "/icons/x.png"),
        "[Desktop Entry]\nExec=\"/bin/x\"\nIcon=/icons/x.png\n"
    );
    assert_eq!(desktop_entry_text("Name=x\n", "e", "i"), "Name=x\n");
}

#[test]
fn replace_matches_std() {
    for (s, from, to) in [
        ("aaa", "aa", "b"),
        ("abcabc", "bc", "X"),
        ("", "a", "b"),
        ("a\\b", "\\", "\\\\"),
        ("héllo wörld", "ö", "oe"),
    ] {
        assert_eq!(replace(s, from, to), s.replace(from, to));
    }
}

#[test]
fn install_plans() {
    let wanted = "entry".to_string();
    assert_eq!(plan_entry_install(&Existing::Found("entry".to_string()), &wanted), InstallAction::Keep);
    assert_eq!(plan_entry_install(&Existing::Found("old".to_string()), &wanted), InstallAction::Write);
    assert_eq!(plan_entry_install(&Existing::Missing, &wanted), InstallAction::Write);
    assert_eq!(plan_entry_install(&Existing::Unreadable, &wanted), InstallAction::Fail);
    let bytes = vec![1u8, 2, 3];
    assert_eq!(plan_icon_install(&Existing::Found(vec![1, 2, 3]), &bytes), InstallAction::Keep);
    assert_eq!(plan_icon_install(&Existing::Found(vec![1, 2]), &bytes), InstallAction::Write);
    assert_eq!(plan_icon_install(&Existing::Missing, &bytes), InstallAction::Write);
    assert_eq!(plan_icon_install(&Existing::Unreadable, &bytes), InstallAction::Fail);
}
