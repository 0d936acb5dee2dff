use zju_connect_gui::backend::browser_detect::{
    classify_browser, detect_installed_browsers, display_name, linux_picker_result,
    macos_known_paths, picker_outcome, unix_candidate_groups, unix_search_dirs,
    windows_known_paths, BrowserKind, PickerOutcome, NO_PICKER_MESSAGE,
};

#[test]
fn classify_recognizes_chrome_family() {
    assert_eq!(classify_browser("chrome.exe"), Some(BrowserKind::Chrome));
    assert_eq!(
        classify_browser(r"C:\Program Files\Google\Chrome\Application\chrome.exe"),
        Some(BrowserKind::Chrome)
    );
    assert_eq!(classify_browser("chromium"), Some(BrowserKind::Chrome));
    assert_eq!(
        classify_browser(r"C:\Program Files (x86)\Microsoft\Edge\Application\msedge.exe"),
        Some(BrowserKind::Chrome)
    );
    assert_eq!(
        classify_browser("/usr/bin/microsoft-edge-stable"),
        Some(BrowserKind::Chrome)
    );
    assert_eq!(classify_browser("brave-browser"), Some(BrowserKind::Chrome));
    assert_eq!(
        classify_browser("/usr/bin/vivaldi-stable"),
        Some(BrowserKind::Chrome)
    );
    assert_eq!(classify_browser("opera"), Some(BrowserKind::Chrome));
}

#[test]
fn classify_recognizes_firefox_family() {
    assert_eq!(classify_browser("firefox"), Some(BrowserKind::Firefox));
    assert_eq!(
        classify_browser(r"C:\Program Files\Mozilla Firefox\firefox.exe"),
        Some(BrowserKind::Firefox)
    );
    assert_eq!(classify_browser("firefox-esr"), Some(BrowserKind::Firefox));
    assert_eq!(
        classify_browser("/usr/bin/librewolf"),
        Some(BrowserKind::Firefox)
    );
    assert_eq!(classify_browser("waterfox"), Some(BrowserKind::Firefox));
    assert_eq!(
        classify_browser("/usr/bin/tor-browser"),
        Some(BrowserKind::Firefox)
    );
    assert_eq!(classify_browser("/usr/bin/zen"), Some(BrowserKind::Firefox));
    assert_eq!(
        classify_browser("/usr/bin/zen-browser"),
        Some(BrowserKind::Firefox)
    );
}

#[test]
fn classify_rejects_unknown_binaries() {
    assert_eq!(classify_browser(""), None);
    assert_eq!(classify_browser("/usr/bin/notepad"), None);
    assert_eq!(classify_browser(r"C:\Windows\System32\cmd.exe"), None);
    assert_eq!(classify_browser("/usr/bin/python3"), None);
}

#[test]
fn display_name_maps_known_binaries() {
    assert_eq!(
        display_name("/usr/bin/google-chrome-stable"),
        "Google Chrome"
    );
    assert_eq!(
        display_name(r"C:\Program Files\Mozilla Firefox\firefox.exe"),
        "Firefox"
    );
    assert_eq!(display_name("/opt/somethingweird/bin/custom"), "custom");
}

#[test]
fn detect_returns_sorted_results_without_panicking() {
    let found = vec![
        "/usr/bin/firefox".to_string(),
        "/usr/bin/google-chrome".to_string(),
        "/usr/bin/notepad".to_string(),
        "/usr/bin/chromium".to_string(),
        "/USR/BIN/FIREFOX".to_string(),
    ];
    let browsers = detect_installed_browsers(found);
    let rank = |k: BrowserKind| match k {
        BrowserKind::Chrome => 0,
        BrowserKind::Firefox => 1,
    };
    for pair in browsers.windows(2) {
        assert!(
            (rank(pair[0].kind), pair[0].name.as_str())
                <= (rank(pair[1].kind), pair[1].name.as_str())
        );
    }
    assert_eq!(browsers.len(), 3);
    assert_eq!(browsers[0].name, "Chromium");
    assert_eq!(browsers[1].name, "Google Chrome");
    assert_eq!(browsers[2].path, "/usr/bin/firefox");
    assert_eq!(browsers[2].kind, BrowserKind::Firefox);
}

#[test]
fn unix_search_dirs_follow_path_then_well_known_dirs() {
    let dirs = unix_search_dirs(vec!["/usr/bin".to_string()], Some("/home/alice"));
    assert_eq!(dirs.first().map(String::as_str), Some("/usr/bin"));
    assert_eq!(dirs[1], "/usr/local/bin");
    assert_eq!(dirs.last().map(String::as_str), Some("/home/alice/bin"));
    assert_eq!(dirs.len(), 8);
    let no_home = unix_search_dirs(Vec::new(), None);
    assert_eq!(no_home.last().map(String::as_str), Some("~/bin"));
}

#[test]
fn unix_candidate_groups_list_every_name_in_every_dir() {
    let dirs = vec!["/usr/bin".to_string(), "/opt/x/".to_string()];
    let groups = unix_candidate_groups(&dirs);
    assert_eq!(groups.len(), 24);
    assert_eq!(groups[0], vec!["/usr/bin/google-chrome", "/opt/x/google-chrome"]);
    assert_eq!(groups[15], vec!["/usr/bin/firefox", "/opt/x/firefox"]);
}

#[test]
fn windows_known_paths_use_defaults_and_backslashes() {
    let paths = windows_known_paths(None, None, Some(r"C:\Users\a\AppData\Local"));
    assert_eq!(paths.len(), 15);
    assert_eq!(paths[0], r"C:\Program Files\Google\Chrome\Application\chrome.exe");
    assert_eq!(
        paths[1],
        r"C:\Program Files (x86)\Google\Chrome\Application\chrome.exe"
    );
    assert_eq!(
        paths[2],
        r"C:\Users\a\AppData\Local\Google\Chrome\Application\chrome.exe"
    );
    let empty_local = windows_known_paths(None, None, None);
    assert_eq!(empty_local[2], r"Google\Chrome\Application\chrome.exe");
}

#[test]
fn macos_known_paths_cover_both_application_dirs() {
    let paths = macos_known_paths(Some("/Users/a"));
    assert_eq!(paths.len(), 22);
    assert_eq!(
        paths[0],
        "/Applications/Google Chrome.app/Contents/MacOS/Google Chrome"
    );
    assert_eq!(
        paths[11],
        "/Users/a/Applications/Google Chrome.app/Contents/MacOS/Google Chrome"
    );
}

#[test]
fn picker_outcomes_and_result() {
    assert_eq!(picker_outcome(false, false, b""), PickerOutcome::Missing);
    assert_eq!(picker_outcome(true, false, b"/x"), PickerOutcome::Cancelled);
    assert_eq!(picker_outcome(true, true, b"  \n"), PickerOutcome::Cancelled);
    assert_eq!(
        picker_outcome(true, true, b" /usr/bin/firefox\n"),
        PickerOutcome::Selected("/usr/bin/firefox".to_string())
    );
    let outcomes = vec![
        PickerOutcome::Missing,
        PickerOutcome::Selected("/a".to_string()),
    ];
    assert_eq!(linux_picker_result(&outcomes, false), Ok(Some("/a".to_string())));
    let none = vec![PickerOutcome::Missing, PickerOutcome::Missing, PickerOutcome::Missing];
    assert_eq!(
        linux_picker_result(&none, true),
        Err(NO_PICKER_MESSAGE.to_string())
    );
    let cancelled = vec![PickerOutcome::Cancelled];
    assert_eq!(linux_picker_result(&cancelled, false), Ok(None));
}
