use window_screenshot::error::ScreenshotError;
use window_screenshot::pipeline::select_window;
use window_screenshot::request::ScreenshotParams;
use window_screenshot::resolver::{accepts_window, find_window, resolve, scan, Pass};
use window_screenshot::window::WindowDescriptor;

fn window(handle: u64, app: &str, title: &str, minimized: Option<bool>) -> WindowDescriptor {
    WindowDescriptor {
        handle,
        title: Some(title.to_string()),
        application_name: Some(app.to_string()),
        is_minimized: minimized,
    }
}

#[test]
fn application_pass_comes_before_title_pass() {
    let windows = vec![
        window(1, "Other", "Foo-ish", Some(false)),
        window(2, "Foo", "Bar", Some(false)),
    ];
    assert_eq!(find_window(&windows, "Foo-ish", "Foo"), Some(1));
    let picked = resolve(&windows, "Foo-ish", "Foo").unwrap();
    assert_eq!(picked.handle, 2);
}

#[test]
fn application_pass_wins_whatever_the_order() {
    let windows = vec![
        window(1, "Foo", "Bar", Some(false)),
        window(2, "Other", "Foo-ish", Some(false)),
    ];
    assert_eq!(find_window(&windows, "Foo-ish", "Foo"), Some(0));
}

#[test]
fn unknown_state_is_taken_by_application_pass_only() {
    let windows = vec![window(7, "Editor", "Notes", None)];
    assert_eq!(find_window(&windows, "nothing like it", "editor"), Some(0));
    assert_eq!(find_window(&windows, "Notes", ""), None);
    assert_eq!(find_window(&windows, "Notes", "browser"), None);
    assert!(accepts_window(Pass::ByApplication, &windows[0], "editor"));
    assert!(!accepts_window(Pass::ByTitle, &windows[0], "notes"));
}

#[test]
fn minimized_windows_are_skipped_by_both_passes() {
    let windows = vec![
        window(1, "Editor", "Notes", Some(true)),
        window(2, "Editor", "Notes", Some(false)),
    ];
    assert_eq!(find_window(&windows, "Notes", "Editor"), Some(1));
    assert_eq!(find_window(&windows, "Notes", ""), Some(1));
    let only_minimized = vec![window(1, "Editor", "Notes", Some(true))];
    assert_eq!(find_window(&only_minimized, "Notes", "Editor"), None);
}

#[test]
fn empty_snapshot_resolves_to_nothing() {
    let windows: Vec<WindowDescriptor> = Vec::new();
    assert_eq!(find_window(&windows, "main", "app"), None);
    assert_eq!(find_window(&windows, "", ""), None);
    assert!(resolve(&windows, "main", "app").is_none());
}

#[test]
fn no_overlap_resolves_to_nothing() {
    let windows = vec![
        window(1, "Terminal", "bash", Some(false)),
        window(2, "Browser", "News", Some(false)),
    ];
    assert_eq!(find_window(&windows, "Spreadsheet", "Editor"), None);
    assert!(resolve(&windows, "Spreadsheet", "Editor").is_none());
}

#[test]
fn resolving_twice_gives_the_same_handle() {
    let windows = vec![
        window(10, "Terminal", "bash", Some(false)),
        window(11, "Editor", "Untitled", Some(false)),
        window(12, "Editor", "Untitled", Some(false)),
    ];
    let first = resolve(&windows, "untitled", "").map(|w| w.handle);
    let second = resolve(&windows, "untitled", "").map(|w| w.handle);
    assert_eq!(first, Some(11));
    assert_eq!(first, second);
    assert_eq!(find_window(&windows, "x", "edit"), find_window(&windows, "x", "edit"));
}

#[test]
fn title_pass_runs_when_application_pass_finds_nothing() {
    let windows = vec![
        window(1, "Terminal", "bash", Some(false)),
        window(2, "Browser", "Weather Report", Some(false)),
    ];
    assert_eq!(find_window(&windows, "weather", "Editor"), Some(1));
}

#[test]
fn hint_of_white_space_skips_application_pass() {
    let windows = vec![
        window(1, "My App", "first", Some(false)),
        window(2, "Other", "second", Some(false)),
    ];
    assert_eq!(find_window(&windows, "second", " "), Some(1));
    assert_eq!(find_window(&windows, "second", ""), Some(1));
    assert_eq!(find_window(&windows, "second", "\t \n"), Some(1));
}

#[test]
fn hint_is_compared_as_given() {
    let windows = vec![
        window(1, "MyApp", "first", Some(false)),
        window(2, "My App", "second", Some(false)),
    ];
    assert_eq!(find_window(&windows, "first", "y a"), Some(1));
    assert_eq!(find_window(&windows, "first", " myapp"), Some(0));
}

#[test]
fn first_match_in_listing_order_wins() {
    let windows = vec![
        window(1, "Editor", "Untitled - Draft", Some(false)),
        window(2, "Editor", "Untitled", Some(false)),
    ];
    assert_eq!(find_window(&windows, "Untitled", ""), Some(0));
}

#[test]
fn missing_texts_are_passed_over() {
    let windows = vec![
        WindowDescriptor { handle: 1, title: None, application_name: None, is_minimized: Some(false) },
        WindowDescriptor {
            handle: 2,
            title: Some("Notes".to_string()),
            application_name: None,
            is_minimized: Some(false),
        },
        WindowDescriptor {
            handle: 3,
            title: None,
            application_name: Some("Editor".to_string()),
            is_minimized: Some(false),
        },
    ];
    assert_eq!(find_window(&windows, "notes", "editor"), Some(2));
    assert_eq!(find_window(&windows, "notes", ""), Some(1));
    assert_eq!(find_window(&windows, "", ""), Some(1));
}

#[test]
fn scan_takes_a_lowered_needle() {
    let windows = vec![
        window(1, "Terminal", "bash", Some(false)),
        window(2, "Editor", "Notes", None),
        window(3, "Editor", "Notes", Some(false)),
    ];
    assert_eq!(scan(&windows, Pass::ByApplication, "editor"), Some(1));
    assert_eq!(scan(&windows, Pass::ByTitle, "notes"), Some(2));
    assert_eq!(scan(&windows, Pass::ByTitle, "Notes"), None);
    assert_eq!(scan(&windows, Pass::ByTitle, "mail"), None);
}

#[test]
fn select_window_reports_window_not_found() {
    let windows = vec![window(1, "Terminal", "bash", Some(false))];
    let mut params = ScreenshotParams::new();
    assert_eq!(select_window(&windows, "bash", &params).unwrap(), 0);
    assert!(matches!(
        select_window(&windows, "mail", &params),
        Err(ScreenshotError::WindowNotFound)
    ));
    params.application_name = Some("term".to_string());
    assert_eq!(select_window(&windows, "mail", &params).unwrap(), 0);
}
