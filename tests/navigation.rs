use twin_panels::{
    greet, location_script, startup_windows, ContentSource, NavError, NavigationDecision, Panel, Shell,
};

#[test]
fn greet_names_the_caller() {
    assert_eq!(greet("Ada"), "Hello, Ada! You've been greeted from Rust!");
    assert_eq!(greet(""), "Hello, ! You've been greeted from Rust!");
}

#[test]
fn script_assigns_location() {
    assert_eq!(
        location_script("https://example.com"),
        "window.location.href = 'https://example.com';"
    );
}

#[test]
fn script_escapes_single_quotes() {
    assert_eq!(
        location_script("https://example.com/it's'"),
        "window.location.href = 'https://example.com/it\\'s\\'';"
    );
    assert_eq!(location_script(""), "window.location.href = '';");
}

#[test]
fn error_messages() {
    assert_eq!(NavError::InvalidUrl.message(), "Invalid URL format");
    assert_eq!(NavError::WindowNotFound.message(), "Right window not found");
}

#[test]
fn launch_opens_both_panels() {
    let shell = Shell::launch();
    assert_eq!(shell.handles(), vec!["left", "right"]);
    assert!(shell.is_open(Panel::Control));
    assert!(shell.is_open(Panel::Content));
    assert_eq!(shell.location(), Some("https://google.com"));
    assert_eq!(Panel::Control.label(), "left");
    assert_eq!(Panel::Content.label(), "right");
}

#[test]
fn startup_layout() {
    let w = startup_windows();
    assert_eq!(w.len(), 2);
    assert_eq!(w[0].label, "left");
    assert_eq!(w[0].title, "Control Panel");
    assert_eq!(w[0].source, ContentSource::App);
    assert_eq!((w[0].width, w[0].height, w[0].x, w[0].y), (300, 800, 0, 0));
    assert_eq!(w[1].label, "right");
    assert_eq!(w[1].title, "Web Content");
    assert_eq!(w[1].source, ContentSource::External("https://google.com".to_string()));
    assert_eq!((w[1].width, w[1].height, w[1].x, w[1].y), (900, 800, 300, 0));
}

#[test]
fn invalid_addresses_are_refused() {
    for bad in ["", "example.com", "not a url", "http://", "://missing", "/relative/path"] {
        let mut shell = Shell::launch();
        assert_eq!(shell.navigate_webviews(bad), Err(NavError::InvalidUrl), "{}", bad);
        assert_eq!(shell.location(), Some("https://google.com"));
    }
}

#[test]
fn well_formed_addresses_are_loaded() {
    for good in ["https://example.com", "http://localhost:8080/a?b=c#d", "mailto:someone@example.com"] {
        let mut shell = Shell::launch();
        assert_eq!(shell.navigate_webviews(good), Ok(()));
        assert_eq!(shell.location(), Some(good));
    }
}

#[test]
fn missing_content_panel_is_reported_first() {
    let mut shell = Shell::launch();
    shell.close(Panel::Content);
    assert_eq!(shell.handles(), vec!["left"]);
    assert_eq!(shell.navigate_webviews("https://example.com"), Err(NavError::WindowNotFound));
    assert_eq!(shell.navigate_webviews("not a url"), Err(NavError::WindowNotFound));
    assert_eq!(shell.location(), None);
}

#[test]
fn checked_navigation_follows_the_flag() {
    let mut shell = Shell::launch();
    assert_eq!(shell.navigate_checked("https://a.org", false), Err(NavError::InvalidUrl));
    assert_eq!(shell.location(), Some("https://google.com"));
    assert_eq!(shell.navigate_checked("https://a.org", true), Ok(()));
    assert_eq!(shell.location(), Some("https://a.org"));
    shell.close(Panel::Content);
    assert_eq!(shell.navigate_checked("https://b.org", true), Err(NavError::WindowNotFound));
}

fn relayed(url: &str) -> NavigationDecision {
    NavigationDecision { allow: true, relay: Some(url.to_string()) }
}

#[test]
fn command_is_relayed_once() {
    let mut shell = Shell::launch();
    assert_eq!(shell.navigate_webviews("https://example.com"), Ok(()));
    assert_eq!(shell.on_navigation("https://example.com"), relayed("https://example.com"));
    assert_eq!(shell.location(), Some("https://example.com"));
}

#[test]
fn same_address_twice_changes_nothing_more() {
    let mut shell = Shell::launch();
    assert_eq!(shell.navigate_webviews("https://example.com"), Ok(()));
    let after_first = shell.location().map(|s| s.to_string());
    assert_eq!(shell.navigate_webviews("https://example.com"), Ok(()));
    assert_eq!(shell.location().map(|s| s.to_string()), after_first);
}

#[test]
fn in_panel_navigation_is_relayed() {
    let mut shell = Shell::launch();
    assert_eq!(shell.on_navigation("https://example.com/page"), relayed("https://example.com/page"));
    assert_eq!(shell.on_navigation("https://example.com/other"), relayed("https://example.com/other"));
    assert_eq!(shell.location(), Some("https://example.com/other"));
}

#[test]
fn closed_control_panel_is_not_told() {
    let mut shell = Shell::launch();
    shell.close(Panel::Control);
    assert_eq!(shell.handles(), vec!["right"]);
    assert_eq!(shell.on_navigation("https://example.com"), NavigationDecision { allow: true, relay: None });
    assert_eq!(shell.location(), Some("https://example.com"));
}

#[test]
fn closed_content_panel_sees_nothing() {
    let mut shell = Shell::launch();
    shell.close(Panel::Content);
    assert_eq!(shell.on_navigation("https://example.com"), NavigationDecision { allow: true, relay: None });
    assert_eq!(shell.location(), None);
}

#[test]
fn script_escapes_backslashes_and_line_breaks() {
    assert_eq!(
        location_script("https://a.com/\\';alert(1)//"),
        "window.location.href = 'https://a.com/\\\\\\';alert(1)//';"
    );
    assert_eq!(location_script("a\nb\rc\\"), "window.location.href = 'a\\nb\\rc\\\\';");
}

#[test]
fn script_for_an_accepted_address_with_a_backslash() {
    let address = "https://a.com/\\';alert(1)//";
    let mut shell = Shell::launch();
    let script = shell.navigation_script(address).unwrap();
    assert_eq!(script, "window.location.href = 'https://a.com/\\\\\\';alert(1)//';");
    assert_eq!(shell.location(), Some("https://google.com"));
    assert_eq!(shell.navigate_webviews(address), Ok(()));
}

#[test]
fn script_is_refused_as_the_command_is() {
    let mut shell = Shell::launch();
    assert_eq!(shell.navigation_script("not a url"), Err(NavError::InvalidUrl));
    assert_eq!(
        shell.navigation_script("https://example.com"),
        Ok("window.location.href = 'https://example.com';".to_string())
    );
    shell.close(Panel::Content);
    assert_eq!(shell.navigation_script("https://example.com"), Err(NavError::WindowNotFound));
    assert_eq!(shell.navigation_script("not a url"), Err(NavError::WindowNotFound));
}
