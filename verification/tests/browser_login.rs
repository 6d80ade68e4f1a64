//! The browser: how it is started, what is asked of it, what it says.

use ram_ui::browser_login::{
    acknowledges, attach_request, browser_address, check_disk_cookie, chromium_args,
    chromium_places, close_request, cookie_files, cookies_request, enable_request, endpoint_wait,
    find_chromium, handed_cookie, list_url, login_outcome, navigate_request, page_address,
    progress_text, release_url, run_browse_as_child, run_child, scan_message, set_cookie_request,
    status_update, version_url, LoginOutcome, LoginWatch, Place, Progress, Scan, Stage, Turn,
    ACK_TIMEOUT, LOGIN_TIMEOUT,
};

const COOKIE: &str = "_|WARNING:-DO-NOT-SHARE-THIS!--.ABCDEF0123456789ABCDEF0123456789";

#[test]
fn exit_codes_tell_whether_it_went_well() {
    assert_eq!(run_child(&Ok(())), 0);
    assert_eq!(run_child(&Err("no".into())), 1);
    assert_eq!(run_browse_as_child(&Ok(())), 0);
    assert_eq!(run_browse_as_child(&Err("no".into())), 1);
}

#[test]
fn a_status_is_passed_on_when_it_is_new() {
    assert_eq!(status_update("", " Starting \n").as_deref(), Some("Starting"));
    assert_eq!(status_update("Starting", "Starting"), None);
    assert_eq!(status_update("Starting", "  "), None);
}

#[test]
fn a_login_succeeds_with_what_it_left() {
    assert!(matches!(login_outcome(Some(" c \n")), LoginOutcome::Success(c) if c == "c"));
    assert!(matches!(login_outcome(Some("  ")), LoginOutcome::Cancelled));
    assert!(matches!(login_outcome(None), LoginOutcome::Cancelled));
}

#[test]
fn a_packed_image_unpacks_itself() {
    let args = chromium_args("/x/Chromium.AppImage", "/p", 9222, "about:blank");
    assert_eq!(
        args,
        vec![
            "--appimage-extract-and-run",
            "--remote-debugging-port=9222",
            "--user-data-dir=/p",
            "--no-first-run",
            "--no-default-browser-check",
            "--password-store=basic",
            "about:blank",
        ]
    );
    assert_eq!(chromium_args("/usr/bin/chromium", "/p", 1, "u").len(), 6);
}

#[test]
fn a_browser_is_looked_for_in_order() {
    let places = chromium_places();
    assert_eq!(places.len(), 20);
    assert!(matches!(&places[0], Place::Variable(v) if v == "UNGOOGLED_CHROMIUM_PATH"));
    assert!(matches!(&places[2], Place::Data(v) if v == "chromium/ungoogled-chromium.AppImage"));
    assert!(matches!(&places[4], Place::System(v) if v == "/usr/bin/ungoogled-chromium"));
    assert!(matches!(&places[7], Place::System(v) if v == "/snap/bin/ungoogled-chromium"));
    assert!(matches!(&places[19], Place::System(v) if v == "/snap/bin/google-chrome"));
    assert_eq!(find_chromium(&vec![false, true, true]), Some(1));
    assert_eq!(find_chromium(&vec![false]), None);
}

#[test]
fn the_image_of_a_release_is_picked() {
    let text = r#"{"assets":[
        {"name":"notes.txt","browser_download_url":"a"},
        {"name":"chromium-x86_64.zip","browser_download_url":"b"},
        {"name":"chromium-x86_64.AppImage","browser_download_url":"c"}]}"#;
    let release_url = |text: &str| release_url(Ok(text.to_string()));
    assert_eq!(release_url(text), Ok("c".to_string()));
    assert_eq!(
        release_url(r#"{"assets":7}"#),
        Err("No assets found in GitHub release".to_string())
    );
    assert_eq!(
        release_url(r#"{"assets":[{"name":"arm64.AppImage"}, 3]}"#),
        Err("No x86_64 AppImage asset found in release".to_string())
    );
    assert_eq!(
        release_url(r#"{"assets":[{"name":"x86_64.AppImage","browser_download_url":5}]}"#),
        Err("Missing download URL for asset".to_string())
    );
}

#[test]
fn a_release_that_is_no_json_is_said_to_be_unreadable() {
    assert_eq!(
        release_url(Err("expected value at line 1 column 1".to_string())),
        Err("failed to parse GitHub release JSON: expected value at line 1 column 1".to_string())
    );
}

#[test]
fn addresses_are_read_from_the_browser() {
    assert_eq!(version_url(9222), "http://127.0.0.1:9222/json/version");
    assert_eq!(list_url(80), "http://127.0.0.1:80/json/list");
    assert_eq!(
        browser_address(r#"{"webSocketDebuggerUrl":"ws:\/\/x","n":1}"#).as_deref(),
        Some("ws://x")
    );
    assert_eq!(browser_address("[]"), None);
    let list = r#"[{"type":"worker","webSocketDebuggerUrl":"a"},
                   {"type":"page"},
                   {"type":"page","webSocketDebuggerUrl":"b"}]"#;
    assert_eq!(page_address(list).as_deref(), Some("b"));
    assert_eq!(page_address("{}"), None);
    assert_eq!(page_address("[]"), None);
}

#[test]
fn a_port_that_does_not_open_is_given_up() {
    assert_eq!(endpoint_wait(14_999, false, "u"), Ok(()));
    assert_eq!(
        endpoint_wait(15_000, false, "u"),
        Err("Timed out waiting for CDP endpoint at u".to_string())
    );
    assert_eq!(
        endpoint_wait(15_000, true, "u"),
        Err("Timed out waiting for page CDP endpoint at u".to_string())
    );
}

#[test]
fn requests_are_the_json_that_the_browser_takes() {
    let value: serde_json::Value = serde_json::from_str(&attach_request()).unwrap();
    assert_eq!(value["id"], 1);
    assert_eq!(value["method"], "Target.setAutoAttach");
    assert_eq!(value["params"]["autoAttach"], true);
    assert_eq!(value["params"]["waitForDebuggerOnStart"], false);
    assert_eq!(value["params"]["flatten"], true);
    assert_eq!(
        cookies_request(7),
        r#"{"id":7,"method":"Storage.getCookies","params":{}}"#
    );
    assert_eq!(close_request(), r#"{"id":9999,"method":"Browser.close","params":{}}"#);
    assert_eq!(enable_request(), r#"{"id":1,"method":"Network.enable","params":{}}"#);
    assert_eq!(
        navigate_request(),
        r#"{"id":3,"method":"Page.navigate","params":{"url":"https://www.roblox.com/home"}}"#
    );
}

#[test]
fn a_cookie_is_quoted_into_its_request() {
    let cookie = "a\"b\\c\n\u{e9}";
    let value: serde_json::Value = serde_json::from_str(&set_cookie_request(cookie)).unwrap();
    assert_eq!(value["id"], 2);
    assert_eq!(value["method"], "Network.setCookie");
    assert_eq!(value["params"]["value"], cookie);
    assert_eq!(value["params"]["name"], ".ROBLOSECURITY");
    assert_eq!(value["params"]["domain"], ".roblox.com");
    assert_eq!(value["params"]["path"], "/");
    assert_eq!(value["params"]["secure"], true);
    assert_eq!(value["params"]["httpOnly"], true);
}

#[test]
fn a_cookie_in_the_text_of_a_message_comes_first() {
    let text = format!("set-cookie: {COOKIE}; path=/");
    assert!(matches!(scan_message(&text), Scan::Cookie(c) if c == COOKIE));
}

#[test]
fn a_reported_cookie_is_taken() {
    let text = r#"{"id":2,"result":{"cookies":[
        {"name":"other","value":"x"},
        {"name":".ROBLOSECURITY","value":"  "},
        {"name":".ROBLOSECURITY","value":" short "}]}}"#;
    assert!(matches!(scan_message(text), Scan::Cookie(c) if c == "short"));
}

#[test]
fn an_answer_without_a_cookie_ends_the_look() {
    assert!(matches!(scan_message(r#"{"id":2,"result":{"cookies":[]}}"#), Scan::Answered));
    assert!(matches!(scan_message(r#"{"id":null}"#), Scan::Answered));
    assert!(matches!(scan_message(r#"{"method":"event"}"#), Scan::More));
    assert!(matches!(scan_message("not json"), Scan::More));
    assert!(matches!(scan_message(r#"[{"id":2}]"#), Scan::More));
}

#[test]
fn the_first_cookie_on_disk_is_found() {
    assert_eq!(cookie_files().len(), 8);
    assert_eq!(cookie_files()[0], "Default/Network/Cookies");
    assert_eq!(cookie_files()[7], "Cookies-wal");
    let mut bytes = vec![0xff, 0x00];
    bytes.extend_from_slice(COOKIE.as_bytes());
    bytes.push(0);
    assert_eq!(
        check_disk_cookie(&vec![None, Some(vec![1, 2, 3]), Some(bytes)]).as_deref(),
        Some(COOKIE)
    );
    assert_eq!(check_disk_cookie(&vec![None, Some(Vec::new())]), None);
}

#[test]
fn a_login_is_waited_for_turn_by_turn() {
    let mut watch = LoginWatch::new();
    assert!(matches!(
        watch.turn(0, false, None),
        Turn::Ask(text) if text == r#"{"id":2,"method":"Storage.getCookies","params":{}}"#
    ));
    assert!(matches!(
        watch.turn(50, false, None),
        Turn::Ask(text) if text == r#"{"id":3,"method":"Storage.getCookies","params":{}}"#
    ));
    assert!(matches!(
        watch.turn(100, false, Some("c".into())),
        Turn::Save { cookie, close: true } if cookie == "c"
    ));
    assert!(matches!(
        watch.turn(100, true, Some("c".into())),
        Turn::Save { close: false, .. }
    ));
    assert!(matches!(watch.turn(100, true, None), Turn::Stop));
    assert!(matches!(watch.turn(LOGIN_TIMEOUT, false, Some("c".into())), Turn::Stop));
}

#[test]
fn an_empty_cookie_is_not_handed_over() {
    assert_eq!(handed_cookie(" c \n"), Ok("c".to_string()));
    assert_eq!(handed_cookie(" \n"), Err("empty cookie hand-off".to_string()));
}

#[test]
fn only_the_number_acknowledges() {
    assert!(acknowledges(r#"{"id":2,"result":{}}"#, 2));
    assert!(!acknowledges(r#"{"id":3}"#, 2));
    assert!(!acknowledges(r#"{"id":"2"}"#, 2));
    assert!(!acknowledges(r#"{"id":2.0}"#, 2));
    assert!(!acknowledges("", 2));
}

#[test]
fn a_page_waits_for_the_cookie() {
    let first = Stage::first(1_000);
    assert_eq!(first, Stage::Cookie { until: 1_000 + ACK_TIMEOUT });
    assert_eq!(first.next(1_500, Some(1)), (first, false));
    let page = Stage::Page { until: 2_000 + ACK_TIMEOUT };
    assert_eq!(first.next(2_000, Some(2)), (page, true));
    assert_eq!(first.next(4_000, None), (Stage::Page { until: 7_000 }, true));
    assert_eq!(page.next(2_500, Some(2)), (page, false));
    assert_eq!(page.next(2_500, Some(3)), (Stage::Open, false));
    assert_eq!(page.next(5_000, None), (Stage::Open, false));
    assert_eq!(Stage::Open.next(9_000, Some(2)), (Stage::Open, false));
}

#[test]
fn progress_is_said() {
    assert_eq!(progress_text(Progress::Locating), "Locating Ungoogled Chromium installation...");
    assert_eq!(progress_text(Progress::Waiting), "Sign in to Roblox in Ungoogled Chromium.");
}
