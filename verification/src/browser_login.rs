//! Logging in through a browser, and browsing as an account.
//!
//! A browser is started with a debugging port. What is asked of it, and what
//! its answers come to, is decided here; the process, the port and the files
//! are the program's.

use vstd::prelude::*;

use crate::cookies::{cookie_in, extract_cookie_from_text};
use crate::json::{
    json_elements, json_quoted, json_text, member, member_integer, member_integer_of, member_of,
    member_text, member_text_of, quote, read_elements,
};
use crate::lists::{first_where, first_where_is, first_where_none, texts_of};
use crate::text::{
    contains_text, decimal, decimal_of, holds, join2, join3, lossy, lossy_text, lower, lowercased,
    opt_text, same, trim, trimmed,
};

verus! {

/// The argument that makes this program a login window.
pub const FLAG: &'static str = "--browser-login";

/// The argument that makes this program a window of an account.
pub const BROWSE_AS_FLAG: &'static str = "--browse-as";

/// Where a login starts.
pub const LOGIN_URL: &'static str = "https://www.roblox.com/login";

/// Where browsing as an account starts.
pub const BROWSE_AS_HOME_URL: &'static str = "https://www.roblox.com/home";

/// How long a login may take, in milliseconds.
pub const LOGIN_TIMEOUT: u64 = 600_000;

/// How long a browser has to open its debugging port, in milliseconds.
pub const ENDPOINT_TIMEOUT: u64 = 15_000;

/// How long a browser has to acknowledge a request, in milliseconds.
pub const ACK_TIMEOUT: u64 = 3_000;

/// What a login window came to.
#[derive(Debug)]
pub enum LoginOutcome {
    /// The window is still open, and this is how far it got.
    Status(String),
    /// The cookie of the account that was logged in.
    Success(String),
    Cancelled,
    Failed(String),
}

// ---------------------------------------------------------------------------
// The window that waits for a login
// ---------------------------------------------------------------------------

/// The code with which the login window exits: zero if it went well.
pub fn run_child(result: &Result<(), String>) -> (code: i32)
    ensures
        code == if *result is Ok {
            0i32
        } else {
            1
        },
{
    match result {
        Ok(_) => 0,
        Err(_) => 1,
    }
}

/// The code with which the window of an account exits: zero if it went well.
pub fn run_browse_as_child(result: &Result<(), String>) -> (code: i32)
    ensures
        code == if *result is Ok {
            0i32
        } else {
            1
        },
{
    match result {
        Ok(_) => 0,
        Err(_) => 1,
    }
}

/// The status that the login window wrote, if it says something new.
pub fn status_update(last: &str, read: &str) -> (r: Option<String>)
    ensures
        opt_text(r) == if trimmed(read@).len() > 0 && trimmed(read@) != last@ {
            Some(trimmed(read@))
        } else {
            None
        },
{
    let status: String = trim(read);
    if !status.as_str().is_empty() && !same(&status, last) {
        Some(status)
    } else {
        None
    }
}

/// What a login came to, once its window is gone: the cookie that the window
/// left behind, if it left one.
pub fn login_outcome(left: Option<&str>) -> (r: LoginOutcome)
    ensures
        match left {
            Some(text) if trimmed(text@).len() > 0 => r matches LoginOutcome::Success(cookie)
                && cookie@ == trimmed(text@),
            _ => r is Cancelled,
        },
{
    match left {
        Some(text) => {
            let cookie: String = trim(text);
            if cookie.as_str().is_empty() {
                LoginOutcome::Cancelled
            } else {
                LoginOutcome::Success(cookie)
            }
        },
        None => LoginOutcome::Cancelled,
    }
}

// ---------------------------------------------------------------------------
// Starting the browser
// ---------------------------------------------------------------------------

/// The arguments with which the browser is started.
pub open spec fn arguments(
    binary: Seq<char>,
    profile: Seq<char>,
    port: u16,
    url: Seq<char>,
) -> Seq<Seq<char>> {
    (if contains_text(lowercased(binary), "appimage"@) {
        seq!["--appimage-extract-and-run"@]
    } else {
        Seq::empty()
    }) + seq![
        "--remote-debugging-port="@ + decimal(port as nat),
        "--user-data-dir="@ + profile,
        "--no-first-run"@,
        "--no-default-browser-check"@,
        "--password-store=basic"@,
        url,
    ]
}

/// The arguments with which the browser is started. A packed image unpacks
/// itself first.
pub fn chromium_args(binary: &str, profile: &str, port: u16, url: &str) -> (r: Vec<String>)
    ensures
        texts_of(r@) == arguments(binary@, profile@, port, url@),
{
    let mut r: Vec<String> = Vec::new();
    if holds(&lower(binary), "appimage") {
        r.push("--appimage-extract-and-run".to_owned());
    }
    r.push(join2("--remote-debugging-port=", &decimal_of(port as u64)));
    r.push(join2("--user-data-dir=", profile));
    r.push("--no-first-run".to_owned());
    r.push("--no-default-browser-check".to_owned());
    r.push("--password-store=basic".to_owned());
    r.push(url.to_owned());
    assert(texts_of(r@) =~= arguments(binary@, profile@, port, url@));
    r
}

/// A place where a browser may lie.
#[derive(Debug)]
pub enum Place {
    /// The path in an environment variable.
    Variable(String),
    /// A path under the program's data.
    Data(String),
    /// A path of the system.
    System(String),
}

/// What [`Place`] holds.
pub enum PlaceView {
    Variable(Seq<char>),
    Data(Seq<char>),
    System(Seq<char>),
}

impl View for Place {
    type V = PlaceView;

    open spec fn view(&self) -> PlaceView {
        match self {
            Place::Variable(s) => PlaceView::Variable(s@),
            Place::Data(s) => PlaceView::Data(s@),
            Place::System(s) => PlaceView::System(s@),
        }
    }
}

/// What a list of places holds.
pub open spec fn place_views(places: Seq<Place>) -> Seq<PlaceView> {
    places.map_values(|p: Place| p@)
}

/// The four directories in which a system keeps its programs, for one program.
pub open spec fn system_places(name: Seq<char>) -> Seq<PlaceView> {
    seq![
        PlaceView::System("/usr/bin/"@ + name),
        PlaceView::System("/usr/local/bin/"@ + name),
        PlaceView::System("/var/lib/flatpak/exports/bin/"@ + name),
        PlaceView::System("/snap/bin/"@ + name),
    ]
}

/// Where a browser is looked for, in this order: what the user named, what was
/// downloaded before, what the system has.
pub open spec fn all_places() -> Seq<PlaceView> {
    seq![
        PlaceView::Variable("UNGOOGLED_CHROMIUM_PATH"@),
        PlaceView::Variable("CHROMIUM_PATH"@),
        PlaceView::Data("chromium/ungoogled-chromium.AppImage"@),
        PlaceView::Data("chromium/chrome-linux/chrome"@),
    ] + system_places("ungoogled-chromium"@) + system_places("chromium-browser"@)
        + system_places("chromium"@) + system_places("google-chrome"@)
}

fn push_system(places: &mut Vec<Place>, name: &str)
    ensures
        place_views(final(places)@) == place_views(old(places)@) + system_places(name@),
{
    places.push(Place::System(join2("/usr/bin/", name)));
    places.push(Place::System(join2("/usr/local/bin/", name)));
    places.push(Place::System(join2("/var/lib/flatpak/exports/bin/", name)));
    places.push(Place::System(join2("/snap/bin/", name)));
    assert(place_views(places@) =~= place_views(old(places)@) + system_places(name@));
}

/// Where a browser is looked for, in order.
pub fn chromium_places() -> (r: Vec<Place>)
    ensures
        place_views(r@) == all_places(),
{
    let mut r: Vec<Place> = Vec::new();
    r.push(Place::Variable("UNGOOGLED_CHROMIUM_PATH".to_owned()));
    r.push(Place::Variable("CHROMIUM_PATH".to_owned()));
    r.push(Place::Data("chromium/ungoogled-chromium.AppImage".to_owned()));
    r.push(Place::Data("chromium/chrome-linux/chrome".to_owned()));
    let ghost first = place_views(r@);
    push_system(&mut r, "ungoogled-chromium");
    push_system(&mut r, "chromium-browser");
    push_system(&mut r, "chromium");
    push_system(&mut r, "google-chrome");
    assert(place_views(r@) =~= all_places());
    r
}

/// Whether a place holds something.
pub open spec fn is_there() -> spec_fn(bool) -> bool {
    |b: bool| b
}

/// Which place is used, given which of them hold something: the first. `None`
/// means that a browser has to be downloaded.
pub fn find_chromium(there: &Vec<bool>) -> (r: Option<usize>)
    ensures
        match r {
            Some(i) => first_where(there@, is_there()) == Some(i as int) && i < there@.len(),
            None => first_where(there@, is_there()) is None,
        },
{
    let mut i: usize = 0;
    while i < there.len()
        invariant
            0 <= i <= there@.len(),
            forall|j: int| 0 <= j < i ==> !is_there()(#[trigger] there@[j]),
        decreases there@.len() - i,
    {
        if there[i] {
            proof {
                first_where_is(there@, is_there(), i as int);
            }
            return Some(i);
        }
        i += 1;
    }
    proof {
        first_where_none(there@, is_there());
    }
    None
}

// ---------------------------------------------------------------------------
// Downloading a browser
// ---------------------------------------------------------------------------

/// A file of a release.
#[derive(Debug)]
pub struct ReleaseAsset {
    pub name: Option<String>,
    pub url: Option<String>,
}

/// What [`ReleaseAsset`] holds.
pub struct ReleaseAssetView {
    pub name: Option<Seq<char>>,
    pub url: Option<Seq<char>>,
}

impl View for ReleaseAsset {
    type V = ReleaseAssetView;

    open spec fn view(&self) -> ReleaseAssetView {
        ReleaseAssetView { name: opt_text(self.name), url: opt_text(self.url) }
    }
}

/// What a list of files holds.
pub open spec fn asset_views(assets: Seq<ReleaseAsset>) -> Seq<ReleaseAssetView> {
    assets.map_values(|a: ReleaseAsset| a@)
}

/// Whether a text ends with another.
pub open spec fn ends_with(s: Seq<char>, end: Seq<char>) -> bool {
    end.len() <= s.len() && s.skip(s.len() - end.len()) == end
}

/// Whether a file is the packed image for this machine.
pub open spec fn is_image() -> spec_fn(ReleaseAssetView) -> bool {
    |a: ReleaseAssetView|
        a.name is Some && contains_text(a.name->Some_0, "x86_64"@) && ends_with(
            a.name->Some_0,
            ".AppImage"@,
        )
}

/// Where the packed image of a release can be had, or why it cannot.
pub open spec fn image_url(assets: Option<Seq<ReleaseAssetView>>) -> Result<Seq<char>, Seq<char>> {
    match assets {
        None => Err("No assets found in GitHub release"@),
        Some(list) => match first_where(list, is_image()) {
            None => Err("No x86_64 AppImage asset found in release"@),
            Some(i) => match list[i].url {
                None => Err("Missing download URL for asset"@),
                Some(url) => Ok(url),
            },
        },
    }
}

/// The texts of a result.
pub open spec fn result_text(r: Result<String, String>) -> Result<Seq<char>, Seq<char>> {
    match r {
        Ok(s) => Ok(s@),
        Err(s) => Err(s@),
    }
}

fn text_ends_with(s: &str, end: &str) -> (b: bool)
    ensures
        b == ends_with(s@, end@),
{
    let v: Vec<char> = crate::text::chars_of(s);
    let e: Vec<char> = crate::text::chars_of(end);
    if e.len() > v.len() {
        return false;
    }
    let at: usize = v.len() - e.len();
    assert(v@.subrange(at as int, at + e@.len()) =~= v@.skip(at as int));
    crate::text::matches_at(&v, &e, at)
}

/// Where the packed image of a release can be had.
pub fn pick_asset(assets: Option<&Vec<ReleaseAsset>>) -> (r: Result<String, String>)
    ensures
        result_text(r) == image_url(
            match assets {
                Some(list) => Some(asset_views(list@)),
                None => None,
            },
        ),
{
    let list: &Vec<ReleaseAsset> = match assets {
        None => {
            return Err("No assets found in GitHub release".to_owned());
        },
        Some(list) => list,
    };
    let ghost all = asset_views(list@);
    let mut i: usize = 0;
    while i < list.len()
        invariant
            all == asset_views(list@),
            assets == Some(list),
            0 <= i <= list@.len(),
            forall|j: int| 0 <= j < i ==> !is_image()(#[trigger] all[j]),
        decreases list@.len() - i,
    {
        assert(all[i as int] == list@[i as int]@);
        let found: bool = match &list[i].name {
            Some(name) => holds(name, "x86_64") && text_ends_with(name, ".AppImage"),
            None => false,
        };
        assert(found == is_image()(all[i as int]));
        if found {
            proof {
                first_where_is(all, is_image(), i as int);
            }
            return match &list[i].url {
                Some(url) => Ok(url.clone()),
                None => Err("Missing download URL for asset".to_owned()),
            };
        }
        i += 1;
    }
    proof {
        first_where_none(all, is_image());
    }
    Err("No x86_64 AppImage asset found in release".to_owned())
}

/// A file of a release, as JSON describes it.
pub open spec fn asset_at(text: Seq<char>) -> ReleaseAssetView {
    ReleaseAssetView {
        name: member_text_of(text, "name"@),
        url: member_text_of(text, "browser_download_url"@),
    }
}

/// The files of a list of JSON texts.
pub open spec fn assets_at(list: Seq<Seq<char>>) -> Seq<ReleaseAssetView> {
    list.map_values(|text: Seq<char>| asset_at(text))
}

/// The elements of an object's member, if it is a JSON array.
pub open spec fn member_elements_of(text: Seq<char>, key: Seq<char>) -> Option<Seq<Seq<char>>> {
    match member_of(text, key) {
        Some(raw) => json_elements(raw),
        None => None,
    }
}

fn member_elements(text: &str, key: &str) -> (r: Option<Vec<String>>)
    ensures
        match r {
            Some(list) => member_elements_of(text@, key@) == Some(texts_of(list@)),
            None => member_elements_of(text@, key@) is None,
        },
{
    match member(text, key) {
        Some(raw) => read_elements(&raw),
        None => None,
    }
}

/// The files of a release, as its description gives them.
pub open spec fn release_assets(text: Seq<char>) -> Option<Seq<ReleaseAssetView>> {
    match member_elements_of(text, "assets"@) {
        Some(list) => Some(assets_at(list)),
        None => None,
    }
}

/// Where the packed image of a release can be had, by the description of the
/// release: a JSON text, or why what came was not read as JSON.
pub fn release_url(description: Result<String, String>) -> (r: Result<String, String>)
    ensures
        result_text(r) == match description {
            Ok(text) => image_url(release_assets(text@)),
            Err(why) => Err("failed to parse GitHub release JSON: "@ + why@),
        },
{
    let text: String = match description {
        Ok(text) => text,
        Err(why) => {
            return Err(join2("failed to parse GitHub release JSON: ", &why));
        },
    };
    let list: Vec<String> = match member_elements(&text, "assets") {
        Some(list) => list,
        None => {
            return pick_asset(None);
        },
    };
    let ghost raw = texts_of(list@);
    let mut assets: Vec<ReleaseAsset> = Vec::new();
    let mut i: usize = 0;
    while i < list.len()
        invariant
            raw == texts_of(list@),
            0 <= i <= list@.len(),
            asset_views(assets@) == assets_at(raw).take(i as int),
        decreases list@.len() - i,
    {
        assert(raw[i as int] == list@[i as int]@);
        let ghost before = asset_views(assets@);
        let one: ReleaseAsset = ReleaseAsset {
            name: member_text(&list[i], "name"),
            url: member_text(&list[i], "browser_download_url"),
        };
        assert(one@ == asset_at(raw[i as int]));
        assets.push(one);
        assert(asset_views(assets@) =~= before.push(asset_at(raw[i as int])));
        i += 1;
        assert(asset_views(assets@) =~= assets_at(raw).take(i as int));
    }
    assert(asset_views(assets@) =~= assets_at(raw));
    pick_asset(Some(&assets))
}

// ---------------------------------------------------------------------------
// Finding the browser's port
// ---------------------------------------------------------------------------

/// Where the browser describes itself.
pub fn version_url(port: u16) -> (r: String)
    ensures
        r@ == "http://127.0.0.1:"@ + decimal(port as nat) + "/json/version"@,
{
    join3("http://127.0.0.1:", &decimal_of(port as u64), "/json/version")
}

/// Where the browser lists its pages.
pub fn list_url(port: u16) -> (r: String)
    ensures
        r@ == "http://127.0.0.1:"@ + decimal(port as nat) + "/json/list"@,
{
    join3("http://127.0.0.1:", &decimal_of(port as u64), "/json/list")
}

/// The address at which the browser itself takes requests.
pub fn browser_address(description: &str) -> (r: Option<String>)
    ensures
        opt_text(r) == member_text_of(description@, "webSocketDebuggerUrl"@),
{
    member_text(description, "webSocketDebuggerUrl")
}

/// Something that the browser shows.
#[derive(Debug)]
pub struct Shown {
    pub kind: Option<String>,
    pub address: Option<String>,
}

/// What [`Shown`] holds.
pub struct ShownView {
    pub kind: Option<Seq<char>>,
    pub address: Option<Seq<char>>,
}

impl View for Shown {
    type V = ShownView;

    open spec fn view(&self) -> ShownView {
        ShownView { kind: opt_text(self.kind), address: opt_text(self.address) }
    }
}

/// What a list of them holds.
pub open spec fn shown_views(list: Seq<Shown>) -> Seq<ShownView> {
    list.map_values(|s: Shown| s@)
}

/// Whether it is a page that takes requests.
pub open spec fn is_page() -> spec_fn(ShownView) -> bool {
    |s: ShownView| s.kind == Some("page"@) && s.address is Some
}

/// The address of the first page that takes requests.
pub open spec fn first_page(list: Seq<ShownView>) -> Option<Seq<char>> {
    match first_where(list, is_page()) {
        Some(i) => list[i].address,
        None => None,
    }
}

/// The address of the first page that takes requests.
pub fn pick_page(list: &Vec<Shown>) -> (r: Option<String>)
    ensures
        opt_text(r) == first_page(shown_views(list@)),
{
    let ghost all = shown_views(list@);
    let mut i: usize = 0;
    while i < list.len()
        invariant
            all == shown_views(list@),
            0 <= i <= list@.len(),
            forall|j: int| 0 <= j < i ==> !is_page()(#[trigger] all[j]),
        decreases list@.len() - i,
    {
        assert(all[i as int] == list@[i as int]@);
        let page: bool = match &list[i].kind {
            Some(kind) => same(kind, "page"),
            None => false,
        };
        match &list[i].address {
            Some(address) if page => {
                proof {
                    first_where_is(all, is_page(), i as int);
                }
                return Some(address.clone());
            },
            _ => {},
        }
        i += 1;
    }
    proof {
        first_where_none(all, is_page());
    }
    None
}

/// Something that the browser shows, as JSON describes it.
pub open spec fn shown_at(text: Seq<char>) -> ShownView {
    ShownView {
        kind: member_text_of(text, "type"@),
        address: member_text_of(text, "webSocketDebuggerUrl"@),
    }
}

/// What a list of JSON texts describes.
pub open spec fn all_shown_at(list: Seq<Seq<char>>) -> Seq<ShownView> {
    list.map_values(|text: Seq<char>| shown_at(text))
}

/// The address of the first page in the browser's own list.
pub fn page_address(listing: &str) -> (r: Option<String>)
    ensures
        opt_text(r) == match json_elements(listing@) {
            Some(list) => first_page(all_shown_at(list)),
            None => None,
        },
{
    let list: Vec<String> = match read_elements(listing) {
        Some(list) => list,
        None => {
            return None;
        },
    };
    let ghost raw = texts_of(list@);
    let mut shown: Vec<Shown> = Vec::new();
    let mut i: usize = 0;
    while i < list.len()
        invariant
            raw == texts_of(list@),
            0 <= i <= list@.len(),
            shown_views(shown@) == all_shown_at(raw).take(i as int),
        decreases list@.len() - i,
    {
        assert(raw[i as int] == list@[i as int]@);
        let ghost before = shown_views(shown@);
        let one: Shown = Shown {
            kind: member_text(&list[i], "type"),
            address: member_text(&list[i], "webSocketDebuggerUrl"),
        };
        assert(one@ == shown_at(raw[i as int]));
        shown.push(one);
        assert(shown_views(shown@) =~= before.push(shown_at(raw[i as int])));
        i += 1;
        assert(shown_views(shown@) =~= all_shown_at(raw).take(i as int));
    }
    assert(shown_views(shown@) =~= all_shown_at(raw));
    pick_page(&shown)
}

/// Whether the browser is still waited for. What is said when it is not.
pub fn endpoint_wait(elapsed: u64, page: bool, url: &str) -> (r: Result<(), String>)
    ensures
        match r {
            Ok(_) => elapsed < ENDPOINT_TIMEOUT,
            Err(e) => elapsed >= ENDPOINT_TIMEOUT && e@ == (if page {
                "Timed out waiting for page CDP endpoint at "@
            } else {
                "Timed out waiting for CDP endpoint at "@
            }) + url@,
        },
{
    if elapsed < ENDPOINT_TIMEOUT {
        Ok(())
    } else if page {
        Err(join2("Timed out waiting for page CDP endpoint at ", url))
    } else {
        Err(join2("Timed out waiting for CDP endpoint at ", url))
    }
}

// ---------------------------------------------------------------------------
// What is asked of the browser
// ---------------------------------------------------------------------------

/// A request to the browser. `params` is JSON.
pub open spec fn request_text(id: nat, method: Seq<char>, params: Seq<char>) -> Seq<char> {
    "{\"id\":"@ + decimal(id) + ",\"method\":"@ + json_quoted(method) + ",\"params\":"@ + params
        + "}"@
}

fn request(id: u64, method: &str, params: &str) -> (r: String)
    ensures
        r@ == request_text(id as nat, method@, params@),
{
    let mut r: String = join2("{\"id\":", &decimal_of(id));
    r.append(",\"method\":");
    r.append(&quote(method));
    r.append(",\"params\":");
    r.append(params);
    r.append("}");
    r
}

/// Asks to be told about everything the browser opens.
pub fn attach_request() -> (r: String)
    ensures
        r@ == request_text(
            1,
            "Target.setAutoAttach"@,
            "{\"autoAttach\":true,\"flatten\":true,\"waitForDebuggerOnStart\":false}"@,
        ),
{
    request(
        1,
        "Target.setAutoAttach",
        "{\"autoAttach\":true,\"flatten\":true,\"waitForDebuggerOnStart\":false}",
    )
}

/// Asks for every cookie of the profile.
pub fn cookies_request(id: u64) -> (r: String)
    ensures
        r@ == request_text(id as nat, "Storage.getCookies"@, "{}"@),
{
    request(id, "Storage.getCookies", "{}")
}

/// Asks the browser to close.
pub fn close_request() -> (r: String)
    ensures
        r@ == request_text(9999, "Browser.close"@, "{}"@),
{
    request(9999, "Browser.close", "{}")
}

/// Asks for the page's traffic to be opened to requests.
pub fn enable_request() -> (r: String)
    ensures
        r@ == request_text(1, "Network.enable"@, "{}"@),
{
    request(1, "Network.enable", "{}")
}

/// The parameters with which the browser is given an account's cookie.
pub open spec fn cookie_params(cookie: Seq<char>) -> Seq<char> {
    "{\"domain\":\".roblox.com\",\"httpOnly\":true,\"name\":\".ROBLOSECURITY\",\"path\":\"/\",\"secure\":true,\"value\":"@
        + json_quoted(cookie) + "}"@
}

/// Gives the browser an account's cookie. The value in the request reads back
/// as the cookie.
pub fn set_cookie_request(cookie: &str) -> (r: String)
    ensures
        r@ == request_text(2, "Network.setCookie"@, cookie_params(cookie@)),
        json_text(json_quoted(cookie@)) == Some(cookie@),
{
    let params: String = join3(
        "{\"domain\":\".roblox.com\",\"httpOnly\":true,\"name\":\".ROBLOSECURITY\",\"path\":\"/\",\"secure\":true,\"value\":",
        &quote(cookie),
        "}",
    );
    request(2, "Network.setCookie", &params)
}

/// Sends the browser to its first page.
pub fn navigate_request() -> (r: String)
    ensures
        r@ == request_text(
            3,
            "Page.navigate"@,
            "{\"url\":"@ + json_quoted(BROWSE_AS_HOME_URL@) + "}"@,
        ),
{
    let params: String = join3("{\"url\":", &quote(BROWSE_AS_HOME_URL), "}");
    request(3, "Page.navigate", &params)
}

// ---------------------------------------------------------------------------
// What the browser says
// ---------------------------------------------------------------------------

/// A cookie that the browser reports.
#[derive(Debug)]
pub struct BrowserCookie {
    pub name: Option<String>,
    pub value: Option<String>,
}

/// What [`BrowserCookie`] holds.
pub struct BrowserCookieView {
    pub name: Option<Seq<char>>,
    pub value: Option<Seq<char>>,
}

impl View for BrowserCookie {
    type V = BrowserCookieView;

    open spec fn view(&self) -> BrowserCookieView {
        BrowserCookieView { name: opt_text(self.name), value: opt_text(self.value) }
    }
}

/// What a list of cookies holds.
pub open spec fn cookie_views(cookies: Seq<BrowserCookie>) -> Seq<BrowserCookieView> {
    cookies.map_values(|c: BrowserCookie| c@)
}

/// Whether a cookie is that of an account that is logged in.
pub open spec fn is_session() -> spec_fn(BrowserCookieView) -> bool {
    |c: BrowserCookieView|
        c.name == Some(".ROBLOSECURITY"@) && c.value is Some && trimmed(c.value->Some_0).len() > 0
}

/// The cookie of the account that is logged in.
pub open spec fn session_in(cookies: Seq<BrowserCookieView>) -> Option<Seq<char>> {
    match first_where(cookies, is_session()) {
        Some(i) => Some(trimmed(cookies[i].value->Some_0)),
        None => None,
    }
}

/// The cookie of the account that is logged in.
pub fn pick_cookie(cookies: &Vec<BrowserCookie>) -> (r: Option<String>)
    ensures
        opt_text(r) == session_in(cookie_views(cookies@)),
{
    let ghost all = cookie_views(cookies@);
    let mut i: usize = 0;
    while i < cookies.len()
        invariant
            all == cookie_views(cookies@),
            0 <= i <= cookies@.len(),
            forall|j: int| 0 <= j < i ==> !is_session()(#[trigger] all[j]),
        decreases cookies@.len() - i,
    {
        assert(all[i as int] == cookies@[i as int]@);
        let ours: bool = match &cookies[i].name {
            Some(name) => same(name, ".ROBLOSECURITY"),
            None => false,
        };
        match &cookies[i].value {
            Some(value) if ours => {
                let value: String = trim(value);
                if !value.as_str().is_empty() {
                    proof {
                        first_where_is(all, is_session(), i as int);
                    }
                    return Some(value);
                }
            },
            _ => {},
        }
        i += 1;
    }
    proof {
        first_where_none(all, is_session());
    }
    None
}

/// A cookie, as JSON describes it.
pub open spec fn cookie_at(text: Seq<char>) -> BrowserCookieView {
    BrowserCookieView {
        name: member_text_of(text, "name"@),
        value: member_text_of(text, "value"@),
    }
}

/// The cookies of a list of JSON texts.
pub open spec fn cookies_at(list: Seq<Seq<char>>) -> Seq<BrowserCookieView> {
    list.map_values(|text: Seq<char>| cookie_at(text))
}

/// The cookies that a message reports.
pub open spec fn message_cookies(text: Seq<char>) -> Seq<BrowserCookieView> {
    match member_of(text, "result"@) {
        Some(result) => match member_elements_of(result, "cookies"@) {
            Some(list) => cookies_at(list),
            None => Seq::empty(),
        },
        None => Seq::empty(),
    }
}

/// The cookies that a message reports.
pub fn reported_cookies(text: &str) -> (r: Vec<BrowserCookie>)
    ensures
        cookie_views(r@) == message_cookies(text@),
{
    let mut cookies: Vec<BrowserCookie> = Vec::new();
    assert(cookie_views(cookies@) =~= Seq::<BrowserCookieView>::empty());
    let result: String = match member(text, "result") {
        Some(result) => result,
        None => {
            return cookies;
        },
    };
    let list: Vec<String> = match member_elements(&result, "cookies") {
        Some(list) => list,
        None => {
            return cookies;
        },
    };
    let ghost raw = texts_of(list@);
    let mut i: usize = 0;
    assert(cookies_at(raw).take(0) =~= Seq::<BrowserCookieView>::empty());
    while i < list.len()
        invariant
            raw == texts_of(list@),
            0 <= i <= list@.len(),
            cookie_views(cookies@) == cookies_at(raw).take(i as int),
        decreases list@.len() - i,
    {
        assert(raw[i as int] == list@[i as int]@);
        let ghost before = cookie_views(cookies@);
        let one: BrowserCookie = BrowserCookie {
            name: member_text(&list[i], "name"),
            value: member_text(&list[i], "value"),
        };
        assert(one@ == cookie_at(raw[i as int]));
        cookies.push(one);
        assert(cookie_views(cookies@) =~= before.push(cookie_at(raw[i as int])));
        i += 1;
        assert(cookie_views(cookies@) =~= cookies_at(raw).take(i as int));
    }
    assert(cookie_views(cookies@) =~= cookies_at(raw));
    cookies
}

/// What a message of the browser comes to.
#[derive(Debug)]
pub enum Scan {
    /// It holds the cookie of an account.
    Cookie(String),
    /// It answers a request. Nothing more comes for now.
    Answered,
    /// There may be more.
    More,
}

/// What [`Scan`] holds.
pub enum ScanView {
    Cookie(Seq<char>),
    Answered,
    More,
}

impl View for Scan {
    type V = ScanView;

    open spec fn view(&self) -> ScanView {
        match self {
            Scan::Cookie(cookie) => ScanView::Cookie(cookie@),
            Scan::Answered => ScanView::Answered,
            Scan::More => ScanView::More,
        }
    }
}

/// What a message comes to: a cookie anywhere in its text comes first, one that
/// it reports comes next.
pub open spec fn judged(
    text: Seq<char>,
    cookies: Seq<BrowserCookieView>,
    answers: bool,
) -> ScanView {
    match cookie_in(text) {
        Some(cookie) => ScanView::Cookie(cookie),
        None => match session_in(cookies) {
            Some(cookie) => ScanView::Cookie(cookie),
            None => if answers {
                ScanView::Answered
            } else {
                ScanView::More
            },
        },
    }
}

/// What a message comes to, given the cookies that it reports and whether it
/// answers a request.
pub fn judge(text: &str, cookies: &Vec<BrowserCookie>, answers: bool) -> (r: Scan)
    ensures
        r@ == judged(text@, cookie_views(cookies@), answers),
{
    match extract_cookie_from_text(text) {
        Some(cookie) => Scan::Cookie(cookie),
        None => match pick_cookie(cookies) {
            Some(cookie) => Scan::Cookie(cookie),
            None => if answers {
                Scan::Answered
            } else {
                Scan::More
            },
        },
    }
}

/// What a message of the browser comes to.
pub fn scan_message(text: &str) -> (r: Scan)
    ensures
        r@ == judged(text@, message_cookies(text@), member_of(text@, "id"@) is Some),
{
    let cookies: Vec<BrowserCookie> = reported_cookies(text);
    let answers: bool = match member(text, "id") {
        Some(_) => true,
        None => false,
    };
    judge(text, &cookies, answers)
}

// ---------------------------------------------------------------------------
// What the browser leaves on disk
// ---------------------------------------------------------------------------

/// The files of a profile that may hold a cookie, in the order in which they
/// are looked at.
pub open spec fn all_cookie_files() -> Seq<Seq<char>> {
    seq![
        "Default/Network/Cookies"@,
        "Default/Network/Cookies-wal"@,
        "Network/Cookies"@,
        "Network/Cookies-wal"@,
        "Default/Cookies"@,
        "Default/Cookies-wal"@,
        "Cookies"@,
        "Cookies-wal"@,
    ]
}

/// The files of a profile that may hold a cookie, in order.
pub fn cookie_files() -> (r: Vec<String>)
    ensures
        texts_of(r@) == all_cookie_files(),
{
    let mut r: Vec<String> = Vec::new();
    r.push("Default/Network/Cookies".to_owned());
    r.push("Default/Network/Cookies-wal".to_owned());
    r.push("Network/Cookies".to_owned());
    r.push("Network/Cookies-wal".to_owned());
    r.push("Default/Cookies".to_owned());
    r.push("Default/Cookies-wal".to_owned());
    r.push("Cookies".to_owned());
    r.push("Cookies-wal".to_owned());
    assert(texts_of(r@) =~= all_cookie_files());
    r
}

/// The first cookie in a list of files. `None` is a file that is not there or
/// cannot be read.
pub open spec fn disk_cookie_in(files: Seq<Option<Vec<u8>>>) -> Option<Seq<char>>
    decreases files.len(),
{
    if files.len() == 0 {
        None
    } else {
        match files[0] {
            Some(bytes) if cookie_in(lossy_text(bytes@)) is Some => cookie_in(lossy_text(bytes@)),
            _ => disk_cookie_in(files.drop_first()),
        }
    }
}

/// The first cookie in a list of files.
pub fn check_disk_cookie(files: &Vec<Option<Vec<u8>>>) -> (r: Option<String>)
    ensures
        opt_text(r) == disk_cookie_in(files@),
{
    let mut i: usize = 0;
    assert(files@.skip(0) =~= files@);
    while i < files.len()
        invariant
            0 <= i <= files@.len(),
            disk_cookie_in(files@) == disk_cookie_in(files@.skip(i as int)),
        decreases files@.len() - i,
    {
        assert(files@.skip(i as int).drop_first() =~= files@.skip(i + 1));
        match &files[i] {
            Some(bytes) => match extract_cookie_from_text(&lossy(bytes)) {
                Some(cookie) => {
                    return Some(cookie);
                },
                None => {},
            },
            None => {},
        }
        i += 1;
    }
    assert(files@.skip(i as int) =~= Seq::<Option<Vec<u8>>>::empty());
    None
}

// ---------------------------------------------------------------------------
// Waiting for a login
// ---------------------------------------------------------------------------

/// What the login window does next.
#[derive(Debug)]
pub enum Turn {
    /// Keep the cookie and stop. The browser is closed if it still runs.
    Save { cookie: String, close: bool },
    /// Give up, and close the browser.
    Stop,
    /// Send a request and look at what comes back.
    Ask(String),
}

/// A login that is waited for.
#[derive(Clone, Copy, Debug)]
pub struct LoginWatch {
    /// The number of the next request.
    pub next_id: u32,
}

/// What the login window does next: nothing after [`LOGIN_TIMEOUT`], what the
/// disk says if it says something, and else another request.
pub open spec fn turn_taken(
    s: LoginWatch,
    t: LoginWatch,
    turn: Turn,
    elapsed: u64,
    exited: bool,
    disk: Option<Seq<char>>,
) -> bool {
    if elapsed >= LOGIN_TIMEOUT {
        turn is Stop && t == s
    } else {
        match disk {
            Some(found) => {
                &&& t == s
                &&& turn matches Turn::Save { cookie, close }
                &&& cookie@ == found
                &&& close == !exited
            },
            None => if exited {
                turn is Stop && t == s
            } else {
                &&& t.next_id == s.next_id + 1
                &&& turn matches Turn::Ask(text)
                &&& text@ == request_text(s.next_id as nat, "Storage.getCookies"@, "{}"@)
            },
        }
    }
}

impl LoginWatch {
    /// A login whose first request goes out under the number after that of
    /// [`attach_request`].
    pub fn new() -> (w: LoginWatch)
        ensures
            w.next_id == 2,
    {
        LoginWatch { next_id: 2 }
    }

    /// What the login window does next. `exited` says whether the browser is
    /// gone, `disk` is the cookie in its files.
    pub fn turn(&mut self, elapsed: u64, exited: bool, disk: Option<String>) -> (turn: Turn)
        requires
            old(self).next_id < u32::MAX,
        ensures
            turn_taken(*old(self), *final(self), turn, elapsed, exited, opt_text(disk)),
    {
        if elapsed >= LOGIN_TIMEOUT {
            return Turn::Stop;
        }
        match disk {
            Some(cookie) => Turn::Save { cookie, close: !exited },
            None => if exited {
                Turn::Stop
            } else {
                let id: u32 = self.next_id;
                self.next_id = id + 1;
                Turn::Ask(cookies_request(id as u64))
            },
        }
    }
}

/// No two requests of a login go out under one number.
pub proof fn requests_are_told_apart(
    a: LoginWatch,
    b: LoginWatch,
    c: LoginWatch,
    first: Turn,
    second: Turn,
    elapsed: (u64, u64),
)
    requires
        turn_taken(a, b, first, elapsed.0, false, None),
        turn_taken(b, c, second, elapsed.1, false, None),
        first is Ask,
        second is Ask,
    ensures
        a.next_id < b.next_id < c.next_id,
{
}

/// A cookie on disk ends the wait, whether or not the browser still runs, and
/// only a browser that still runs is closed.
pub proof fn a_cookie_on_disk_is_kept(
    s: LoginWatch,
    t: LoginWatch,
    turn: Turn,
    elapsed: u64,
    exited: bool,
    found: Seq<char>,
)
    requires
        turn_taken(s, t, turn, elapsed, exited, Some(found)),
        elapsed < LOGIN_TIMEOUT,
    ensures
        turn matches Turn::Save { cookie, close } && cookie@ == found && close == !exited,
{
}

// ---------------------------------------------------------------------------
// Browsing as an account
// ---------------------------------------------------------------------------

/// The cookie that was handed over, if there is one.
pub fn handed_cookie(read: &str) -> (r: Result<String, String>)
    ensures
        result_text(r) == if trimmed(read@).len() > 0 {
            Ok::<Seq<char>, Seq<char>>(trimmed(read@))
        } else {
            Err("empty cookie hand-off"@)
        },
{
    let cookie: String = trim(read);
    if cookie.as_str().is_empty() {
        Err("empty cookie hand-off".to_owned())
    } else {
        Ok(cookie)
    }
}

/// Whether a message acknowledges the request with a number.
pub fn acknowledges(text: &str, id: i64) -> (b: bool)
    ensures
        b == (member_integer_of(text@, "id"@) == Some(id)),
{
    match member_integer(text, "id") {
        Some(n) => n == id,
        None => false,
    }
}

/// How far a window of an account is.
#[derive(Clone, Copy, Debug, PartialEq, Eq, Structural)]
pub enum Stage {
    /// The cookie was sent. Until the browser has it no page is opened, or the
    /// page would not be the account's.
    Cookie { until: u64 },
    /// The first page was asked for.
    Page { until: u64 },
    /// The window is the user's.
    Open,
}

/// The stage after a look at the browser: the next one once the browser
/// acknowledged, or once it had its time.
pub open spec fn next_stage(stage: Stage, now: u64, acknowledged: Option<i64>) -> Stage {
    match stage {
        Stage::Cookie { until } => if now >= until || acknowledged == Some(2i64) {
            Stage::Page { until: later(now) }
        } else {
            stage
        },
        Stage::Page { until } => if now >= until || acknowledged == Some(3i64) {
            Stage::Open
        } else {
            stage
        },
        Stage::Open => Stage::Open,
    }
}

/// The end of a wait that starts now.
pub open spec fn later(now: u64) -> u64 {
    if now + ACK_TIMEOUT > u64::MAX {
        u64::MAX
    } else {
        (now + ACK_TIMEOUT) as u64
    }
}

impl Stage {
    /// The stage once the cookie is sent.
    pub fn first(now: u64) -> (s: Stage)
        ensures
            s == (Stage::Cookie { until: later(now) }),
    {
        Stage::Cookie { until: now.saturating_add(ACK_TIMEOUT) }
    }

    /// The stage after a look at the browser, and whether the first page is to
    /// be asked for now.
    pub fn next(self, now: u64, acknowledged: Option<i64>) -> (r: (Stage, bool))
        ensures
            r.0 == next_stage(self, now, acknowledged),
            r.1 == (self is Cookie && r.0 is Page),
    {
        match self {
            Stage::Cookie { until } => {
                let known: bool = match acknowledged {
                    Some(id) => id == 2,
                    None => false,
                };
                if now >= until || known {
                    (Stage::Page { until: now.saturating_add(ACK_TIMEOUT) }, true)
                } else {
                    (self, false)
                }
            },
            Stage::Page { until } => {
                let known: bool = match acknowledged {
                    Some(id) => id == 3,
                    None => false,
                };
                if now >= until || known {
                    (Stage::Open, false)
                } else {
                    (self, false)
                }
            },
            Stage::Open => (self, false),
        }
    }
}

/// No page is asked for before the browser has the cookie or had its time to
/// take it.
pub proof fn the_cookie_comes_first(until: u64, now: u64, acknowledged: Option<i64>)
    ensures
        next_stage(Stage::Cookie { until }, now, acknowledged) is Page ==> acknowledged == Some(
            2i64,
        ) || now >= until,
{
}

// ---------------------------------------------------------------------------
// How far a login window is
// ---------------------------------------------------------------------------

/// How far a login window is.
#[derive(Clone, Copy, Debug, PartialEq, Eq, Structural)]
pub enum Progress {
    Locating,
    Checking,
    Downloading,
    Preparing,
    Starting,
    Connecting,
    Waiting,
}

/// What is said of it.
pub open spec fn progress_said(p: Progress) -> Seq<char> {
    match p {
        Progress::Locating => "Locating Ungoogled Chromium installation..."@,
        Progress::Checking => "Checking GitHub for latest Ungoogled Chromium release..."@,
        Progress::Downloading => "Downloading Ungoogled Chromium AppImage..."@,
        Progress::Preparing => "Preparing Ungoogled Chromium executable..."@,
        Progress::Starting => "Starting Ungoogled Chromium..."@,
        Progress::Connecting => "Connecting to browser CDP..."@,
        Progress::Waiting => "Sign in to Roblox in Ungoogled Chromium."@,
    }
}

/// What is said of how far a login window is.
pub fn progress_text(p: Progress) -> (r: &'static str)
    ensures
        r@ == progress_said(p),
{
    match p {
        Progress::Locating => "Locating Ungoogled Chromium installation...",
        Progress::Checking => "Checking GitHub for latest Ungoogled Chromium release...",
        Progress::Downloading => "Downloading Ungoogled Chromium AppImage...",
        Progress::Preparing => "Preparing Ungoogled Chromium executable...",
        Progress::Starting => "Starting Ungoogled Chromium...",
        Progress::Connecting => "Connecting to browser CDP...",
        Progress::Waiting => "Sign in to Roblox in Ungoogled Chromium.",
    }
}

} // verus!
