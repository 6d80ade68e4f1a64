//! What is made of a browser: of what it says, of what it leaves behind, and of
//! how long it takes.

use vstd::prelude::*;

use crate::browser_login::{
    arguments, disk_cookie_in, first_page, image_url, is_image, is_page, is_session, judged,
    next_stage, request_text, session_in, turn_taken, BrowserCookieView, LoginWatch,
    ReleaseAssetView, ScanView, ShownView, Stage, Turn, ACK_TIMEOUT, LOGIN_TIMEOUT,
};
use crate::changelog::{block_of, BlockView};
use crate::cookies::cookie_in;
use crate::entry::{window_for, WindowView};
use crate::lists::first_where_facts;
use crate::text::{contains_text, decimal, lossy_text, trimmed, trimmed_by, Trimmed};

verus! {

// ---------------------------------------------------------------------------
// What the browser says
// ---------------------------------------------------------------------------

/// Whether a cookie is a session of Roblox that is not blank.
pub open spec fn is_roblox_session(c: BrowserCookieView) -> bool {
    &&& c.name == Some(".ROBLOSECURITY"@)
    &&& c.value matches Some(v) && trimmed(v).len() > 0
}

/// The session that is found among the cookies is the first of Roblox that is not
/// blank, without the white space around it; none is found where there is none.
pub proof fn the_session_is_robloxs(cookies: Seq<BrowserCookieView>)
    ensures
        match session_in(cookies) {
            Some(found) => exists|i: int|
                {
                    let c = #[trigger] cookies[i];
                    &&& 0 <= i < cookies.len()
                    &&& is_roblox_session(c)
                    &&& found == trimmed(c.value->Some_0)
                    &&& forall|j: int|
                        0 <= j < i ==> !is_roblox_session(#[trigger] cookies[j])
                },
            None => forall|i: int|
                0 <= i < cookies.len() ==> !is_roblox_session(#[trigger] cookies[i]),
        },
{
    let p = is_session();
    first_where_facts(cookies, p);
    assert forall|i: int| 0 <= i < cookies.len() implies p(#[trigger] cookies[i])
        == is_roblox_session(cookies[i]) by {}
    match crate::lists::first_where(cookies, p) {
        Some(i) => {
            assert(is_roblox_session(cookies[i]));
        },
        None => {},
    }
}

/// A message yields a cookie exactly where its text holds one or it reports a
/// session, the text first; without either it counts as an answer exactly where
/// it is one.
pub proof fn a_message_yields_the_cookie_it_holds(
    text: Seq<char>,
    cookies: Seq<BrowserCookieView>,
    answers: bool,
)
    ensures
        cookie_in(text) matches Some(c) ==> judged(text, cookies, answers) == ScanView::Cookie(c),
        cookie_in(text) is None ==> (session_in(cookies) matches Some(c) ==> judged(
            text,
            cookies,
            answers,
        ) == ScanView::Cookie(c)),
        cookie_in(text) is None && session_in(cookies) is None ==> (judged(
            text,
            cookies,
            answers,
        ) is Answered <==> answers),
        cookie_in(text) is None && session_in(cookies) is None ==> !(judged(
            text,
            cookies,
            answers,
        ) is Cookie),
{
}

/// The page that is used is one that takes requests, and the first of them.
pub proof fn the_page_takes_requests(list: Seq<ShownView>)
    ensures
        match first_page(list) {
            Some(address) => exists|i: int|
                {
                    let s = #[trigger] list[i];
                    &&& 0 <= i < list.len()
                    &&& s.kind == Some("page"@) && s.address == Some(address)
                    &&& forall|j: int|
                        0 <= j < i ==> (#[trigger] list[j]).kind != Some("page"@)
                            || list[j].address is None
                },
            None => forall|i: int|
                0 <= i < list.len() ==> (#[trigger] list[i]).kind != Some("page"@)
                    || list[i].address is None,
        },
{
    let p = is_page();
    first_where_facts(list, p);
    assert forall|i: int| 0 <= i < list.len() implies p(#[trigger] list[i]) == (list[i].kind == Some(
        "page"@,
    ) && list[i].address is Some) by {}
    match crate::lists::first_where(list, p) {
        Some(i) => {
            assert(p(list[i]));
        },
        None => {},
    }
}

/// What is downloaded is a packed image for this machine.
pub proof fn the_download_is_an_image_for_this_machine(list: Seq<ReleaseAssetView>)
    ensures
        image_url(None) is Err,
        image_url(Some(list)) matches Ok(url) ==> exists|i: int|
            {
                let a = #[trigger] list[i];
                &&& 0 <= i < list.len()
                &&& a.url == Some(url)
                &&& a.name matches Some(name)
                &&& contains_text(name, "x86_64"@)
                &&& name.len() >= ".AppImage"@.len()
                &&& name.skip(name.len() - ".AppImage"@.len()) == ".AppImage"@
            },
        (forall|i: int| 0 <= i < list.len() ==> !is_image()(#[trigger] list[i])) ==> image_url(
            Some(list),
        ) is Err,
        (forall|i: int| 0 <= i < list.len() ==> (#[trigger] list[i]).url is Some) && (exists|i: int|
            0 <= i < list.len() && is_image()(#[trigger] list[i])) ==> image_url(Some(list)) is Ok,
{
    let p = is_image();
    first_where_facts(list, p);
    match crate::lists::first_where(list, p) {
        Some(i) => {
            assert(p(list[i]));
        },
        None => {},
    }
}

/// The cookie that is taken from the disk is that of the first file that holds
/// one; none is taken where no file does.
pub proof fn the_first_file_with_a_cookie_counts(files: Seq<Option<Vec<u8>>>)
    ensures
        match disk_cookie_in(files) {
            Some(cookie) => exists|i: int|
                0 <= i < files.len() && #[trigger] cookie_of_file(files[i]) == Some(cookie) && (
                forall|j: int| 0 <= j < i ==> #[trigger] cookie_of_file(files[j]) is None),
            None => forall|i: int|
                0 <= i < files.len() ==> #[trigger] cookie_of_file(files[i]) is None,
        },
    decreases files.len(),
{
    if files.len() > 0 && cookie_of_file(files[0]) is None {
        let rest = files.drop_first();
        the_first_file_with_a_cookie_counts(rest);
        assert forall|i: int| 0 < i < files.len() implies #[trigger] files[i] == rest[i - 1] by {}
        match disk_cookie_in(rest) {
            Some(cookie) => {
                let i = choose|i: int|
                    0 <= i < rest.len() && #[trigger] cookie_of_file(rest[i]) == Some(cookie) && (
                    forall|j: int| 0 <= j < i ==> #[trigger] cookie_of_file(rest[j]) is None);
                assert(cookie_of_file(files[i + 1]) == Some(cookie));
                assert forall|j: int| 0 <= j < i + 1 implies #[trigger] cookie_of_file(
                    files[j],
                ) is None by {
                    if j > 0 {
                        assert(cookie_of_file(rest[j - 1]) is None);
                    }
                }
            },
            None => {
                assert forall|i: int| 0 <= i < files.len() implies #[trigger] cookie_of_file(
                    files[i],
                ) is None by {
                    if i > 0 {
                        assert(cookie_of_file(rest[i - 1]) is None);
                    }
                }
            },
        }
    } else if files.len() > 0 {
        assert(cookie_of_file(files[0]) is Some);
    }
}

/// The cookie in a file, where it could be read.
pub open spec fn cookie_of_file(file: Option<Vec<u8>>) -> Option<Seq<char>> {
    match file {
        Some(bytes) => cookie_in(lossy_text(bytes@)),
        None => None,
    }
}

// ---------------------------------------------------------------------------
// Waiting
// ---------------------------------------------------------------------------

/// A login ends when its time is up, and when the browser is gone without a
/// cookie; before that the cookies are asked for under a number of their own.
pub proof fn a_login_is_waited_for_until_its_time_is_up(
    s: LoginWatch,
    t: LoginWatch,
    turn: Turn,
    elapsed: u64,
    exited: bool,
    disk: Option<Seq<char>>,
)
    requires
        turn_taken(s, t, turn, elapsed, exited, disk),
    ensures
        turn is Stop <==> elapsed >= LOGIN_TIMEOUT || (exited && disk is None),
        turn is Ask <==> elapsed < LOGIN_TIMEOUT && !exited && disk is None,
        turn matches Turn::Ask(text) ==> text@ == request_text(
            s.next_id as nat,
            "Storage.getCookies"@,
            "{}"@,
        ) && t.next_id > s.next_id,
        !(turn is Ask) ==> t == s,
{
}

/// A window of an account goes from the cookie to the page and from the page to
/// the user, one step at a time: on the acknowledgement of that very request, or
/// when its time is up.
pub proof fn a_window_goes_one_step_at_a_time(stage: Stage, now: u64, acknowledged: Option<i64>)
    ensures
        match stage {
            Stage::Cookie { until } => {
                let next = next_stage(stage, now, acknowledged);
                &&& next == stage || next is Page
                &&& next is Page <==> now >= until || acknowledged == Some(2i64)
                &&& next matches Stage::Page { until: end } ==> now <= end && (end == now
                    + ACK_TIMEOUT || end == u64::MAX)
            },
            Stage::Page { until } => {
                let next = next_stage(stage, now, acknowledged);
                &&& next == stage || next is Open
                &&& next is Open <==> now >= until || acknowledged == Some(3i64)
            },
            Stage::Open => next_stage(stage, now, acknowledged) is Open,
        },
{
}

/// The browser is started in the profile, on the port and at the address that
/// were given.
pub proof fn the_browser_is_started_as_asked(
    binary: Seq<char>,
    profile: Seq<char>,
    port: u16,
    url: Seq<char>,
)
    ensures
        arguments(binary, profile, port, url).contains("--user-data-dir="@ + profile),
        arguments(binary, profile, port, url).contains(
            "--remote-debugging-port="@ + decimal(port as nat),
        ),
        arguments(binary, profile, port, url).last() == url,
{
    let all = arguments(binary, profile, port, url);
    let n = all.len();
    assert(all[n - 6] == "--remote-debugging-port="@ + decimal(port as nat));
    assert(all[n - 5] == "--user-data-dir="@ + profile);
}

// ---------------------------------------------------------------------------
// Windows and changes
// ---------------------------------------------------------------------------

/// A process is a window of its own only under a flag and with its two paths,
/// which it takes in the order in which they were given.
pub proof fn a_window_takes_its_arguments_in_order(args: Seq<String>)
    ensures
        match window_for(args) {
            WindowView::Login { profile, outfile, status } => {
                &&& args.len() >= 4 && args[1]@ == crate::browser_login::FLAG@
                &&& profile == args[2]@ && outfile == args[3]@
                &&& args.len() == 4 ==> status is None
                &&& args.len() > 4 ==> status == Some(args[4]@)
            },
            WindowView::BrowseAs { profile, cookie_in, label } => {
                &&& args.len() >= 4 && args[1]@ == crate::browser_login::BROWSE_AS_FLAG@
                &&& profile == args[2]@ && cookie_in == args[3]@
                &&& args.len() == 4 ==> label.len() == 0
                &&& args.len() > 4 ==> label == args[4]@
            },
            WindowView::Main => args.len() < 4 || (args[1]@ != crate::browser_login::FLAG@
                && args[1]@ != crate::browser_login::BROWSE_AS_FLAG@),
        },
{
}

/// A blank line is a gap and no other is; a heading shows what stands behind its
/// mark.
pub proof fn a_line_shows_what_it_says(line: Seq<char>, rest: Seq<char>)
    ensures
        block_of(line) is Gap <==> trimmed_by(line, Trimmed::White).len() == 0,
        trimmed_by(line, Trimmed::White) == "### "@ + rest ==> block_of(line) == BlockView::Strong(
            rest,
        ),
        trimmed_by(line, Trimmed::White) == "## "@ + rest ==> block_of(line) == BlockView::Heading(
            rest,
        ),
{
    reveal_strlit("### ");
    reveal_strlit("## ");
    let t = trimmed_by(line, Trimmed::White);
    if t == "### "@ + rest {
        assert(t.subrange(0, 4) =~= "### "@);
        assert(t.skip(4) =~= rest);
    }
    if t == "## "@ + rest {
        assert(t.subrange(0, 3) =~= "## "@);
        assert(t.skip(3) =~= rest);
        assert(t[2] == ' ');
        assert("### "@[2] == '#');
        if crate::text::stands_at(t, "### "@, 0) {
            assert(t.subrange(0, 4)[2] == t[2]);
        }
    }
}

} // verus!
