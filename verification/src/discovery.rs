//! Finding a game window by its title, and waiting for one to come or go.

use crate::geometry::Rect;
use crate::text::{
    chars_of, contained_iff_split, contains, contains_text, decode_utf16, encoded_utf16,
    push_signed, reads_as, signed_decimal, signed_decimal_reads_back, utf16_reads_back, utf16_text,
};
use vstd::prelude::*;
use vstd::string::*;

verus! {

/// Text that the title of every Minecraft window holds.
pub const MINECRAFT_TITLE_NEEDLE: &'static str = "Minecraft";

/// Room made for every window title, in UTF-16 units. A longer title gets more.
pub const TITLE_CAPACITY: usize = 256;

/// Time allowed for Minecraft to start and present a window.
pub const MINECRAFT_STARTUP_TIMEOUT_SECS: u64 = 180;

/// Pause between two looks for a window.
pub const WINDOW_POLL_MS: u64 = 250;

/// Time allowed for a window to close.
pub const WINDOW_CLOSE_TIMEOUT_SECS: u64 = 15;

/// Pause between two looks whether a window is gone.
pub const WINDOW_GONE_POLL_MS: u64 = 100;

/// A top-level window as the window manager describes it: the title buffer and
/// the number of units written to it.
pub ghost struct WindowInfo {
    pub handle: isize,
    pub visible: bool,
    pub units: Seq<u16>,
    pub len: int,
}

/// The window is visible, has a title, and the title holds `needle`.
pub open spec fn title_matches(w: WindowInfo, needle: Seq<char>) -> bool {
    w.visible && w.len > 0 && contains(utf16_text(w.units.take(w.len)), needle)
}

/// What a search that meets the windows `ws` in turn, and stops at the first
/// match, has found.
pub open spec fn search(ws: Seq<WindowInfo>, needle: Seq<char>) -> Option<isize>
    decreases ws.len(),
{
    if ws.len() == 0 {
        None
    } else if title_matches(ws[0], needle) {
        Some(ws[0].handle)
    } else {
        search(ws.skip(1), needle)
    }
}

/// A search for the first visible window whose title holds a text.
pub struct WindowSearch {
    needle: Vec<char>,
    found: Option<isize>,
    met: Ghost<Seq<WindowInfo>>,
}

impl WindowSearch {
    /// The text searched for.
    pub closed spec fn needle(self) -> Seq<char> {
        self.needle@
    }

    /// The windows met so far, in the order of the enumeration.
    pub closed spec fn met(self) -> Seq<WindowInfo> {
        self.met@
    }

    /// The window found so far.
    pub closed spec fn result(self) -> Option<isize> {
        self.found
    }

    /// What was found is the first match among the windows met.
    pub open spec fn well_formed(self) -> bool {
        self.result() == search(self.met(), self.needle())
    }

    /// A search that has met no window yet.
    pub fn new(needle: &str) -> (res: WindowSearch)
        ensures
            res.needle() == needle@,
            res.met() == Seq::<WindowInfo>::empty(),
            res.result() is None,
            res.well_formed(),
    {
        WindowSearch { needle: chars_of(needle), found: None, met: Ghost(Seq::empty()) }
    }

    /// Meets the next window, given its title buffer and the number of units
    /// written there. Tells whether the enumeration goes on: it does not once a
    /// window has matched.
    pub fn visit(&mut self, handle: isize, visible: bool, units: &[u16], len: i32) -> (res: bool)
        requires
            old(self).well_formed(),
            old(self).result() is None,
            len <= units@.len(),
        ensures
            final(self).well_formed(),
            final(self).needle() == old(self).needle(),
            ({
                let w = WindowInfo { handle, visible, units: units@, len: len as int };
                &&& final(self).met() == old(self).met().push(w)
                &&& res == !title_matches(w, old(self).needle())
                &&& final(self).result() == if res {
                    None
                } else {
                    Some(handle)
                }
            }),
    {
        let ghost w = WindowInfo { handle, visible, units: units@, len: len as int };
        proof {
            search_one_more(self.met@, w, self.needle@);
            self.met@ = self.met@.push(w);
        }
        if !visible {
            return true;
        }
        if len <= 0 {
            return true;
        }
        let title = decode_utf16(units, len as usize);
        if contains_text(&title, &self.needle) {
            self.found = Some(handle);
            return false;
        }
        true
    }

    /// The window found.
    pub fn found(&self) -> (res: Option<isize>)
        ensures
            res == self.result(),
    {
        self.found
    }
}

/// A search that has found nothing yet is decided by the next window.
proof fn search_one_more(ws: Seq<WindowInfo>, w: WindowInfo, needle: Seq<char>)
    requires
        search(ws, needle) is None,
    ensures
        search(ws.push(w), needle) == if title_matches(w, needle) {
            Some(w.handle)
        } else {
            None
        },
    decreases ws.len(),
{
    if ws.len() == 0 {
        assert(search(ws.push(w).skip(1), needle) is None);
    } else {
        search_one_more(ws.skip(1), w, needle);
        assert(ws.push(w).skip(1) =~= ws.skip(1).push(w));
    }
}

/// A search finds the first matching window in the order of the enumeration, and
/// none exactly where no window matches.
pub proof fn search_finds_the_first_match(ws: Seq<WindowInfo>, needle: Seq<char>)
    ensures
        search(ws, needle) is None <==> forall|i: int|
            0 <= i < ws.len() ==> !title_matches(#[trigger] ws[i], needle),
        search(ws, needle) matches Some(h) ==> exists|i: int|
            {
                &&& 0 <= i < ws.len()
                &&& title_matches(#[trigger] ws[i], needle)
                &&& h == ws[i].handle
                &&& forall|j: int| 0 <= j < i ==> !title_matches(#[trigger] ws[j], needle)
            },
    decreases ws.len(),
{
    if ws.len() > 0 {
        let rest = ws.skip(1);
        search_finds_the_first_match(rest, needle);
        if title_matches(ws[0], needle) {
        } else {
            if search(rest, needle) is Some {
                let i = choose|i: int|
                    {
                        &&& 0 <= i < rest.len()
                        &&& title_matches(#[trigger] rest[i], needle)
                        &&& search(rest, needle)->0 == rest[i].handle
                        &&& forall|j: int| 0 <= j < i ==> !title_matches(#[trigger] rest[j], needle)
                    };
                assert(ws[i + 1] == rest[i]);
                assert forall|j: int| 0 <= j < i + 1 implies !title_matches(
                    #[trigger] ws[j],
                    needle,
                ) by {
                    if j > 0 {
                        assert(rest[j - 1] == ws[j]);
                    }
                }
            } else {
                assert forall|j: int| 0 <= j < ws.len() implies !title_matches(
                    #[trigger] ws[j],
                    needle,
                ) by {
                    if j > 0 {
                        assert(rest[j - 1] == ws[j]);
                    }
                }
            }
        }
    }
}

/// What the look for a target window brought.
#[derive(Debug, Clone, Copy, PartialEq, Eq, Structural)]
pub enum SnapLookup {
    /// A window, and its rectangle.
    Window(Rect),
    /// A window whose rectangle could not be read.
    NoRect,
    NoWindow,
}

/// The rectangle to cover: the window's own, else the primary monitor.
pub open spec fn snap_rect(lookup: SnapLookup, monitor: Rect) -> Rect {
    match lookup {
        SnapLookup::Window(rect) => rect,
        _ => monitor,
    }
}

/// What is said of a look for a target window.
pub open spec fn snap_note(lookup: SnapLookup) -> Seq<char> {
    match lookup {
        SnapLookup::Window(rect) => "snap: Minecraft at ("@ + signed_decimal(rect.left as int)
            + ", "@ + signed_decimal(rect.top as int) + ") "@ + signed_decimal(rect.spec_width())
            + "x"@ + signed_decimal(rect.spec_height()),
        SnapLookup::NoRect => "snap: GetWindowRect failed; falling back to primary monitor"@,
        SnapLookup::NoWindow => "snap: no Minecraft window found; covering primary monitor"@,
    }
}

/// Chooses the rectangle to cover, and says why.
pub fn snap_target(lookup: SnapLookup, monitor: Rect) -> (res: (Rect, String))
    requires
        snap_rect(lookup, monitor).spec_measurable(),
    ensures
        res.0 == snap_rect(lookup, monitor),
        res.1@ == snap_note(lookup),
{
    match lookup {
        SnapLookup::Window(rect) => {
            let mut note = String::from_str("snap: Minecraft at (");
            push_signed(&mut note, rect.left as i64);
            note.append(", ");
            push_signed(&mut note, rect.top as i64);
            note.append(") ");
            push_signed(&mut note, rect.width() as i64);
            note.append("x");
            push_signed(&mut note, rect.height() as i64);
            (rect, note)
        },
        SnapLookup::NoRect => (
            monitor,
            String::from_str("snap: GetWindowRect failed; falling back to primary monitor"),
        ),
        SnapLookup::NoWindow => (
            monitor,
            String::from_str("snap: no Minecraft window found; covering primary monitor"),
        ),
    }
}

/// How a wait goes on after a look.
#[derive(Debug, Clone, Copy, PartialEq, Eq, Structural)]
pub enum Wait {
    /// What was waited for is there.
    Over,
    TimedOut,
    /// Rest, then look again.
    Retry { sleep_ms: u64 },
}

/// Nanoseconds in a second.
pub const NANOS_PER_SEC: u128 = 1_000_000_000;

/// How a wait goes on: success counts before the time that has passed, and the
/// wait is given up only once more than the time allowed has passed.
pub open spec fn wait_verdict(
    there: bool,
    elapsed_nanos: u128,
    timeout_secs: u64,
    poll_ms: u64,
) -> Wait {
    if there {
        Wait::Over
    } else if elapsed_nanos > timeout_secs * NANOS_PER_SEC {
        Wait::TimedOut
    } else {
        Wait::Retry { sleep_ms: poll_ms }
    }
}

/// After a look for a Minecraft window.
pub fn poll_for_window(found: bool, elapsed_nanos: u128, timeout_secs: u64) -> (res: Wait)
    ensures
        res == wait_verdict(found, elapsed_nanos, timeout_secs, WINDOW_POLL_MS),
{
    proof {
        timeout_fits(timeout_secs);
    }
    if found {
        Wait::Over
    } else if elapsed_nanos > timeout_secs as u128 * NANOS_PER_SEC {
        Wait::TimedOut
    } else {
        Wait::Retry { sleep_ms: WINDOW_POLL_MS }
    }
}

/// After a look whether a window still exists.
pub fn poll_window_gone(exists: bool, elapsed_nanos: u128, timeout_secs: u64) -> (res: Wait)
    ensures
        res == wait_verdict(!exists, elapsed_nanos, timeout_secs, WINDOW_GONE_POLL_MS),
{
    proof {
        timeout_fits(timeout_secs);
    }
    if !exists {
        Wait::Over
    } else if elapsed_nanos > timeout_secs as u128 * NANOS_PER_SEC {
        Wait::TimedOut
    } else {
        Wait::Retry { sleep_ms: WINDOW_GONE_POLL_MS }
    }
}

proof fn timeout_fits(timeout_secs: u64)
    ensures
        timeout_secs * NANOS_PER_SEC <= u128::MAX,
{
    assert(timeout_secs * 1_000_000_000 <= 0xFFFF_FFFF_FFFF_FFFF * 1_000_000_000);
}

/// A wait is over as soon as what it waits for is there, however late, and is
/// never given up within the time allowed.
pub proof fn waits_are_patient(there: bool, elapsed_nanos: u128, timeout_secs: u64, poll_ms: u64)
    ensures
        there <==> wait_verdict(there, elapsed_nanos, timeout_secs, poll_ms) == Wait::Over,
        elapsed_nanos <= timeout_secs * NANOS_PER_SEC ==> wait_verdict(
            there,
            elapsed_nanos,
            timeout_secs,
            poll_ms,
        ) != Wait::TimedOut,
{
}

/// A window matches exactly where it is visible and its title, which is not
/// empty, is made of something, the needle, and something.
pub proof fn a_title_matches_by_its_text(w: WindowInfo, needle: Seq<char>)
    ensures
        title_matches(w, needle) <==> {
            &&& w.visible
            &&& w.len > 0
            &&& exists|p: Seq<char>, q: Seq<char>|
                utf16_text(w.units.take(w.len)) == #[trigger] (p + needle + q)
        },
{
    contained_iff_split(utf16_text(w.units.take(w.len)), needle);
}

/// A search stops at a visible window whose title, however long, is made of
/// something, the needle, and something, and has then found it; it goes on past
/// every other window.
pub proof fn a_visit_tells_by_the_title(
    search: &mut WindowSearch,
    handle: isize,
    visible: bool,
    units: &[u16],
    len: i32,
    res: bool,
)
    requires
        call_ensures(WindowSearch::visit, (search, handle, visible, units, len), res),
        search.well_formed(),
        search.result() is None,
        len <= units@.len(),
    ensures
        !res <==> {
            &&& visible
            &&& len > 0
            &&& exists|p: Seq<char>, q: Seq<char>|
                utf16_text(units@.take(len as int)) == #[trigger] (p + old(search).needle() + q)
        },
        final(search).result() == if res {
            None
        } else {
            Some(handle)
        },
        final(search).needle() == old(search).needle(),
        final(search).well_formed(),
{
    let w = WindowInfo { handle, visible, units: units@, len: len as int };
    a_title_matches_by_its_text(w, old(search).needle());
}

/// A visible window is found whose title holds the needle between any two texts,
/// however long they are and whatever stands in the buffer behind the title.
pub proof fn a_titled_window_is_found(
    search: &mut WindowSearch,
    handle: isize,
    units: &[u16],
    len: i32,
    p: Seq<char>,
    q: Seq<char>,
    res: bool,
)
    requires
        call_ensures(WindowSearch::visit, (search, handle, true, units, len), res),
        search.well_formed(),
        search.result() is None,
        0 < len <= units@.len(),
        units@.take(len as int) == encoded_utf16(p + search.needle() + q),
    ensures
        !res,
        final(search).result() == Some(handle),
{
    let title = p + old(search).needle() + q;
    utf16_reads_back(title, seq![]);
    assert(encoded_utf16(title) + seq![] =~= encoded_utf16(title));
    assert(title + utf16_text(seq![]) =~= title);
    a_visit_tells_by_the_title(search, handle, true, units, len, res);
    assert(utf16_text(units@.take(len as int)) == p + old(search).needle() + q);
}

/// A search starts with its needle and nothing found, and tells what it found.
pub proof fn a_search_starts_empty(needle: &str, search: WindowSearch, res: Option<isize>)
    requires
        call_ensures(WindowSearch::new, (needle,), search),
        call_ensures(WindowSearch::found, (&search,), res),
    ensures
        search.needle() == needle@,
        search.met().len() == 0,
        res is None,
        search.well_formed(),
{
}

/// What a search tells is the first window it met that is visible and whose title
/// holds the needle; it tells none exactly where it met none.
pub proof fn what_a_search_tells(search: WindowSearch, res: Option<isize>)
    requires
        call_ensures(WindowSearch::found, (&search,), res),
        search.well_formed(),
    ensures
        res is None <==> forall|i: int|
            0 <= i < search.met().len() ==> !title_matches(
                #[trigger] search.met()[i],
                search.needle(),
            ),
        res matches Some(handle) ==> exists|i: int|
            {
                &&& 0 <= i < search.met().len()
                &&& title_matches(#[trigger] search.met()[i], search.needle())
                &&& handle == search.met()[i].handle
                &&& forall|j: int|
                    0 <= j < i ==> !title_matches(#[trigger] search.met()[j], search.needle())
            },
{
    search_finds_the_first_match(search.met(), search.needle());
}

/// The overlay covers the very window found, else the monitor.
pub proof fn a_snap_covers_the_window_found(lookup: SnapLookup, monitor: Rect, res: (Rect, String))
    requires
        call_ensures(snap_target, (lookup, monitor), res),
    ensures
        lookup matches SnapLookup::Window(rect) ==> res.0 == rect,
        !(lookup is Window) ==> res.0 == monitor,
{
}

/// The note on a window found tells its place and size: the numbers in it read
/// back as the corner, and as what leads from there to the opposite one.
pub proof fn a_snap_note_tells_the_place(rect: Rect, monitor: Rect, res: (Rect, String))
    requires
        call_ensures(snap_target, (SnapLookup::Window(rect), monitor), res),
    ensures
        exists|x: Seq<char>, y: Seq<char>, width: Seq<char>, height: Seq<char>|
            {
                &&& res.1@ == #[trigger] ("snap: Minecraft at ("@ + x + ", "@ + y + ") "@ + width
                    + "x"@ + height)
                &&& reads_as(x, rect.left as int)
                &&& reads_as(y, rect.top as int)
                &&& reads_as(width, rect.right - rect.left)
                &&& reads_as(height, rect.bottom - rect.top)
            },
{
    let x = signed_decimal(rect.left as int);
    let y = signed_decimal(rect.top as int);
    let width = signed_decimal(rect.right - rect.left);
    let height = signed_decimal(rect.bottom - rect.top);
    signed_decimal_reads_back(rect.left as int);
    signed_decimal_reads_back(rect.top as int);
    signed_decimal_reads_back(rect.right - rect.left);
    signed_decimal_reads_back(rect.bottom - rect.top);
    assert(res.1@ == "snap: Minecraft at ("@ + x + ", "@ + y + ") "@ + width + "x"@ + height);
}

/// A wait is over exactly when what it waits for is there; it is given up exactly
/// when that is not there and more than the time allowed has passed; else the next
/// look comes after a fixed pause.
pub proof fn waits_end_by_the_clock(
    there: bool,
    elapsed_nanos: u128,
    timeout_secs: u64,
    came: Wait,
    went: Wait,
)
    requires
        call_ensures(poll_for_window, (there, elapsed_nanos, timeout_secs), came),
        call_ensures(poll_window_gone, (!there, elapsed_nanos, timeout_secs), went),
    ensures
        came == Wait::Over <==> there,
        went == Wait::Over <==> there,
        came == Wait::TimedOut <==> !there && elapsed_nanos > timeout_secs * 1_000_000_000,
        went == Wait::TimedOut <==> !there && elapsed_nanos > timeout_secs * 1_000_000_000,
        !there && elapsed_nanos <= timeout_secs * 1_000_000_000 ==> came == (Wait::Retry {
            sleep_ms: 250,
        }) && went == (Wait::Retry { sleep_ms: 100 }),
{
}

/// Any window can be visited while none was found, whatever its title and its
/// length; and any look for a target can be answered whose rectangle can be
/// measured.
pub proof fn any_window_can_be_visited(
    search: &mut WindowSearch,
    handle: isize,
    visible: bool,
    units: &[u16],
    len: i32,
    rect: Rect,
)
    requires
        search.well_formed(),
        search.result() is None,
        len <= units@.len(),
        i32::MIN <= rect.right - rect.left <= i32::MAX,
        i32::MIN <= rect.bottom - rect.top <= i32::MAX,
    ensures
        call_requires(WindowSearch::visit, (search, handle, visible, units, len)),
        call_requires(snap_target, (SnapLookup::NoRect, rect)),
        call_requires(snap_target, (SnapLookup::NoWindow, rect)),
        forall|monitor: Rect| #[trigger] call_requires(
            snap_target,
            (SnapLookup::Window(rect), monitor),
        ),
{
}

/// Where there is no window to cover, the note says why.
pub proof fn a_snap_note_tells_what_is_missing(
    monitor: Rect,
    no_rect: (Rect, String),
    no_window: (Rect, String),
)
    requires
        call_ensures(snap_target, (SnapLookup::NoRect, monitor), no_rect),
        call_ensures(snap_target, (SnapLookup::NoWindow, monitor), no_window),
    ensures
        no_rect.1@ == "snap: GetWindowRect failed; falling back to primary monitor"@,
        no_window.1@ == "snap: no Minecraft window found; covering primary monitor"@,
{
}

/// A visible window is found by the word in its title, between any two texts.
pub proof fn a_game_is_told_by_its_name(
    search: &mut WindowSearch,
    handle: isize,
    units: &[u16],
    len: i32,
    p: Seq<char>,
    q: Seq<char>,
    res: bool,
)
    requires
        call_ensures(WindowSearch::visit, (search, handle, true, units, len), res),
        search.well_formed(),
        search.result() is None,
        search.needle() == MINECRAFT_TITLE_NEEDLE@,
        0 < len <= units@.len(),
        units@.take(len as int) == encoded_utf16(p + "Minecraft"@ + q),
    ensures
        !res,
        final(search).result() == Some(handle),
{
    a_titled_window_is_found(search, handle, units, len, p, q, res);
}

} // verus!
