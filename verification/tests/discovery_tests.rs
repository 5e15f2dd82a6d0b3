use liminal_launcher::discovery::{
    poll_for_window, poll_window_gone, snap_target, SnapLookup, Wait, WindowSearch,
    MINECRAFT_TITLE_NEEDLE,
};
use liminal_launcher::geometry::{primary_monitor_rect, Rect};
use liminal_launcher::text::{chars_of, contains_text, decode_utf16, push_signed, to_decimal};

fn buffer(title: &str) -> (Vec<u16>, i32) {
    let mut units: Vec<u16> = title.encode_utf16().collect();
    let len = units.len() as i32;
    units.resize(256, 0);
    (units, len)
}

fn search(windows: &[(isize, bool, &str)]) -> Option<isize> {
    let mut search = WindowSearch::new(MINECRAFT_TITLE_NEEDLE);
    for (handle, visible, title) in windows.iter() {
        let (units, len) = buffer(title);
        if !search.visit(*handle, *visible, &units, len) {
            break;
        }
    }
    search.found()
}

#[test]
fn the_first_visible_match_is_found() {
    assert_eq!(
        search(&[
            (1, true, "Terminal"),
            (2, false, "Minecraft 1.21"),
            (3, true, ""),
            (4, true, "Minecraft* 1.20.4 - Singleplayer"),
            (5, true, "Minecraft 1.21"),
        ]),
        Some(4)
    );
    assert_eq!(search(&[(1, true, "minecraft")]), None);
    assert_eq!(search(&[]), None);
}

#[test]
fn what_lies_behind_the_title_does_not_count() {
    let (units, _) = buffer("My Minecraft");
    let mut search = WindowSearch::new("Minecraft");
    assert!(search.visit(1, true, &units, 11));
    assert!(search.visit(1, true, &units, 0));
    assert!(search.visit(1, true, &units, -1));
    assert!(!search.visit(1, true, &units, 12));
    assert_eq!(search.found(), Some(1));
}

#[test]
fn titles_are_decoded_like_any_utf16() {
    let odd: Vec<u16> =
        vec![0x4D, 0xD83D, 0xDE00, 0xD83D, 0x41, 0xDE00, 0xFFFF, 0xE000, 0xD800, 0xD800];
    let text: String = decode_utf16(&odd, odd.len()).into_iter().collect();
    assert_eq!(text, String::from_utf16_lossy(&odd));
    for unit in 0u32..=0xFFFF {
        for tail in vec![0x41u16, 0xD800, 0xDBFF, 0xDC00, 0xDFFF] {
            let units = vec![unit as u16, tail];
            let text: String = decode_utf16(&units, 2).into_iter().collect();
            assert_eq!(text, String::from_utf16_lossy(&units));
        }
    }
    assert!(decode_utf16(&odd, 0).is_empty());
}

#[test]
fn substrings_are_found() {
    let cases = vec![("abcab", "cab"), ("abc", ""), ("", ""), ("aab", "ab"), ("ab", "abc"), ("", "a"), ("abab", "ba"), ("abc", "d")];
    for (text, needle) in cases {
        assert_eq!(
            contains_text(&chars_of(text), &chars_of(needle)),
            text.contains(needle),
            "{text} {needle}"
        );
    }
}

#[test]
fn numbers_read_in_decimal() {
    for n in vec![0u64, 9, 10, 11, 99, 100, 12345, u64::MAX] {
        assert_eq!(to_decimal(n), n.to_string());
    }
    for n in vec![0i64, -1, 1, -10, i64::MIN, i64::MAX] {
        let mut out = String::from("n=");
        push_signed(&mut out, n);
        assert_eq!(out, format!("n={}", n));
    }
}

#[test]
fn the_overlay_snaps_to_minecraft_or_the_monitor() {
    let monitor = primary_monitor_rect(1920, 1080);
    let window = Rect { left: -7, top: 30, right: 847, bottom: 510 };
    let (rect, note) = snap_target(SnapLookup::Window(window), monitor);
    assert_eq!(rect, window);
    assert_eq!(note, "snap: Minecraft at (-7, 30) 854x480");
    let (rect, note) = snap_target(SnapLookup::NoRect, monitor);
    assert_eq!(rect, monitor);
    assert_eq!(note, "snap: GetWindowRect failed; falling back to primary monitor");
    let (rect, note) = snap_target(SnapLookup::NoWindow, monitor);
    assert_eq!(rect, monitor);
    assert_eq!(note, "snap: no Minecraft window found; covering primary monitor");
}

#[test]
fn waits_end_when_due() {
    let limit: u128 = 180_000_000_000;
    assert_eq!(poll_for_window(true, limit + 1, 180), Wait::Over);
    assert_eq!(poll_for_window(false, limit, 180), Wait::Retry { sleep_ms: 250 });
    assert_eq!(poll_for_window(false, limit + 1, 180), Wait::TimedOut);
    assert_eq!(poll_window_gone(false, limit, 15), Wait::Over);
    assert_eq!(poll_window_gone(true, 15_000_000_000, 15), Wait::Retry { sleep_ms: 100 });
    assert_eq!(poll_window_gone(true, 15_000_000_001, 15), Wait::TimedOut);
}
