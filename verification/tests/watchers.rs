use xr_autosplit::evaluator::{is_loading, split, start, Settings};
use xr_autosplit::sample::{main_loop, RawSample, Reads, Watchers, LOAD_FALLBACK, SYNC_FALLBACK};
use xr_autosplit::text::text_len;
use xr_autosplit::watcher::{Pair, Watcher};

fn all_failed() -> Reads {
    Reads { load: None, no_control: None, is_paused: None, sync: None, level: None, end: None }
}

#[test]
fn new_watcher_has_no_pair() {
    let w: Watcher<u8> = Watcher::new();
    assert!(w.pair().is_none());
}

#[test]
fn first_update_fills_both_slots() {
    let mut w: Watcher<u8> = Watcher::new();
    w.update(7);
    let p = w.pair().unwrap();
    assert_eq!((p.old, p.current), (7, 7));
    assert!(!p.changed());
}

#[test]
fn update_shifts_current_to_old() {
    let mut w: Watcher<u8> = Watcher::new();
    w.update(1);
    w.update(2);
    let p = w.pair().unwrap();
    assert_eq!((p.old, p.current), (1, 2));
    w.update(3);
    let p = w.pair().unwrap();
    assert_eq!((p.old, p.current), (2, 3));
}

#[test]
fn changed_compares_the_two_slots() {
    assert!(Pair { old: 1u8, current: 2u8 }.changed());
    assert!(!Pair { old: 2u8, current: 2u8 }.changed());
}

#[test]
fn changed_from_to_wants_both_values() {
    let p = Pair { old: 0u8, current: 1u8 };
    assert!(p.changed_from_to(0, 1));
    assert!(!p.changed_from_to(1, 0));
    assert!(!p.changed_from_to(0, 0));
    assert!(!p.changed_from_to(1, 1));
}

#[test]
fn fallbacks_replace_failed_reads() {
    let raw = RawSample::from_reads(&all_failed());
    assert_eq!(raw.load, 1);
    assert_eq!(raw.load, LOAD_FALLBACK);
    assert_eq!(raw.no_control, 0);
    assert_eq!(raw.is_paused, 0);
    assert_eq!(raw.sync, SYNC_FALLBACK);
    assert_eq!(f32::from_bits(raw.sync), 1337.69);
    assert_eq!(raw.level, 0);
    assert_eq!(raw.end, [0u8; 5]);
}

#[test]
fn reads_that_succeed_pass_through() {
    let reads = Reads {
        load: Some(0),
        no_control: Some(1),
        is_paused: Some(9),
        sync: Some(0.25f32.to_bits()),
        level: Some(12),
        end: Some(*b"final"),
    };
    let raw = RawSample::from_reads(&reads);
    assert_eq!(raw.load, 0);
    assert_eq!(raw.no_control, 1);
    assert_eq!(raw.is_paused, 9);
    assert_eq!(f32::from_bits(raw.sync), 0.25);
    assert_eq!(raw.level, 12);
    assert_eq!(&raw.end, b"final");
}

#[test]
fn one_failed_read_leaves_the_others() {
    let reads = Reads { sync: None, level: Some(4), load: Some(0), ..all_failed() };
    let raw = RawSample::from_reads(&reads);
    assert_eq!(raw.load, 0);
    assert_eq!(raw.level, 4);
    assert_eq!(raw.sync, SYNC_FALLBACK);
}

#[test]
fn main_loop_records_every_quantity() {
    let mut w = Watchers::new();
    main_loop(&all_failed(), &mut w);
    let reads = Reads {
        load: Some(0),
        no_control: Some(1),
        is_paused: Some(1),
        sync: Some(7),
        level: Some(3),
        end: Some(*b"ab\0cd"),
    };
    main_loop(&reads, &mut w);
    let load = w.load.pair().unwrap();
    assert_eq!((load.old, load.current), (1, 0));
    let no_control = w.no_control.pair().unwrap();
    assert_eq!((no_control.old, no_control.current), (0, 1));
    let is_paused = w.is_paused.pair().unwrap();
    assert_eq!((is_paused.old, is_paused.current), (0, 1));
    let sync = w.sync.pair().unwrap();
    assert_eq!((sync.old, sync.current), (SYNC_FALLBACK, 7));
    let level = w.level.pair().unwrap();
    assert_eq!((level.old, level.current), (0, 3));
    let end = w.end.pair().unwrap();
    assert_eq!((end.old, end.current), ([0u8; 5], *b"ab\0cd"));
}

#[test]
fn failed_reads_hold_no_clock_and_split_nothing() {
    let mut w = Watchers::new();
    main_loop(&all_failed(), &mut w);
    assert_eq!(is_loading(&w), Some(false));
    assert!(!start(&w));
    assert!(!split(&w, &Settings { autosplit_per_level: true, slow_pc_mode: false }));
    main_loop(&all_failed(), &mut w);
    assert_eq!(is_loading(&w), Some(false));
    assert!(!start(&w));
    assert!(!split(&w, &Settings { autosplit_per_level: true, slow_pc_mode: false }));
}

#[test]
fn text_ends_at_the_first_nul() {
    assert_eq!(text_len(b"final\0"), 5);
    assert_eq!(text_len(b"final"), 5);
    assert_eq!(text_len(b"fi\0al\0"), 2);
    assert_eq!(text_len(b"\0final"), 0);
    assert_eq!(text_len(b""), 0);
}

#[test]
fn matches_ignores_bytes_after_the_terminator() {
    assert!(xr_autosplit::text::matches(b"final\0", b"final"));
    assert!(xr_autosplit::text::matches(b"final\0junk", b"final"));
    assert!(xr_autosplit::text::matches(b"final", b"final"));
    assert!(xr_autosplit::text::matches(b"\0final", b""));
    assert!(xr_autosplit::text::matches(b"", b""));
}

#[test]
fn matches_wants_the_whole_text() {
    assert!(!xr_autosplit::text::matches(b"fina\0", b"final"));
    assert!(!xr_autosplit::text::matches(b"finally\0", b"final"));
    assert!(!xr_autosplit::text::matches(b"final\0", b"fina"));
    assert!(!xr_autosplit::text::matches(b"finaL", b"final"));
    assert!(!xr_autosplit::text::matches(b"fin\0l", b"fin\0l"));
    assert!(!xr_autosplit::text::matches(b"", b"final"));
}

#[test]
fn changed_on_bit_patterns() {
    assert!(Pair { old: 1u32, current: 2u32 }.changed());
    assert!(!Pair { old: 0x3DCC_CCCDu32, current: 0x3DCC_CCCDu32 }.changed());
    assert!(Pair { old: 0u32, current: 0x8000_0000u32 }.changed());
}

#[test]
fn changed_on_text_buffers() {
    assert!(!Pair { old: *b"final", current: *b"final" }.changed());
    assert!(Pair { old: *b"final", current: *b"finaL" }.changed());
    assert!(Pair { old: *b"\0inal", current: *b"final" }.changed());
    assert!(!Pair { old: [0u8; 0], current: [0u8; 0] }.changed());
}
