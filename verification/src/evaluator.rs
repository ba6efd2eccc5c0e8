//! The three predicates that turn sample history into timer decisions.
//!
//! Each reads only the two most recent samples of the quantities it names,
//! so the interval between ticks never changes an answer.

use vstd::prelude::*;
use crate::sample::{law_history_is_last_two, RawSample, Reads, Watchers};
use crate::text::text_of;

verus! {

/// Bit pattern of 0.057, the lower end of the fade band.
pub const FADE_LOW: u32 = 0x3D69_78D5;

/// Bit pattern of 0.11, the upper end of the fade band.
pub const FADE_HIGH: u32 = 0x3DE1_47AE;

/// Bit pattern of negative zero, which compares equal to zero.
pub const NEGATIVE_ZERO: u32 = 0x8000_0000;

/// The two switches the user controls.
#[derive(Clone, Copy, Debug, PartialEq, Eq)]
pub struct Settings {
    /// Split whenever the level changes, not only at the end of the game.
    pub autosplit_per_level: bool,
    /// Sample at half the usual rate.
    pub slow_pc_mode: bool,
}

impl Settings {
    /// Per-level splitting on, slow mode off.
    pub open spec fn initial() -> Self {
        Settings { autosplit_per_level: true, slow_pc_mode: false }
    }
}

impl Default for Settings {
    fn default() -> (s: Self)
        ensures
            s == Settings::initial(),
    {
        Settings { autosplit_per_level: true, slow_pc_mode: false }
    }
}

/// The sync value is zero, of either sign.
pub open spec fn sync_is_zero(bits: u32) -> bool {
    bits == 0 || bits == NEGATIVE_ZERO
}

/// The sync value lies in the closed band from 0.057 to 0.11, the opacity
/// ramp of a loading screen. Positive single-precision numbers are ordered
/// as their bit patterns are, and no negative number or NaN has a pattern in
/// this range.
pub open spec fn sync_in_fade_band(bits: u32) -> bool {
    FADE_LOW <= bits <= FADE_HIGH
}

/// The text that the end buffer holds when the game is won: `final`.
pub open spec fn final_text() -> Seq<u8> {
    seq![102u8, 105u8, 110u8, 97u8, 108u8]
}

/// The load flag went from exactly 0 to exactly 1.
pub open spec fn start_spec(w: Watchers) -> bool {
    match w.load.pair {
        Some(p) => p.old == 0 && p.current == 1,
        None => false,
    }
}

/// Whether the game is loading as of the latest sample, `None` while one of
/// the four quantities it reads has no sample.
pub open spec fn is_loading_spec(w: Watchers) -> Option<bool> {
    match (w.load.pair, w.no_control.pair, w.is_paused.pair, w.sync.pair) {
        (Some(load), Some(no_control), Some(is_paused), Some(sync)) => Some(
            load.current == 0 || (is_paused.current == 0 && sync_is_zero(sync.current))
                || sync_in_fade_band(sync.current) || no_control.current == 1,
        ),
        _ => None,
    }
}

/// The level changed to a level other than 0. Level 0 stands for no level
/// at all, so leaving it for a level is a boundary and falling back to it is
/// none.
pub open spec fn level_advanced(w: Watchers) -> bool {
    match w.level.pair {
        Some(p) => p.old != p.current && p.current != 0,
        None => false,
    }
}

/// The end buffer reads `final`. The sync value plays no part in this.
pub open spec fn game_won(w: Watchers) -> bool {
    match w.end.pair {
        Some(p) => text_of(p.current@) == final_text(),
        None => false,
    }
}

/// A split boundary was crossed: the game was won, or, with per-level
/// splitting on, a new level was entered.
pub open spec fn split_spec(w: Watchers, settings: Settings) -> bool {
    (settings.autosplit_per_level && level_advanced(w)) || game_won(w)
}

/// Whether a run begins on this tick. Without a load sample it does not.
pub fn start(watchers: &Watchers) -> (b: bool)
    ensures
        b == start_spec(*watchers),
{
    match watchers.load.pair {
        Some(p) => p.changed_from_to(0, 1),
        None => false,
    }
}

/// Whether game time stands still as of this tick; `None` where that cannot
/// be decided yet.
pub fn is_loading(watchers: &Watchers) -> (r: Option<bool>)
    ensures
        r == is_loading_spec(*watchers),
{
    match (watchers.load.pair, watchers.no_control.pair, watchers.is_paused.pair, watchers.sync.pair) {
        (Some(load), Some(no_control), Some(is_paused), Some(sync)) => {
            let s: u32 = sync.current;
            let zero: bool = s == 0 || s == NEGATIVE_ZERO;
            let fade: bool = FADE_LOW <= s && s <= FADE_HIGH;
            Some(load.current == 0 || (is_paused.current == 0 && zero) || fade || no_control.current == 1)
        },
        _ => None,
    }
}

/// Whether this tick crosses a split boundary.
pub fn split(watchers: &Watchers, settings: &Settings) -> (b: bool)
    ensures
        b == split_spec(*watchers, *settings),
{
    let won: bool = match watchers.end.pair {
        Some(p) => {
            let text: [u8; 5] = [102, 105, 110, 97, 108];
            assert(text@ =~= final_text());
            crate::text::matches(p.current.as_slice(), text.as_slice())
        },
        None => false,
    };
    if settings.autosplit_per_level {
        let advanced: bool = match watchers.level.pair {
            Some(p) => p.changed() && p.current != 0,
            None => false,
        };
        advanced || won
    } else {
        won
    }
}

/// A run begins on a tick exactly when the tick before it sampled a load
/// flag of 0 and this one samples 1. In particular it never begins on the
/// first tick of an attachment, nor while the flag stays at 1.
pub proof fn law_start_on_rising_edge(samples: Seq<RawSample>)
    ensures
        start_spec(Watchers::after(samples)) <==> (samples.len() >= 2 && samples[samples.len()
            - 2].load == 0 && samples[samples.len() - 1].load == 1),
{
    if samples.len() >= 1 {
        law_history_is_last_two(samples);
    }
}

/// A level boundary is crossed on a tick exactly when the level it samples
/// is not 0 and differs from the level of the tick before. A level that
/// stays, and the first tick of an attachment, cross none.
pub proof fn law_level_split_on_change(samples: Seq<RawSample>)
    ensures
        level_advanced(Watchers::after(samples)) <==> (samples.len() >= 2 && samples[samples.len()
            - 2].level != samples[samples.len() - 1].level && samples[samples.len() - 1].level
            != 0),
{
    if samples.len() >= 1 {
        law_history_is_last_two(samples);
    }
}

/// Loading can be decided exactly when the load flag, the control lock, the
/// pause flag and the sync value each have a sample; the level and the end
/// text are not asked.
pub proof fn law_loading_needs_its_four(w: Watchers)
    ensures
        is_loading_spec(w) is Some <==> (w.load.pair is Some && w.no_control.pair is Some
            && w.is_paused.pair is Some && w.sync.pair is Some),
{
}

/// Loading cannot be decided before the first tick and can be decided after
/// every tick from then on.
pub proof fn law_loading_decidable(samples: Seq<RawSample>)
    ensures
        is_loading_spec(Watchers::after(samples)) is Some <==> samples.len() >= 1,
        is_loading_spec(Watchers::empty()) is None,
{
    crate::sample::lemma_sampled_after(samples);
}

/// Once decidable, a sync value inside the fade band means loading whatever
/// the other quantities hold.
pub proof fn law_fade_band_is_loading(w: Watchers)
    requires
        is_loading_spec(w) is Some,
        sync_in_fade_band(w.sync.pair->Some_0.current),
    ensures
        is_loading_spec(w) == Some(true),
{
}

/// A tick on which every read fails holds no clock and crosses no split
/// boundary: the fallbacks are out of reach of every band and text.
pub proof fn law_failed_reads_are_quiet(w: Watchers, reads: Reads, settings: Settings)
    requires
        reads.load is None,
        reads.no_control is None,
        reads.is_paused is None,
        reads.sync is None,
        reads.level is None,
        reads.end is None,
    ensures
        is_loading_spec(w.updated(RawSample::of(reads))) == Some(false),
        !split_spec(w.updated(RawSample::of(reads)), settings),
{
    crate::sample::lemma_blank_end(reads);
    assert(final_text().len() == 5);
}

/// A tick whose end text reads `final` crosses a split boundary whatever
/// the history, the sync value and the settings are.
pub proof fn law_final_text_always_splits(w: Watchers, raw: RawSample, settings: Settings)
    requires
        text_of(raw.end@) == final_text(),
    ensures
        split_spec(w.updated(raw), settings),
{
}

/// A tick that samples what the tick before it sampled never begins a run.
pub proof fn law_repeat_never_starts(w: Watchers, raw: RawSample)
    ensures
        !start_spec(w.updated(raw).updated(raw)),
{
}

/// A tick that samples what the tick before it sampled crosses no split
/// boundary, unless the game is won: the end text is a state, not an edge,
/// and splits on every tick for which it reads `final`.
pub proof fn law_repeat_never_splits(w: Watchers, raw: RawSample, settings: Settings)
    requires
        text_of(raw.end@) != final_text(),
    ensures
        !split_spec(w.updated(raw).updated(raw), settings),
{
}

} // verus!
