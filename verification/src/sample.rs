//! What one tick reads, and the history kept of it.

use vstd::prelude::*;
use crate::watcher::Watcher;

verus! {

/// Bit pattern of the single-precision number 1337.69, far outside anything
/// the game writes to its sync value.
pub const SYNC_FALLBACK: u32 = 0x44A7_3614;

/// Stands in for the load flag when it cannot be read.
pub const LOAD_FALLBACK: u8 = 1;

/// Outcome of the six reads of one tick; `None` where a read failed.
///
/// `sync` is a single-precision number carried as its IEEE 754 bit pattern,
/// `end` the raw bytes of a five-byte text buffer.
#[derive(Clone, Copy, Debug)]
pub struct Reads {
    pub load: Option<u8>,
    pub no_control: Option<u8>,
    pub is_paused: Option<u8>,
    pub sync: Option<u32>,
    pub level: Option<u8>,
    pub end: Option<[u8; 5]>,
}

/// One value per tracked quantity, failed reads already replaced.
#[derive(Clone, Copy, Debug)]
pub struct RawSample {
    pub load: u8,
    pub no_control: u8,
    pub is_paused: u8,
    pub sync: u32,
    pub level: u8,
    pub end: [u8; 5],
}

impl RawSample {
    /// The sample that `reads` stands for. Each quantity falls back on its
    /// own, so one failed read leaves the other five as they were read. The
    /// fallbacks are values that hold no clock and cross no boundary: a load
    /// flag of 1, a sync value out of every band, zeros and a text buffer of
    /// five NUL bytes elsewhere.
    pub open spec fn of(reads: Reads) -> RawSample {
        RawSample {
            load: match reads.load { Some(v) => v, None => LOAD_FALLBACK },
            no_control: match reads.no_control { Some(v) => v, None => 0u8 },
            is_paused: match reads.is_paused { Some(v) => v, None => 0u8 },
            sync: match reads.sync { Some(v) => v, None => SYNC_FALLBACK },
            level: match reads.level { Some(v) => v, None => 0u8 },
            end: match reads.end {
                Some(v) => v,
                None => vstd::array::spec_array_fill_for_copy_type::<u8, 5>(0u8),
            },
        }
    }

    /// Replaces every failed read by its fallback.
    pub fn from_reads(reads: &Reads) -> (out: RawSample)
        ensures
            out == Self::of(*reads),
    {
        RawSample {
            load: match reads.load { Some(v) => v, None => LOAD_FALLBACK },
            no_control: match reads.no_control { Some(v) => v, None => 0 },
            is_paused: match reads.is_paused { Some(v) => v, None => 0 },
            sync: match reads.sync { Some(v) => v, None => SYNC_FALLBACK },
            level: match reads.level { Some(v) => v, None => 0 },
            end: match reads.end { Some(v) => v, None => [0u8; 5] },
        }
    }
}

/// The text buffer that stands in for a failed read holds five NUL bytes,
/// so its text is empty.
pub proof fn lemma_blank_end(reads: Reads)
    requires
        reads.end is None,
    ensures
        RawSample::of(reads).end@ == seq![0u8, 0u8, 0u8, 0u8, 0u8],
        crate::text::text_of(RawSample::of(reads).end@) == Seq::<u8>::empty(),
{
    let end = RawSample::of(reads).end@;
    assert(end =~= seq![0u8, 0u8, 0u8, 0u8, 0u8]);
    assert(crate::text::is_text_end(end, 0));
    crate::text::lemma_text_end_is(end, 0);
    assert(end.take(0) =~= Seq::<u8>::empty());
}

/// The history of all six quantities. It belongs to one attachment: a new
/// process gets a new, empty set.
#[derive(Clone, Copy, Debug)]
pub struct Watchers {
    pub load: Watcher<u8>,
    pub no_control: Watcher<u8>,
    pub is_paused: Watcher<u8>,
    pub sync: Watcher<u32>,
    pub level: Watcher<u8>,
    pub end: Watcher<[u8; 5]>,
}

impl Watchers {
    /// No quantity has a sample.
    pub open spec fn empty() -> Self {
        Watchers {
            load: Watcher::empty(),
            no_control: Watcher::empty(),
            is_paused: Watcher::empty(),
            sync: Watcher::empty(),
            level: Watcher::empty(),
            end: Watcher::empty(),
        }
    }

    /// The set after one more tick: every watcher takes its quantity.
    pub open spec fn updated(self, raw: RawSample) -> Self {
        Watchers {
            load: self.load.updated(raw.load),
            no_control: self.no_control.updated(raw.no_control),
            is_paused: self.is_paused.updated(raw.is_paused),
            sync: self.sync.updated(raw.sync),
            level: self.level.updated(raw.level),
            end: self.end.updated(raw.end),
        }
    }

    /// The set after the ticks `samples`, oldest first, starting empty.
    pub open spec fn after(samples: Seq<RawSample>) -> Self
        decreases samples.len(),
    {
        if samples.len() == 0 {
            Self::empty()
        } else {
            Self::after(samples.drop_last()).updated(samples.last())
        }
    }

    /// Every quantity has at least one sample.
    pub open spec fn sampled(self) -> bool {
        &&& self.load.pair is Some
        &&& self.no_control.pair is Some
        &&& self.is_paused.pair is Some
        &&& self.sync.pair is Some
        &&& self.level.pair is Some
        &&& self.end.pair is Some
    }

    pub fn new() -> (w: Self)
        ensures
            w == Self::empty(),
    {
        Watchers {
            load: Watcher::new(),
            no_control: Watcher::new(),
            is_paused: Watcher::new(),
            sync: Watcher::new(),
            level: Watcher::new(),
            end: Watcher::new(),
        }
    }

    /// Shifts every watcher by one tick.
    pub fn update(&mut self, raw: RawSample)
        ensures
            *final(self) == old(self).updated(raw),
    {
        self.load.update(raw.load);
        self.no_control.update(raw.no_control);
        self.is_paused.update(raw.is_paused);
        self.sync.update(raw.sync);
        self.level.update(raw.level);
        self.end.update(raw.end);
    }
}

/// One tick of sampling: takes the outcome of the six reads and records it,
/// fallbacks in place of the reads that failed.
pub fn main_loop(reads: &Reads, watchers: &mut Watchers)
    ensures
        *final(watchers) == old(watchers).updated(RawSample::of(*reads)),
        final(watchers).sampled(),
{
    let raw = RawSample::from_reads(reads);
    watchers.update(raw);
}

/// After any tick at all, every quantity has a sample.
pub proof fn lemma_sampled_after(samples: Seq<RawSample>)
    ensures
        Watchers::after(samples).sampled() <==> samples.len() >= 1,
{
}

/// The sample of the tick before the last one, or the only sample there is.
pub open spec fn previous(samples: Seq<RawSample>) -> RawSample
    recommends
        samples.len() >= 1,
{
    if samples.len() >= 2 {
        samples[samples.len() - 2]
    } else {
        samples[0]
    }
}

/// However long an attachment has lasted, its history is that of its two
/// most recent ticks: every `old` is the value of the tick before the last,
/// every `current` that of the last. After a single tick both are that
/// tick's value.
pub proof fn law_history_is_last_two(samples: Seq<RawSample>)
    requires
        samples.len() >= 1,
    ensures
        Watchers::after(samples) == Watchers::empty().updated(previous(samples)).updated(
            samples.last(),
        ),
    decreases samples.len(),
{
    let before = samples.drop_last();
    if before.len() >= 1 {
        law_history_is_last_two(before);
        assert(before.last() == previous(samples));
    } else {
        assert(Watchers::after(before) == Watchers::empty());
    }
}

} // verus!
