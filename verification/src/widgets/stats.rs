//! The system statistics panel: a table of readings, the load chart and the
//! trend of free memory.

use crate::layout::{Bands, Region};
use ratatui::style::Style;
use std::collections::VecDeque;
use vstd::prelude::*;

verus! {

/// Time in which the table shows each valid mount once, in milliseconds.
pub const MOUNT_PERIOD_MS: u128 = 4000;

/// Bytes in the unit that the table shows sizes in.
pub const BYTES_PER_MEGABYTE: u64 = 1048576;

/// How many readings of free memory the history keeps.
pub const HISTORY_CAPACITY: usize = 40;

/// Free and total size of a memory, a swap space or a mount.
#[derive(Clone, Copy, Debug, PartialEq, Eq, Structural)]
pub struct Usage {
    pub free: u64,
    pub total: u64,
}

impl Usage {
    /// A mount is shown only if it has room left and a size.
    pub open spec fn is_valid(self) -> bool {
        self.free > 0 && self.total > 0
    }

    /// The same sizes in whole megabytes, rounded down.
    pub open spec fn in_megabytes(self) -> Usage {
        Usage { free: self.free / BYTES_PER_MEGABYTE, total: self.total / BYTES_PER_MEGABYTE }
    }

    /// Converts sizes in bytes to whole megabytes, rounding down.
    pub fn megabytes(self) -> (scaled: Usage)
        ensures
            scaled == self.in_megabytes(),
    {
        Usage { free: self.free / BYTES_PER_MEGABYTE, total: self.total / BYTES_PER_MEGABYTE }
    }
}

/// Time since the system started.
#[derive(Clone, Copy, Debug, PartialEq, Eq, Structural)]
pub struct Uptime {
    pub secs: u64,
    pub subsec_nanos: u32,
}

impl Uptime {
    /// The uptime shown for a query: its result, or zero where it failed.
    pub open spec fn shown(reading: Option<Uptime>) -> Uptime {
        match reading {
            Some(uptime) => uptime,
            None => (Uptime { secs: 0, subsec_nanos: 0 }),
        }
    }

    /// Puts zero in the place of a failed query.
    pub fn or_zero(reading: Option<Uptime>) -> (uptime: Uptime)
        ensures
            uptime == Uptime::shown(reading),
    {
        match reading {
            Some(uptime) => uptime,
            None => Uptime { secs: 0, subsec_nanos: 0 },
        }
    }
}

/// The load averages over one, five and fifteen minutes. Each is held as
/// the bit pattern of the single-precision number that the system reports,
/// so that it passes through unchanged; all bits zero is a load of zero.
#[derive(Clone, Copy, Debug, PartialEq, Eq, Structural)]
pub struct Load {
    pub one: u32,
    pub five: u32,
    pub fifteen: u32,
}

impl Load {
    /// The load shown for a query: its result, or zero three times where it
    /// failed.
    pub open spec fn shown(reading: Option<Load>) -> Load {
        match reading {
            Some(load) => load,
            None => (Load { one: 0, five: 0, fifteen: 0 }),
        }
    }

    /// Puts zero in the place of a failed query.
    pub fn or_zero(reading: Option<Load>) -> (load: Load)
        ensures
            load == Load::shown(reading),
    {
        match reading {
            Some(load) => load,
            None => Load { one: 0, five: 0, fifteen: 0 },
        }
    }
}

/// One round of queries to the system. A query that failed is `None`.
#[derive(Debug)]
pub struct Sample {
    pub uptime: Option<Uptime>,
    pub memory: Option<Usage>,
    pub swap: Option<Usage>,
    pub load: Option<Load>,
    pub mounts: Option<Vec<Usage>>,
}

/// What the statistics widget draws into a region.
#[derive(Debug)]
pub struct StatsView {
    /// Where the table and the two charts go.
    pub bands: Bands,
    /// The uptime; zero where the query failed.
    pub uptime: Uptime,
    /// Memory in megabytes; `None` where the query failed.
    pub memory: Option<Usage>,
    /// Swap space in megabytes; `None` where the query failed.
    pub swap: Option<Usage>,
    /// The load averages; zero where the query failed.
    pub load: Load,
    /// The mount whose turn it is, in megabytes; `None` where no mount is
    /// valid.
    pub mount: Option<Usage>,
    /// The history of free memory, each reading less the smallest.
    pub trend: Vec<u64>,
    /// The newest reading in the history; zero while it is empty.
    pub latest: u64,
}

/// The reading that a query for free memory stands for: its result, or zero
/// where it failed.
pub open spec fn reading_of(free_memory: Option<u64>) -> u64 {
    match free_memory {
        Some(value) => value,
        None => 0,
    }
}

/// No reading is directly followed by an equal one.
pub open spec fn no_repeats(history: Seq<u64>) -> bool {
    forall|i: int| 0 < i < history.len() ==> history[i - 1] != #[trigger] history[i]
}

/// The history after `value` was read. A reading equal to the newest one is
/// dropped. Any other is added at the end, and the oldest leaves if that
/// makes the history longer than `HISTORY_CAPACITY`.
pub open spec fn recorded(history: Seq<u64>, value: u64) -> Seq<u64> {
    if history.len() > 0 && history.last() == value {
        history
    } else if history.len() + 1 > HISTORY_CAPACITY {
        history.push(value).drop_first()
    } else {
        history.push(value)
    }
}

/// Recording a reading keeps a history within its capacity and free of
/// repeats.
pub proof fn lemma_recorded_keeps_history(history: Seq<u64>, value: u64)
    requires
        history.len() <= HISTORY_CAPACITY,
        no_repeats(history),
    ensures
        recorded(history, value).len() <= HISTORY_CAPACITY,
        no_repeats(recorded(history, value)),
        recorded(history, value).len() > 0,
        recorded(history, value).last() == value,
{
    let after = recorded(history, value);
    assert forall|i: int| 0 < i < after.len() implies after[i - 1] != #[trigger] after[i] by {
        if history.len() > 0 && history.last() == value {
        } else if history.len() + 1 > HISTORY_CAPACITY {
            if i < after.len() - 1 {
                assert(history[i] != history[i + 1]);
            }
        } else {
            if i < history.len() {
                assert(history[i - 1] != history[i]);
            }
        }
    }
}

/// The smallest of `values`; zero if there is none.
pub open spec fn least(values: Seq<u64>) -> u64
    decreases values.len(),
{
    if values.len() == 0 {
        0
    } else {
        let rest = least(values.drop_last());
        if values.len() == 1 || values.last() < rest {
            values.last()
        } else {
            rest
        }
    }
}

/// `least` is a lower bound of the values and, if there are any, one of
/// them.
pub proof fn lemma_least_is_minimum(values: Seq<u64>)
    ensures
        forall|i: int| 0 <= i < values.len() ==> least(values) <= #[trigger] values[i],
        values.len() > 0 ==> exists|i: int| 0 <= i < values.len() && values[i] == least(values),
    decreases values.len(),
{
    if values.len() > 1 {
        let front = values.drop_last();
        lemma_least_is_minimum(front);
        assert forall|i: int| 0 <= i < values.len() implies least(values) <= #[trigger] values[i] by {
            if i < front.len() {
                assert(front[i] == values[i]);
            }
        }
        let k = choose|k: int| 0 <= k < front.len() && front[k] == least(front);
        assert(values[k] == front[k]);
        assert(values[values.len() - 1] == values.last());
    } else if values.len() == 1 {
        assert(values[0] == least(values));
    }
}

/// The trend line of a history: every reading less the smallest one.
pub open spec fn trend_of(history: Seq<u64>) -> Seq<u64> {
    Seq::new(history.len(), |i: int| (history[i] - least(history)) as u64)
}

/// The trend line has a zero baseline: every entry is its reading less the
/// smallest reading, none is negative, and the smallest reading itself is
/// drawn as zero.
pub proof fn lemma_trend_baseline(history: Seq<u64>)
    ensures
        trend_of(history).len() == history.len(),
        forall|i: int|
            0 <= i < history.len() ==> (#[trigger] trend_of(history)[i]) == history[i] - least(
                history,
            ),
        history.len() > 0 ==> exists|i: int|
            0 <= i < history.len() && history[i] == least(history) && trend_of(history)[i] == 0,
{
    lemma_least_is_minimum(history);
    if history.len() > 0 {
        let k = choose|k: int| 0 <= k < history.len() && history[k] == least(history);
        assert(trend_of(history)[k] == 0);
    }
}

/// The mounts that are shown: those with room left and a size, in the
/// order reported.
pub open spec fn valid_mounts(mounts: Seq<Usage>) -> Seq<Usage> {
    mounts.filter(|mount: Usage| mount.is_valid())
}

/// Which of `count` valid mounts is shown after `elapsed_ms`: the share of
/// the mount period that has passed, taken of `count` and rounded down.
pub open spec fn selection_at(elapsed_ms: nat, count: nat) -> nat {
    ((elapsed_ms % (MOUNT_PERIOD_MS as nat)) * count) / (MOUNT_PERIOD_MS as nat)
}

/// The selection always names one of the valid mounts, if there is any.
pub proof fn lemma_selection_in_range(elapsed_ms: nat, count: nat)
    requires
        count > 0,
    ensures
        selection_at(elapsed_ms, count) < count,
{
    let within = elapsed_ms % (MOUNT_PERIOD_MS as nat);
    assert(within * count / 4000 < count) by (nonlinear_arith)
        requires
            0 <= within < 4000,
            count > 0,
    ;
}

/// The mount shown after `elapsed_ms`, in megabytes; none where no mount
/// is valid.
pub open spec fn selected_mount(elapsed_ms: nat, mounts: Seq<Usage>) -> Option<Usage> {
    let valid = valid_mounts(mounts);
    if valid.len() == 0 {
        None
    } else {
        Some(valid[selection_at(elapsed_ms, valid.len()) as int].in_megabytes())
    }
}

/// The mounts of a sample; none where the query failed.
pub open spec fn mounts_of(mounts: Option<Vec<Usage>>) -> Seq<Usage> {
    match mounts {
        Some(list) => list@,
        None => Seq::empty(),
    }
}

/// Picks the mount to show after `elapsed_ms`.
pub fn select_mount(elapsed_ms: u128, mounts: &Vec<Usage>) -> (chosen: Option<Usage>)
    ensures
        chosen == selected_mount(elapsed_ms as nat, mounts@),
{
    let mut valid: Vec<Usage> = Vec::new();
    let mut i: usize = 0;
    proof {
        reveal(Seq::filter);
        assert(mounts@.subrange(0, 0) == Seq::<Usage>::empty());
    }
    while i < mounts.len()
        invariant
            i <= mounts.len(),
            valid@ == valid_mounts(mounts@.subrange(0, i as int)),
        decreases mounts.len() - i,
    {
        let mount: Usage = mounts[i];
        proof {
            reveal(Seq::filter);
            let upto = mounts@.subrange(0, i + 1);
            assert(upto.drop_last() == mounts@.subrange(0, i as int));
            assert(upto.last() == mount);
        }
        if mount.free > 0 && mount.total > 0 {
            valid.push(mount);
        }
        i += 1;
    }
    proof {
        assert(mounts@.subrange(0, i as int) == mounts@);
    }
    if valid.len() == 0 {
        return None;
    }
    let within: u128 = elapsed_ms % MOUNT_PERIOD_MS;
    let count: u128 = valid.len() as u128;
    proof {
        lemma_selection_in_range(elapsed_ms as nat, valid.len() as nat);
        assert(within * count <= 3999 * 0xffff_ffff_ffff_ffff) by (nonlinear_arith)
            requires
                0 <= within <= 3999,
                0 <= count <= 0xffff_ffff_ffff_ffff,
        ;
    }
    let index: usize = (within * count / MOUNT_PERIOD_MS) as usize;
    Some(valid[index].megabytes())
}

/// The statistics widget: the elapsed time and the history of free memory.
pub struct Stats {
    style: Style,
    elapsed_ms: u128,
    mem: VecDeque<u64>,
}

impl Stats {
    #[verifier::type_invariant]
    spec fn inv(self) -> bool {
        self.mem@.len() <= HISTORY_CAPACITY && no_repeats(self.mem@)
    }

    /// The style given at construction.
    pub closed spec fn spec_style(&self) -> Style {
        self.style
    }

    /// The elapsed time of the last update.
    pub closed spec fn spec_elapsed_ms(&self) -> u128 {
        self.elapsed_ms
    }

    /// The readings of free memory that are kept, oldest first.
    pub closed spec fn spec_history(&self) -> Seq<u64> {
        self.mem@
    }

    /// A widget with no time elapsed and an empty history.
    pub fn new(style: Style) -> (stats: Stats)
        ensures
            stats.spec_style() == style,
            stats.spec_elapsed_ms() == 0,
            stats.spec_history() == Seq::<u64>::empty(),
    {
        Stats { style, elapsed_ms: 0, mem: VecDeque::with_capacity(HISTORY_CAPACITY) }
    }

    /// Stores the elapsed time and records the reading of free memory, zero
    /// where the query failed. The history stays within its capacity and
    /// free of repeats.
    pub fn update(&mut self, elapsed_ms: u128, free_memory: Option<u64>)
        ensures
            final(self).spec_style() == old(self).spec_style(),
            final(self).spec_elapsed_ms() == elapsed_ms,
            final(self).spec_history() == recorded(old(self).spec_history(), reading_of(free_memory)),
            final(self).spec_history().len() <= HISTORY_CAPACITY,
            no_repeats(final(self).spec_history()),
    {
        proof {
            use_type_invariant(&*self);
            lemma_recorded_keeps_history(self.mem@, reading_of(free_memory));
        }
        let ghost before = self.mem@;
        self.elapsed_ms = elapsed_ms;
        let value: u64 = match free_memory {
            Some(value) => value,
            None => 0,
        };
        // The history is taken out while it changes, so that the widget is
        // whole at every step.
        let mut mem: VecDeque<u64> = VecDeque::new();
        core::mem::swap(&mut self.mem, &mut mem);
        let len: usize = mem.len();
        let repeated: bool = len > 0 && mem[len - 1] == value;
        if !repeated {
            if len >= HISTORY_CAPACITY {
                mem.pop_front();
            }
            proof {
                assert(mem@.push(value) == recorded(before, value));
            }
            mem.push_back(value);
        }
        core::mem::swap(&mut self.mem, &mut mem);
    }

    /// The style given at construction.
    #[verifier::when_used_as_spec(spec_style)]
    pub fn style(&self) -> (style: Style)
        ensures
            style == self.spec_style(),
    {
        self.style
    }

    /// The elapsed time of the last update, in milliseconds.
    #[verifier::when_used_as_spec(spec_elapsed_ms)]
    pub fn elapsed_ms(&self) -> (elapsed: u128)
        ensures
            elapsed == self.spec_elapsed_ms(),
    {
        self.elapsed_ms
    }

    /// The readings of free memory that are kept, oldest first: never more
    /// than `HISTORY_CAPACITY`, and no two neighbours equal.
    pub fn history(&self) -> (history: Vec<u64>)
        ensures
            history@ == self.spec_history(),
            history.len() <= HISTORY_CAPACITY,
            no_repeats(history@),
    {
        proof {
            use_type_invariant(self);
        }
        let mut history: Vec<u64> = Vec::new();
        let mut i: usize = 0;
        while i < self.mem.len()
            invariant
                i <= self.mem.len(),
                history@ == self.mem@.subrange(0, i as int),
            decreases self.mem.len() - i,
        {
            history.push(self.mem[i]);
            proof {
                assert(history@ == self.mem@.subrange(0, i + 1));
            }
            i += 1;
        }
        proof {
            assert(self.mem@.subrange(0, i as int) == self.mem@);
        }
        history
    }

    /// The trend line of the history: every reading less the smallest one.
    pub fn trend(&self) -> (trend: Vec<u64>)
        ensures
            trend@ == trend_of(self.spec_history()),
    {
        let len: usize = self.mem.len();
        let mut least_so_far: u64 = 0;
        let mut i: usize = 0;
        proof {
            assert(self.mem@.subrange(0, 0) == Seq::<u64>::empty());
        }
        while i < len
            invariant
                len == self.mem.len(),
                i <= len,
                least_so_far == least(self.mem@.subrange(0, i as int)),
            decreases len - i,
        {
            let value: u64 = self.mem[i];
            proof {
                let upto = self.mem@.subrange(0, i + 1);
                assert(upto.drop_last() == self.mem@.subrange(0, i as int));
                assert(upto.last() == value);
            }
            if i == 0 || value < least_so_far {
                least_so_far = value;
            }
            i += 1;
        }
        proof {
            assert(self.mem@.subrange(0, len as int) == self.mem@);
            lemma_least_is_minimum(self.mem@);
        }
        let mut trend: Vec<u64> = Vec::new();
        let mut k: usize = 0;
        while k < len
            invariant
                len == self.mem.len(),
                k <= len,
                least_so_far == least(self.mem@),
                forall|j: int| 0 <= j < len ==> least_so_far <= #[trigger] self.mem@[j],
                trend.len() == k,
                forall|j: int| 0 <= j < k ==> trend[j] == self.mem@[j] - least_so_far,
            decreases len - k,
        {
            trend.push(self.mem[k] - least_so_far);
            k += 1;
        }
        proof {
            assert(trend@ =~= trend_of(self.mem@));
        }
        trend
    }

    /// Whether `view` is what the widget shows in `area` for the readings
    /// in `sample`. Sizes are given in megabytes. A failed query for the
    /// uptime or the load shows as zero, one for memory or swap as no value,
    /// one for the mounts as no mount.
    pub open spec fn shows(&self, area: Region, sample: Sample, view: StatsView) -> bool {
        &&& view.bands == Bands::of(area)
        &&& view.uptime == Uptime::shown(sample.uptime)
        &&& view.memory == match sample.memory {
            Some(usage) => Some(usage.in_megabytes()),
            None => None,
        }
        &&& view.swap == match sample.swap {
            Some(usage) => Some(usage.in_megabytes()),
            None => None,
        }
        &&& view.load == Load::shown(sample.load)
        &&& view.mount == selected_mount(self.spec_elapsed_ms() as nat, mounts_of(sample.mounts))
        &&& view.trend@ == trend_of(self.spec_history())
        &&& view.latest == if self.spec_history().len() > 0 {
            self.spec_history().last()
        } else {
            0
        }
    }

    /// Describes what to draw into `area` for the readings in `sample`.
    pub fn render(&self, area: Region, sample: &Sample) -> (view: StatsView)
        requires
            area.wf(),
        ensures
            self.shows(area, *sample, view),
            view.bands.tiles(area),
    {
        let uptime: Uptime = Uptime::or_zero(sample.uptime);
        let memory: Option<Usage> = match sample.memory {
            Some(usage) => Some(usage.megabytes()),
            None => None,
        };
        let swap: Option<Usage> = match sample.swap {
            Some(usage) => Some(usage.megabytes()),
            None => None,
        };
        let load: Load = Load::or_zero(sample.load);
        let mount: Option<Usage> = match &sample.mounts {
            Some(list) => select_mount(self.elapsed_ms, list),
            None => None,
        };
        let len: usize = self.mem.len();
        let latest: u64 = if len > 0 { self.mem[len - 1] } else { 0 };
        StatsView {
            bands: Bands::new(area),
            uptime,
            memory,
            swap,
            load,
            mount,
            trend: self.trend(),
            latest,
        }
    }
}

} // verus!
