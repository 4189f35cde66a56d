//! The calibration stage: converts one execution of a new corpus entry into
//! cost and lineage metadata consumed by the host's power-schedule policy.
//!
//! Wall-clock timing is deliberately replaced by an instruction-count cost
//! proxy, and the stage maintains the invariants the host engine does not
//! provide by itself: one-way per-entry calibration, depth propagation from
//! the parent's record, and safe accumulation of the log-domain bitmap
//! statistic.

use vstd::prelude::*;
use vstd::arithmetic::power2::*;
use std::collections::HashSet;

verus! {

/// Reported coverage-instability shape: the set of unstable coverage
/// indices and the count of filled entries.  The instability ratio reported
/// downstream is the size of the former divided by the latter; how the set
/// is populated is the host's business.
#[derive(Debug)]
pub struct UnstableEntriesMetadata {
    pub unstable_entries: HashSet<usize>,
    pub filled_entries_count: usize,
}

impl UnstableEntriesMetadata {
    pub fn new(entries: HashSet<usize>, map_len: usize) -> (m: UnstableEntriesMetadata)
        ensures
            m.unstable_entries == entries,
            m.filled_entries_count == map_len,
    {
        UnstableEntriesMetadata { unstable_entries: entries, filled_entries_count: map_len }
    }

    /// The coverage indices found unstable.
    pub fn unstable_entries(&self) -> (r: &HashSet<usize>)
        ensures
            r == &self.unstable_entries,
    {
        &self.unstable_entries
    }

    /// The number of filled coverage entries, the ratio's denominator.
    pub fn filled_entries_count(&self) -> (r: usize)
        ensures
            r == self.filled_entries_count,
    {
        self.filled_entries_count
    }
}

/// Classification of one target execution's exit.
#[derive(Clone, Copy, PartialEq, Eq, Structural, Debug)]
pub enum ExitClass {
    /// The target ran to completion with a zero status.
    Normal,
    /// The target crashed (nonzero status or fatal signal).
    Crash,
    /// The target ran out of memory.
    Oom,
    /// The target was terminated after the configured timeout.
    Timeout,
}

impl ExitClass {
    /// Every exit but a normal one is abnormal; abnormal exits are logged,
    /// never treated as stage failures.
    pub open spec fn spec_is_abnormal(self) -> bool {
        self != ExitClass::Normal
    }

    pub fn is_abnormal(&self) -> (r: bool)
        ensures
            r == self.spec_is_abnormal(),
    {
        match self {
            ExitClass::Normal => false,
            _ => true,
        }
    }
}

/// What one execution of the entry's program yielded: the exit
/// classification and the coverage map's count of nonzero bytes.
#[derive(Clone, Copy, PartialEq, Eq, Structural, Debug)]
pub struct ExecOutcome {
    pub exit: ExitClass,
    pub bitmap_size: u64,
}

/// Scheduling metadata for one stored program, created at most once per
/// entry on its first calibration and read by the scheduler thereafter.
#[derive(Clone, Copy, PartialEq, Eq, Structural, Debug)]
pub struct CalibrationRecord {
    /// Lineage distance: parent's recorded depth plus one, or zero for an
    /// entry without a parent record.
    pub depth: u64,
    /// Snapshot of the global cycle counter at calibration time; a
    /// later-calibrated entry gets a larger handicap, which the scheduler
    /// uses to favor fresher lineages.
    pub handicap: u64,
    /// Count of nonzero coverage-map bytes observed on the calibration run.
    pub bitmap_size: u64,
    /// The entry's execution cost in time units.
    pub cost: u64,
    /// Calibration cycles spent on the entry; the stage runs the target
    /// exactly once.
    pub cycles: u64,
}

/// The per-entry view the stage works on: how often the entry has been
/// scheduled, its recorded execution cost, and its calibration record.
#[derive(Clone, Copy, PartialEq, Eq, Structural, Debug)]
pub struct EntryMeta {
    /// How many scheduling rounds the entry has been through; zero exactly
    /// until the first round completes.
    pub scheduled_count: u64,
    /// The entry's execution cost in time units, set by calibration.
    pub exec_cost: Option<u64>,
    /// The entry's scheduling record, attached on first calibration.
    pub record: Option<CalibrationRecord>,
}

impl EntryMeta {
    /// A fresh, never-scheduled entry.
    pub fn new() -> (e: EntryMeta)
        ensures
            e.scheduled_count == 0,
            e.exec_cost is None,
            e.record is None,
    {
        EntryMeta { scheduled_count: 0, exec_cost: None, record: None }
    }

    /// Host bookkeeping: one scheduling round of this entry has completed.
    pub fn mark_scheduled(&mut self)
        requires
            old(self).scheduled_count < u64::MAX,
        ensures
            final(self).scheduled_count == old(self).scheduled_count + 1,
            final(self).exec_cost == old(self).exec_cost,
            final(self).record == old(self).record,
    {
        self.scheduled_count = self.scheduled_count + 1;
    }
}

/// Run-wide accumulators consumed by the power-schedule policy: append-only,
/// updated by every first-time calibration, monotonically non-decreasing.
#[derive(Clone, Copy, PartialEq, Eq, Structural, Debug)]
pub struct GlobalCostMetadata {
    /// Total accumulated execution cost, in time units.
    pub exec_time: u64,
    /// Total calibration cycles; also the global cycle counter snapshotted
    /// as each entry's handicap.
    pub cycles: u64,
    /// Total filled (nonzero) coverage-map bytes.
    pub bitmap_size: u64,
    /// Sum of the integer base-2 logarithms of the per-entry filled-byte
    /// counts; an entry with no filled bytes contributes nothing, so the
    /// accumulator can never be poisoned by a logarithm of zero.
    pub bitmap_size_log: u64,
    /// Number of entries calibrated so far.
    pub bitmap_entries: u64,
}

impl GlobalCostMetadata {
    /// Accumulators start at zero.
    pub fn new() -> (g: GlobalCostMetadata)
        ensures
            g == (GlobalCostMetadata {
                exec_time: 0,
                cycles: 0,
                bitmap_size: 0,
                bitmap_size_log: 0,
                bitmap_entries: 0,
            }),
    {
        GlobalCostMetadata { exec_time: 0, cycles: 0, bitmap_size: 0, bitmap_size_log: 0, bitmap_entries: 0 }
    }
}

/// The integer base-2 logarithm, rounded down; zero below two.
pub open spec fn log2_spec(n: nat) -> nat
    decreases n,
{
    if n < 2 {
        0
    } else {
        1 + log2_spec(n / 2)
    }
}

/// A value below `2^b` has an integer base-2 logarithm of at most `b`.
proof fn lemma_log2_spec_bound(n: nat, b: nat)
    requires
        n < pow2(b),
    ensures
        log2_spec(n) <= b,
    decreases n,
{
    if n >= 2 {
        if b == 0 {
            assert(pow2(0) == 1) by {
                lemma2_to64();
            }
        } else {
            assert(pow2(b) == 2 * pow2((b - 1) as nat)) by {
                lemma_pow2_adds(1, (b - 1) as nat);
                lemma2_to64();
            }
            lemma_log2_spec_bound(n / 2, (b - 1) as nat);
        }
    }
}

/// The integer base-2 logarithm of a positive 64-bit value.
pub fn log2_floor(x: u64) -> (r: u64)
    requires
        x >= 1,
    ensures
        r == log2_spec(x as nat),
{
    proof {
        assert(pow2(64) > u64::MAX as nat) by {
            lemma2_to64_rest();
        }
        lemma_log2_spec_bound(x as nat, 64);
    }
    let mut n: u64 = x;
    let mut r: u64 = 0;
    while n >= 2
        invariant
            1 <= n <= x,
            r + log2_spec(n as nat) == log2_spec(x as nat),
            log2_spec(x as nat) <= 64,
        decreases n,
    {
        n = n / 2;
        r = r + 1;
    }
    r
}

/// The depth an entry is calibrated with: an existing record keeps its
/// depth; otherwise the parent's recorded depth plus one, or zero for an
/// entry with no parent or whose parent has no record.
pub open spec fn expected_depth(
    existing: Option<CalibrationRecord>,
    parent: Option<CalibrationRecord>,
) -> int {
    match existing {
        Some(r) => r.depth as int,
        None => match parent {
            Some(p) => p.depth + 1,
            None => 0,
        },
    }
}

/// The global accumulators can absorb one more calibration of the given
/// cost and filled-byte count without overflowing.
pub open spec fn accum_fits(g: GlobalCostMetadata, cost: int, bitmap_size: u64) -> bool {
    &&& g.exec_time + cost <= u64::MAX
    &&& g.cycles + 1 <= u64::MAX
    &&& g.bitmap_size + bitmap_size <= u64::MAX
    &&& g.bitmap_size_log + log2_spec(bitmap_size as nat) <= u64::MAX
    &&& g.bitmap_entries + 1 <= u64::MAX
}

/// One first-time calibration's effect on the global accumulators: cost and
/// cycle count added, filled-byte count added, its integer base-2 logarithm
/// added except for an entry with no filled bytes, and one more calibrated
/// entry counted.
pub open spec fn accumulated(
    g_old: GlobalCostMetadata,
    g_new: GlobalCostMetadata,
    cost: int,
    bitmap_size: u64,
) -> bool {
    &&& g_new.exec_time == g_old.exec_time + cost
    &&& g_new.cycles == g_old.cycles + 1
    &&& g_new.bitmap_size == g_old.bitmap_size + bitmap_size
    &&& g_new.bitmap_size_log == g_old.bitmap_size_log + (if bitmap_size == 0 {
        0
    } else {
        log2_spec(bitmap_size as nat)
    })
    &&& g_new.bitmap_entries == g_old.bitmap_entries + 1
}

/// The handicap snapshotted for an entry calibrated now: the global cycle
/// counter, or zero when no global metadata is registered.
pub open spec fn handicap_of(g: Option<GlobalCostMetadata>) -> u64 {
    match g {
        Some(g) => g.cycles,
        None => 0,
    }
}

/// A first-time calibration's effect on the entry itself: cost recorded,
/// scheduled count untouched, and a record with the propagated depth, the
/// snapshotted handicap, the observed filled-byte count, the computed cost
/// and a single cycle.
pub open spec fn calibrated_entry(
    e_old: EntryMeta,
    e_new: EntryMeta,
    outcome: ExecOutcome,
    parent: Option<CalibrationRecord>,
    cost: int,
    handicap: u64,
) -> bool {
    &&& e_new.scheduled_count == e_old.scheduled_count
    &&& e_new.exec_cost == Some(cost as u64)
    &&& e_new.record == Some(
        CalibrationRecord {
            depth: expected_depth(e_old.record, parent) as u64,
            handicap,
            bitmap_size: outcome.bitmap_size,
            cost: cost as u64,
            cycles: 1,
        },
    )
}

/// The calibration stage.  Pluggable into the host engine's pipeline, where
/// it must run strictly before any mutation or power-scheduling stage.
pub struct DummyCalibration {}

impl DummyCalibration {
    pub fn new() -> (s: DummyCalibration) {
        DummyCalibration {}
    }

    /// Whether the stage still owes this entry its one calibration run: true
    /// exactly until the entry's first scheduling round completes.  The host
    /// executes the target once only when this holds.
    pub fn needs_calibration(&self, entry: &EntryMeta) -> (r: bool)
        ensures
            r == (entry.scheduled_count == 0),
    {
        entry.scheduled_count == 0
    }

    /// One scheduling round of the stage for one entry.
    ///
    /// `outcome` carries the result of executing the entry's program, and is
    /// present exactly when the entry still needs calibration (the host asks
    /// `needs_calibration` before running the target).  `parent` is the
    /// calibration record of the entry's parent, if both exist.
    /// `inst_count` is the length of the entry's program.
    ///
    /// On an entry already scheduled the round is a pure no-op.  Otherwise
    /// the work happens exactly once: the entry's cost is computed as
    /// instruction count plus one, the global accumulators (when registered;
    /// silently skipped otherwise) absorb the run, and the entry gets its
    /// record.  The result says whether the exit was abnormal, which the
    /// host logs at warning severity; a crashing or hanging input is a
    /// discovery, not an error, so the entry is never dropped.
    pub fn perform(
        &self,
        entry: &mut EntryMeta,
        globals: &mut Option<GlobalCostMetadata>,
        outcome: Option<ExecOutcome>,
        parent: Option<CalibrationRecord>,
        inst_count: u64,
    ) -> (warn: bool)
        requires
            (outcome is Some) <==> old(entry).scheduled_count == 0,
            old(entry).scheduled_count == 0 ==> inst_count < u64::MAX,
            old(entry).scheduled_count == 0 ==> match (*old(globals), outcome) {
                (Some(g), Some(o)) => accum_fits(g, inst_count + 1, o.bitmap_size),
                _ => true,
            },
            old(entry).scheduled_count == 0 ==> match (old(entry).record, parent) {
                (None, Some(p)) => p.depth < u64::MAX,
                _ => true,
            },
        ensures
            old(entry).scheduled_count > 0 ==> {
                &&& *final(entry) == *old(entry)
                &&& *final(globals) == *old(globals)
                &&& !warn
            },
            old(entry).scheduled_count == 0 ==> match outcome {
                Some(o) => {
                    &&& warn == o.exit.spec_is_abnormal()
                    &&& calibrated_entry(
                        *old(entry),
                        *final(entry),
                        o,
                        parent,
                        inst_count + 1,
                        handicap_of(*old(globals)),
                    )
                    &&& match (*old(globals), *final(globals)) {
                        (Some(g0), Some(g1)) => accumulated(g0, g1, inst_count + 1, o.bitmap_size),
                        (None, n) => n is None,
                        _ => false,
                    }
                },
                None => false,
            },
    {
        if entry.scheduled_count > 0 {
            return false;
        }
        let o = outcome.unwrap();
        let warn = o.exit.is_abnormal();
        let cost = inst_count + 1;
        let handicap: u64 = match globals {
            Some(g) => {
                let h = g.cycles;
                g.exec_time = g.exec_time + cost;
                g.cycles = g.cycles + 1;
                g.bitmap_size = g.bitmap_size + o.bitmap_size;
                if o.bitmap_size > 0 {
                    g.bitmap_size_log = g.bitmap_size_log + log2_floor(o.bitmap_size);
                }
                g.bitmap_entries = g.bitmap_entries + 1;
                h
            },
            None => 0,
        };
        entry.exec_cost = Some(cost);
        let depth: u64 = match &entry.record {
            Some(r) => r.depth,
            None => match &parent {
                Some(p) => p.depth + 1,
                None => 0,
            },
        };
        entry.record = Some(
            CalibrationRecord { depth, handicap, bitmap_size: o.bitmap_size, cost, cycles: 1 },
        );
        warn
    }
}

} // verus!
