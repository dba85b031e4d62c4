//! Progress accounting shared by the download and extraction stages.
use vstd::prelude::*;

verus! {

/// The value reported while the total amount of work is unknown.
pub const NOMINAL_PERCENT: u8 = 50;

/// Whole percent of `total` covered by `processed`, rounded down and capped at 100.
pub open spec fn percent_of(processed: nat, total: nat) -> nat
    recommends
        total > 0,
{
    let raw = (processed * 100) / total;
    if raw > 100 {
        100
    } else {
        raw
    }
}

/// One progress reading: either computed from a known total, or the nominal
/// midpoint that stands in while the total is unknown.
#[derive(Clone, Copy, Debug, PartialEq, Eq, Structural)]
pub enum Progress {
    Measured(u8),
    Nominal,
}

impl Progress {
    /// The percentage this reading stands for.
    pub open spec fn value(self) -> nat {
        match self {
            Progress::Measured(p) => p as nat,
            Progress::Nominal => NOMINAL_PERCENT as nat,
        }
    }

    pub open spec fn is_nominal(self) -> bool {
        self is Nominal
    }

    /// The percentage to show for this reading.
    pub fn percent(&self) -> (p: u8)
        ensures
            p as nat == self.value(),
    {
        match self {
            Progress::Measured(p) => *p,
            Progress::Nominal => NOMINAL_PERCENT,
        }
    }
}

/// The reading that a tracker with the given counts reports.
pub open spec fn reading(processed: nat, total: nat) -> Progress {
    if total == 0 {
        Progress::Nominal
    } else {
        Progress::Measured(percent_of(processed, total) as u8)
    }
}

/// Counts work done against a total. A total of zero means that the total is
/// unknown, in which case every reading is nominal.
#[derive(Clone, Copy, Debug)]
pub struct ProgressTracker {
    processed: u64,
    total: u64,
}

impl ProgressTracker {
    pub closed spec fn processed(&self) -> nat {
        self.processed as nat
    }

    pub closed spec fn total(&self) -> nat {
        self.total as nat
    }

    /// A tracker with nothing processed yet.
    pub fn new(total: u64) -> (t: ProgressTracker)
        ensures
            t.processed() == 0,
            t.total() == total,
    {
        ProgressTracker { processed: 0, total }
    }

    /// Units processed so far.
    pub fn done(&self) -> (n: u64)
        ensures
            n == self.processed(),
    {
        self.processed
    }

    /// The declared total, zero when unknown.
    pub fn declared_total(&self) -> (n: u64)
        ensures
            n == self.total(),
    {
        self.total
    }

    /// Records `amount` more units of work.
    pub fn advance(&mut self, amount: u64)
        requires
            old(self).processed() + amount <= u64::MAX,
        ensures
            final(self).processed() == old(self).processed() + amount,
            final(self).total() == old(self).total(),
    {
        self.processed = self.processed + amount;
    }

    /// The current reading: nominal when the total is unknown, otherwise the
    /// whole percent of the total that has been processed, capped at 100.
    pub fn progress(&self) -> (p: Progress)
        ensures
            p == reading(self.processed(), self.total()),
            p.value() <= 100,
    {
        if self.total == 0 {
            Progress::Nominal
        } else {
            let scaled: u128 = (self.processed as u128) * 100;
            let raw: u128 = scaled / (self.total as u128);
            if raw > 100 {
                Progress::Measured(100)
            } else {
                Progress::Measured(raw as u8)
            }
        }
    }

    /// The current reading as a percentage.
    pub fn percent(&self) -> (p: u8)
        ensures
            p as nat == reading(self.processed(), self.total()).value(),
            p <= 100,
    {
        self.progress().percent()
    }
}

/// With a fixed known total, more work processed never lowers the percentage.
pub proof fn lemma_percent_monotonic(earlier: nat, later: nat, total: nat)
    requires
        earlier <= later,
        total > 0,
    ensures
        percent_of(earlier, total) <= percent_of(later, total),
{
    assert((earlier * 100) / total <= (later * 100) / total) by (nonlinear_arith)
        requires
            earlier <= later,
            total > 0,
    ;
}

} // verus!
