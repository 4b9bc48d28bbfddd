//! The optimizer: the plan language, the parts of the cost model that read
//! the catalog, and the control of the rewriting stages.
//!
//! Optimization runs in two stages. The pushdown stage is repeated in rounds:
//! each round rewrites and extracts the cheapest plan, and the rounds stop at
//! the first one whose cost does not strictly improve, or at a fixed cap. The
//! join stage then runs once on the result.

pub mod cost;
pub mod expr;

use vstd::prelude::*;

use crate::catalog::RootCatalog;

verus! {

/// The most rounds of the pushdown stage.
pub const PUSHDOWN_ROUND_CAP: u32 = 10;

/// The most rule-application iterations within one round of the pushdown
/// stage.
pub const PUSHDOWN_ITER_LIMIT: u32 = 60;

/// Optimizer configurations.
#[derive(Debug, Clone, Copy, PartialEq, Eq, Structural)]
pub struct Config {
    pub enable_range_filter_scan: bool,
    pub table_is_sorted_by_primary_key: bool,
}

impl Default for Config {
    fn default() -> (r: Config)
        ensures
            !r.enable_range_filter_scan,
            !r.table_is_sorted_by_primary_key,
    {
        Config { enable_range_filter_scan: false, table_is_sorted_by_primary_key: false }
    }
}

/// A named group of rewrite rules.
#[derive(Debug, Clone, Copy, PartialEq, Eq, Structural)]
pub enum RuleSet {
    /// Filter simplification and fusion of filters into scans.
    Pushdown,
    /// Fusion of range predicates into scans.
    RangeFilterScan,
    /// Join reordering and the choice of join algorithms.
    JoinReorder,
}

/// Plan optimizer.
pub struct Optimizer {
    pub catalog: RootCatalog,
    pub config: Config,
}

impl Optimizer {
    /// Creates a new optimizer.
    pub fn new(catalog: RootCatalog, config: Config) -> (r: Self)
        ensures
            r.catalog == catalog,
            r.config == config,
    {
        Optimizer { catalog, config }
    }

    /// The rule sets of the pushdown stage: range-filter fusion joins the
    /// pushdown rules only where the configuration enables it.
    pub fn pushdown_rules(&self) -> (r: Vec<RuleSet>)
        ensures
            r@ == (if self.config.enable_range_filter_scan {
                seq![RuleSet::Pushdown, RuleSet::RangeFilterScan]
            } else {
                seq![RuleSet::Pushdown]
            }),
    {
        let mut rules: Vec<RuleSet> = Vec::new();
        rules.push(RuleSet::Pushdown);
        if self.config.enable_range_filter_scan {
            rules.push(RuleSet::RangeFilterScan);
        }
        rules
    }

    /// The rule sets of the join stage.
    pub fn join_rules(&self) -> (r: Vec<RuleSet>)
        ensures
            r@ == seq![RuleSet::JoinReorder],
    {
        let mut rules: Vec<RuleSet> = Vec::new();
        rules.push(RuleSet::JoinReorder);
        rules
    }
}

/// What the driver does after a round of the pushdown stage.
#[derive(Debug, Clone, Copy, PartialEq, Eq, Structural)]
pub enum RoundOutcome {
    /// Run another round on the plan that this round extracted.
    Continue,
    /// Go on to the join stage, with the plan this round extracted where
    /// `keep_latest` holds, else with the plan of the round before (the last
    /// one that improved the cost, or the input).
    Stop { keep_latest: bool },
}

/// The state of the pushdown stage's rounds.
#[derive(Debug, Clone, Copy, PartialEq, Eq, Structural)]
pub struct PushdownLoop {
    pub cap: u32,
    pub rounds: u32,
    pub finished: bool,
}

/// The state after a round whose cost did or did not strictly improve.
pub open spec fn after_round(s: PushdownLoop, improved: bool) -> PushdownLoop {
    PushdownLoop {
        cap: s.cap,
        rounds: (s.rounds + 1) as u32,
        finished: !improved || s.rounds + 1 >= s.cap,
    }
}

/// The state after the rounds whose outcomes are `improved`, in order; the
/// outcomes that come after the loop has finished are not looked at.
pub open spec fn run_rounds(s: PushdownLoop, improved: Seq<bool>) -> PushdownLoop
    decreases improved.len(),
{
    if improved.len() == 0 || s.finished {
        s
    } else {
        run_rounds(after_round(s, improved[0]), improved.drop_first())
    }
}

impl PushdownLoop {
    /// No more rounds than the cap have run, and a loop that has not
    /// finished has room for one more.
    pub open spec fn wf(&self) -> bool {
        self.rounds <= self.cap && (!self.finished ==> self.rounds < self.cap)
    }

    /// A loop that has run no round; with a cap of zero it is finished at
    /// once.
    pub fn new(cap: u32) -> (r: PushdownLoop)
        ensures
            r == (PushdownLoop { cap, rounds: 0, finished: cap == 0 }),
            r.wf(),
    {
        PushdownLoop { cap, rounds: 0, finished: cap == 0 }
    }

    /// Whether the stage is over.
    pub fn is_finished(&self) -> (r: bool)
        ensures
            r == self.finished,
    {
        self.finished
    }

    /// Records the end of a round, with whether its cost strictly improved on
    /// the best cost seen so far, and says what to do next.
    pub fn record_round(&mut self, improved: bool) -> (r: RoundOutcome)
        requires
            old(self).wf(),
            !old(self).finished,
        ensures
            *final(self) == after_round(*old(self), improved),
            final(self).wf(),
            r == (if final(self).finished {
                RoundOutcome::Stop { keep_latest: improved }
            } else {
                RoundOutcome::Continue
            }),
    {
        self.rounds = self.rounds + 1;
        self.finished = !improved || self.rounds >= self.cap;
        if self.finished {
            RoundOutcome::Stop { keep_latest: improved }
        } else {
            RoundOutcome::Continue
        }
    }
}

/// The pushdown stage never runs more rounds than its cap, and it has
/// finished once the cap's worth of rounds has been reported, whatever their
/// outcomes.
pub proof fn lemma_pushdown_round_cap(s: PushdownLoop, improved: Seq<bool>)
    requires
        s.wf(),
    ensures
        run_rounds(s, improved).wf(),
        run_rounds(s, improved).rounds <= s.cap,
        improved.len() >= s.cap - s.rounds ==> run_rounds(s, improved).finished,
    decreases improved.len(),
{
    if improved.len() > 0 && !s.finished {
        lemma_pushdown_round_cap(after_round(s, improved[0]), improved.drop_first());
    }
}

/// Rounds that keep improving for `n` rounds and then plateau stop after
/// exactly `n + 1` rounds when that is within the cap, and the stage goes on
/// with the plan of the last improving round.
pub proof fn lemma_pushdown_plateau(s: PushdownLoop, n: nat)
    requires
        s.wf(),
        !s.finished,
        s.rounds + n < s.cap,
    ensures
        ({
            let t = run_rounds(s, Seq::new(n, |i: int| true).push(false));
            t.finished && t.rounds == s.rounds + n + 1
        }),
    decreases n,
{
    let events = Seq::new(n, |i: int| true).push(false);
    if n == 0 {
        let t = after_round(s, false);
        assert(events.drop_first().len() == 0);
        assert(run_rounds(t, events.drop_first()) == t);
    } else {
        let t = after_round(s, true);
        assert(events[0] == true);
        assert(events.drop_first() =~= Seq::new((n - 1) as nat, |i: int| true).push(false));
        lemma_pushdown_plateau(t, (n - 1) as nat);
    }
}

} // verus!
