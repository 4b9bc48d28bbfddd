//! The parts of the cost model that decide how strongly a plan shape is
//! preferred: which expressions are constant, and how a scan is scored by the
//! predicate pushed into it.

use vstd::prelude::*;

use crate::catalog::{ColumnRefId, RootCatalog};
use crate::planner::expr::{children, children_before, Expr, Id, RecExpr};
use crate::types::DataValue;

verus! {

/// The factor of a scan whose predicate compares a required column with a
/// constant: such a scan is strongly preferred.
pub const SELECTIVE_SCAN_FACTOR: u32 = 1;

/// The factor of any other scan: a predicate of another shape, an equality
/// between two columns, or no predicate at all.
pub const UNSELECTIVE_SCAN_FACTOR: u32 = 100000;

/// How a scan is scored.
#[derive(Debug, Clone, Copy, PartialEq, Eq, Structural)]
pub enum ScanCost {
    /// The cost is the factor itself.
    Flat(u32),
    /// The cost is the factor times the size of the scan's output.
    PerOutput(u32),
}

/// Whether the node `id` is a constant: a literal or a type, or an
/// arithmetic, comparison, boolean, string, cast or extract operator over
/// constants.
pub open spec fn constant_at(nodes: Seq<Expr>, id: int) -> bool
    decreases id,
{
    if id < 0 || id >= nodes.len() {
        false
    } else {
        match nodes[id] {
            Expr::Constant(_) | Expr::Type(_) => true,
            Expr::Neg(a) | Expr::Not(a) | Expr::IsNull(a) => a < id && constant_at(nodes, a as int),
            Expr::Sub(l, r) | Expr::Add(l, r) | Expr::Mul(l, r) | Expr::Div(l, r) | Expr::Mod(l, r) | Expr::StringConcat(l, r) | Expr::Gt(l, r) | Expr::Lt(l, r) | Expr::GtEq(l, r) | Expr::LtEq(l, r) | Expr::Eq(l, r) | Expr::NotEq(l, r) | Expr::And(l, r) | Expr::Or(l, r) | Expr::Xor(l, r) | Expr::Like(l, r) | Expr::Extract(l, r) | Expr::Cast(l, r) => l < id && r < id
                && constant_at(nodes, l as int) && constant_at(nodes, r as int),
            Expr::Replace(e, a, b) | Expr::Substring(e, a, b) => e < id && a < id && b < id
                && constant_at(nodes, e as int) && constant_at(nodes, a as int) && constant_at(
                nodes,
                b as int,
            ),
            _ => false,
        }
    }
}

/// Whether the catalog flags the column `c` as required.
pub open spec fn column_required(catalog: RootCatalog, c: ColumnRefId) -> bool {
    match catalog.column(c) {
        Some(col) => col.desc.is_required,
        None => false,
    }
}

/// Every column that a node of the arena refers to is in the catalog.
pub open spec fn columns_resolved(nodes: Seq<Expr>, catalog: RootCatalog) -> bool {
    forall|i: int|
        0 <= i < nodes.len() && (#[trigger] nodes[i]) is Column ==> catalog.column(
            nodes[i]->Column_0,
        ) is Some
}

/// The factor of a scan whose predicate is `(= lhs rhs)`: selective where
/// one side is a required column and the other side a constant, whichever
/// side the column is on; an equality between two columns is not.
pub open spec fn equality_factor(nodes: Seq<Expr>, catalog: RootCatalog, lhs: Id, rhs: Id) -> u32 {
    if nodes[lhs as int] is Column && nodes[rhs as int] is Column {
        UNSELECTIVE_SCAN_FACTOR
    } else if nodes[lhs as int] is Column {
        if column_required(catalog, nodes[lhs as int]->Column_0) && constant_at(nodes, rhs as int) {
            SELECTIVE_SCAN_FACTOR
        } else {
            UNSELECTIVE_SCAN_FACTOR
        }
    } else if nodes[rhs as int] is Column {
        if column_required(catalog, nodes[rhs as int]->Column_0) && constant_at(nodes, lhs as int) {
            SELECTIVE_SCAN_FACTOR
        } else {
            UNSELECTIVE_SCAN_FACTOR
        }
    } else {
        UNSELECTIVE_SCAN_FACTOR
    }
}

/// How a scan with the predicate `filter` is scored.
pub open spec fn filter_cost(nodes: Seq<Expr>, catalog: RootCatalog, filter: Id) -> ScanCost {
    match nodes[filter as int] {
        Expr::Eq(l, r) => ScanCost::Flat(equality_factor(nodes, catalog, l, r)),
        _ => ScanCost::PerOutput(UNSELECTIVE_SCAN_FACTOR),
    }
}

/// The cost model over a plan and the catalog that it reads.
pub struct CostFn<'a> {
    pub egraph: &'a RecExpr,
    pub catalog: &'a RootCatalog,
}

impl<'a> CostFn<'a> {
    /// The plan is well formed and every column it names is in the catalog.
    pub open spec fn wf(&self) -> bool {
        self.egraph.wf() && columns_resolved(self.egraph.nodes@, *self.catalog)
    }

    pub open spec fn nodes(&self) -> Seq<Expr> {
        self.egraph.nodes@
    }

    pub fn new(egraph: &'a RecExpr, catalog: &'a RootCatalog) -> (r: CostFn<'a>)
        ensures
            r.egraph == egraph,
            r.catalog == catalog,
    {
        CostFn { egraph, catalog }
    }

    /// Whether the plan is well formed and every column it names is in the
    /// catalog.
    pub fn is_well_formed(&self) -> (r: bool)
        ensures
            r == self.wf(),
    {
        if !self.egraph.is_well_formed() {
            return false;
        }
        let mut i: usize = 0;
        while i < self.egraph.len()
            invariant
                i <= self.nodes().len(),
                forall|j: int|
                    0 <= j < i && (#[trigger] self.nodes()[j]) is Column ==> self.catalog.column(
                        self.nodes()[j]->Column_0,
                    ) is Some,
            decreases self.nodes().len() - i,
        {
            match self.egraph.get(i) {
                Expr::Column(c) => {
                    if self.catalog.get_column(c).is_none() {
                        return false;
                    }
                },
                _ => {},
            }
            i = i + 1;
        }
        true
    }

    /// Whether the catalog flags the column as required.
    pub fn column_is_required(&self, index: &ColumnRefId) -> (r: bool)
        ensures
            r == column_required(*self.catalog, *index),
    {
        match self.catalog.get_column(index) {
            Some(col) => col.is_required(),
            None => false,
        }
    }

    /// Whether the node `id` is a constant.
    pub fn is_constant(&self, id: Id) -> (r: bool)
        requires
            self.wf(),
            id < self.nodes().len(),
        ensures
            r == constant_at(self.nodes(), id as int),
        decreases id,
    {
        let node = self.egraph.get(id);
        proof {
            let ch = children(self.nodes()[id as int]);
            assert(ch.len() > 0 ==> ch[0] < id);
            assert(ch.len() > 1 ==> ch[1] < id);
            assert(ch.len() > 2 ==> ch[2] < id);
        }
        match node {
            Expr::Constant(_) | Expr::Type(_) => true,
            Expr::Neg(a) | Expr::Not(a) | Expr::IsNull(a) => self.is_constant(*a),
            Expr::Sub(l, r) | Expr::Add(l, r) | Expr::Mul(l, r) | Expr::Div(l, r) | Expr::Mod(l, r) | Expr::StringConcat(l, r) | Expr::Gt(l, r) | Expr::Lt(l, r) | Expr::GtEq(l, r) | Expr::LtEq(l, r) | Expr::Eq(l, r) | Expr::NotEq(l, r) | Expr::And(l, r) | Expr::Or(l, r) | Expr::Xor(l, r) | Expr::Like(l, r) | Expr::Extract(l, r) | Expr::Cast(l, r) => self.is_constant(*l) && self.is_constant(*r),
            Expr::Replace(e, a, b) | Expr::Substring(e, a, b) => self.is_constant(*e)
                && self.is_constant(*a) && self.is_constant(*b),
            _ => false,
        }
    }

    /// The factor of a scan whose predicate is `(= lhs rhs)`.
    pub fn cond_check(&self, lhs: Id, rhs: Id) -> (r: u32)
        requires
            self.wf(),
            lhs < self.nodes().len(),
            rhs < self.nodes().len(),
        ensures
            r == equality_factor(self.nodes(), *self.catalog, lhs, rhs),
    {
        match (self.egraph.get(lhs), self.egraph.get(rhs)) {
            (Expr::Column(_), Expr::Column(_)) => UNSELECTIVE_SCAN_FACTOR,
            (Expr::Column(idx), _) => {
                if self.column_is_required(idx) && self.is_constant(rhs) {
                    SELECTIVE_SCAN_FACTOR
                } else {
                    UNSELECTIVE_SCAN_FACTOR
                }
            },
            (_, Expr::Column(idx)) => {
                if self.column_is_required(idx) && self.is_constant(lhs) {
                    SELECTIVE_SCAN_FACTOR
                } else {
                    UNSELECTIVE_SCAN_FACTOR
                }
            },
            _ => UNSELECTIVE_SCAN_FACTOR,
        }
    }

    /// How the scan of `table` with the predicate `filter` is scored.
    pub fn condition_out(&self, table: Id, filter: Id) -> (r: ScanCost)
        requires
            self.wf(),
            filter < self.nodes().len(),
        ensures
            r == filter_cost(self.nodes(), *self.catalog, filter),
    {
        let _ = table;
        match self.egraph.get(filter) {
            Expr::Eq(lhs, rhs) => {
                proof {
                    let ch = children(self.nodes()[filter as int]);
                    assert(ch[0] < filter && ch[1] < filter);
                }
                ScanCost::Flat(self.cond_check(*lhs, *rhs))
            },
            _ => ScanCost::PerOutput(UNSELECTIVE_SCAN_FACTOR),
        }
    }

    /// How the node `id` is scored, if it is a scan.
    pub fn scan_cost(&self, id: Id) -> (r: Option<ScanCost>)
        requires
            self.wf(),
            id < self.nodes().len(),
        ensures
            r == (match self.nodes()[id as int] {
                Expr::Scan(_, _, f) => Some(filter_cost(self.nodes(), *self.catalog, f)),
                _ => None,
            }),
    {
        match self.egraph.get(id) {
            Expr::Scan(table, _, filter) => {
                proof {
                    let ch = children(self.nodes()[id as int]);
                    assert(ch[2] < id);
                }
                Some(self.condition_out(*table, *filter))
            },
            _ => None,
        }
    }
}

/// Pushing an equality between a required column and a constant, on either
/// side, into a scan scores the scan below the same scan without a
/// predicate: the first costs its flat factor, the second its factor times
/// an output of at least one row and one column.
pub proof fn lemma_pushed_equality_beats_unfiltered_scan(
    nodes: Seq<Expr>,
    catalog: RootCatalog,
    pred: Id,
    null: Id,
    out: nat,
)
    requires
        children_before(nodes),
        pred < nodes.len(),
        null < nodes.len(),
        nodes[null as int] == Expr::Constant(DataValue::Null),
        nodes[pred as int] matches Expr::Eq(l, r) && ((nodes[l as int] matches Expr::Column(c)
            && column_required(catalog, c) && constant_at(nodes, r as int)) || (
        nodes[r as int] matches Expr::Column(c) && column_required(catalog, c) && constant_at(
            nodes,
            l as int,
        ))),
        out >= 1,
    ensures
        filter_cost(nodes, catalog, pred) == ScanCost::Flat(SELECTIVE_SCAN_FACTOR),
        filter_cost(nodes, catalog, null) == ScanCost::PerOutput(UNSELECTIVE_SCAN_FACTOR),
        SELECTIVE_SCAN_FACTOR < UNSELECTIVE_SCAN_FACTOR * out,
{
    let (l, r) = (nodes[pred as int]->Eq_0, nodes[pred as int]->Eq_1);
    assert(children(nodes[pred as int])[0] == l);
    assert(children(nodes[pred as int])[1] == r);
    assert(l < pred && r < pred);
    assert(UNSELECTIVE_SCAN_FACTOR * out >= UNSELECTIVE_SCAN_FACTOR) by (nonlinear_arith)
        requires
            out >= 1,
    ;
}

} // verus!
