use risinglight::catalog::{ColumnCatalog, ColumnRefId, RootCatalog, TableRefId};
use risinglight::planner::cost::{CostFn, ScanCost, SELECTIVE_SCAN_FACTOR, UNSELECTIVE_SCAN_FACTOR};
use risinglight::planner::expr::{Expr, RecExpr};
use risinglight::types::{DataTypeKind, DataValue};

fn col(schema_id: u32, table_id: u32, column_id: u32) -> ColumnRefId {
    ColumnRefId { schema_id, table_id, column_id }
}

fn catalog() -> RootCatalog {
    let mut catalog = RootCatalog::new();
    let required = DataTypeKind::Int32.not_null().to_column("required_col".into(), true);
    let plain = DataTypeKind::Int32.nullable().to_column("plain_col".into(), false);
    catalog.add_column(col(0, 1, 0), ColumnCatalog::new(0, required));
    catalog.add_column(col(0, 1, 1), ColumnCatalog::new(1, plain));
    catalog
}

/// `(scan $1 [cols] filter)` where `filter` is built by `pred` in the arena.
fn scan_with(mut pred: impl FnMut(&mut RecExpr) -> usize) -> (RecExpr, usize) {
    let mut e = RecExpr::new();
    let table = e.add(Expr::Table(TableRefId { schema_id: 0, table_id: 1 }));
    let c0 = e.add(Expr::Column(col(0, 1, 0)));
    let c1 = e.add(Expr::Column(col(0, 1, 1)));
    let cols = e.add(Expr::List(vec![c0, c1]));
    let filter = pred(&mut e);
    let scan = e.add(Expr::Scan(table, cols, filter));
    (e, scan)
}

#[test]
fn literals_and_operators_over_them_are_constant() {
    let catalog = catalog();
    let mut e = RecExpr::new();
    let five = e.add(Expr::Constant(DataValue::Int32(5)));
    let ty = e.add(Expr::Type(DataTypeKind::Int64));
    let cast = e.add(Expr::Cast(ty, five));
    let neg = e.add(Expr::Neg(cast));
    let c = e.add(Expr::Column(col(0, 1, 0)));
    let sum = e.add(Expr::Add(neg, c));
    let s = e.add(Expr::Constant(DataValue::String("abc".into())));
    let sub = e.add(Expr::Substring(s, five, five));
    let cost = CostFn::new(&e, &catalog);
    assert!(cost.is_constant(five));
    assert!(cost.is_constant(cast));
    assert!(cost.is_constant(neg));
    assert!(cost.is_constant(sub));
    assert!(!cost.is_constant(c));
    assert!(!cost.is_constant(sum));
}

#[test]
fn required_column_is_read_from_the_catalog() {
    let catalog = catalog();
    let e = RecExpr::new();
    let cost = CostFn::new(&e, &catalog);
    assert!(cost.column_is_required(&col(0, 1, 0)));
    assert!(!cost.column_is_required(&col(0, 1, 1)));
    assert!(!cost.column_is_required(&col(0, 9, 9)));
}

#[test]
fn scan_pushdown_of_required_column_equality_is_preferred() {
    let catalog = catalog();
    // (scan table [cols] (= (column required_col) (constant 5)))
    let (fused, scan) = scan_with(|e| {
        let c = e.add(Expr::Column(col(0, 1, 0)));
        let five = e.add(Expr::Constant(DataValue::Int32(5)));
        e.add(Expr::Eq(c, five))
    });
    let fused_cost = CostFn::new(&fused, &catalog).scan_cost(scan);
    assert_eq!(fused_cost, Some(ScanCost::Flat(SELECTIVE_SCAN_FACTOR)));
    assert_eq!(fused_cost, Some(ScanCost::Flat(1)));

    // (scan table [cols] null), the scan under the unfused filter
    let (unfused, scan) = scan_with(|e| e.add(Expr::null()));
    let unfused_cost = CostFn::new(&unfused, &catalog).scan_cost(scan);
    assert_eq!(unfused_cost, Some(ScanCost::PerOutput(UNSELECTIVE_SCAN_FACTOR)));
    assert_eq!(unfused_cost, Some(ScanCost::PerOutput(100000)));
}

#[test]
fn equality_on_plain_column_is_not_preferred() {
    let catalog = catalog();
    let (e, scan) = scan_with(|e| {
        let c = e.add(Expr::Column(col(0, 1, 1)));
        let five = e.add(Expr::Constant(DataValue::Int32(5)));
        e.add(Expr::Eq(c, five))
    });
    assert_eq!(CostFn::new(&e, &catalog).scan_cost(scan), Some(ScanCost::Flat(100000)));
}

#[test]
fn equality_between_two_columns_is_discouraged() {
    let catalog = catalog();
    let mut ids = (0, 0);
    let (e, scan) = scan_with(|e| {
        let a = e.add(Expr::Column(col(0, 1, 0)));
        let b = e.add(Expr::Column(col(0, 1, 1)));
        ids = (a, b);
        e.add(Expr::Eq(a, b))
    });
    let cost = CostFn::new(&e, &catalog);
    assert_eq!(cost.scan_cost(scan), Some(ScanCost::Flat(100000)));
    assert_eq!(cost.cond_check(ids.0, ids.1), 100000);
    assert_eq!(cost.cond_check(ids.1, ids.0), 100000);
}

#[test]
fn required_column_on_either_side_of_equality_is_preferred() {
    let catalog = catalog();
    // (= (constant 5) (column required_col))
    let (e, scan) = scan_with(|e| {
        let five = e.add(Expr::Constant(DataValue::Int32(5)));
        let c = e.add(Expr::Column(col(0, 1, 0)));
        e.add(Expr::Eq(five, c))
    });
    assert_eq!(CostFn::new(&e, &catalog).scan_cost(scan), Some(ScanCost::Flat(1)));
    // (= (constant 5) (column plain_col))
    let (e, scan) = scan_with(|e| {
        let five = e.add(Expr::Constant(DataValue::Int32(5)));
        let c = e.add(Expr::Column(col(0, 1, 1)));
        e.add(Expr::Eq(five, c))
    });
    assert_eq!(CostFn::new(&e, &catalog).scan_cost(scan), Some(ScanCost::Flat(100000)));
}

#[test]
fn equality_with_a_non_constant_is_not_preferred() {
    let catalog = catalog();
    let (e, scan) = scan_with(|e| {
        let a = e.add(Expr::Column(col(0, 1, 0)));
        let b = e.add(Expr::Column(col(0, 1, 1)));
        let one = e.add(Expr::Constant(DataValue::Int32(1)));
        let sum = e.add(Expr::Add(b, one));
        e.add(Expr::Eq(a, sum))
    });
    assert_eq!(CostFn::new(&e, &catalog).scan_cost(scan), Some(ScanCost::Flat(100000)));
}

#[test]
fn other_predicates_scale_with_output() {
    let catalog = catalog();
    let mut pred = 0;
    let (e, scan) = scan_with(|e| {
        let c = e.add(Expr::Column(col(0, 1, 0)));
        let five = e.add(Expr::Constant(DataValue::Int32(5)));
        pred = e.add(Expr::Gt(c, five));
        pred
    });
    let cost = CostFn::new(&e, &catalog);
    assert_eq!(cost.scan_cost(scan), Some(ScanCost::PerOutput(100000)));
    assert_eq!(cost.condition_out(0, pred), ScanCost::PerOutput(100000));
    // not a scan
    assert_eq!(cost.scan_cost(pred), None);
}

#[test]
fn cost_model_checks_the_plan_against_the_catalog() {
    let catalog = catalog();
    let (e, _) = scan_with(|e| e.add(Expr::null()));
    assert!(CostFn::new(&e, &catalog).is_well_formed());
    let mut unknown = RecExpr::new();
    unknown.add(Expr::Column(col(0, 9, 9)));
    assert!(!CostFn::new(&unknown, &catalog).is_well_formed());
}
