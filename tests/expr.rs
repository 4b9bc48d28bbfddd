use risinglight::binder::ExtSource;
use risinglight::catalog::{ColumnRefId, TableRefId};
use risinglight::planner::expr::{
    class_as_column, class_as_list, BinaryOperator, Expr, RecExpr, UnaryOperator,
};
use risinglight::types::{DataTypeKind, DataValue};

#[test]
fn literal_constructors() {
    assert!(matches!(Expr::true_().as_const(), DataValue::Bool(true)));
    assert!(matches!(Expr::null().as_const(), DataValue::Null));
    assert!(matches!(Expr::zero().as_const(), DataValue::Int32(0)));
}

#[test]
fn leaf_accessors() {
    let c = ColumnRefId { schema_id: 1, table_id: 2, column_id: 3 };
    assert_eq!(Expr::Column(c).as_column(), c);
    let t = TableRefId { schema_id: 1, table_id: 2 };
    assert_eq!(Expr::Table(t).as_table(), t);
    assert_eq!(*Expr::Type(DataTypeKind::Boolean).as_type(), DataTypeKind::Boolean);
    assert_eq!(Expr::List(vec![4, 5]).as_list(), &[4, 5]);
    assert_eq!(Expr::ExtSource(ExtSource::new("data.csv".into())).as_ext_source().path, "data.csv");
    assert!(matches!(
        Expr::Constant(DataValue::String("x".into())).as_const(),
        DataValue::String(s) if s == "x"
    ));
}

#[test]
fn binary_and_unary_operators() {
    assert_eq!(Expr::Add(1, 2).binary_op(), Some((BinaryOperator::Plus, 1, 2)));
    assert_eq!(Expr::Eq(3, 4).binary_op(), Some((BinaryOperator::Eq, 3, 4)));
    assert_eq!(Expr::Xor(0, 5).binary_op(), Some((BinaryOperator::Xor, 0, 5)));
    assert_eq!(Expr::Like(0, 1).binary_op(), None);
    assert_eq!(Expr::Neg(2).binary_op(), None);
    assert_eq!(Expr::Neg(2).unary_op(), Some((UnaryOperator::Minus, 2)));
    assert_eq!(Expr::Not(7).unary_op(), Some((UnaryOperator::Not, 7)));
    assert_eq!(Expr::IsNull(7).unary_op(), None);
}

#[test]
fn aggregate_and_window_functions() {
    assert!(Expr::Sum(0).is_aggregate_function());
    assert!(Expr::RowCount.is_aggregate_function());
    assert!(!Expr::RowNumber.is_aggregate_function());
    assert!(Expr::RowNumber.is_window_function());
    assert!(Expr::Max(1).is_window_function());
    assert!(!Expr::Add(0, 1).is_window_function());
}

#[test]
fn arena_ids_are_positions() {
    let mut e = RecExpr::new();
    let a = e.add(Expr::zero());
    let b = e.add(Expr::true_());
    let c = e.add(Expr::And(a, b));
    assert_eq!((a, b, c), (0, 1, 2));
    assert_eq!(e.len(), 3);
    assert!(matches!(e.get(2), Expr::And(0, 1)));
}

#[test]
fn first_list_and_column_of_a_class() {
    let c = ColumnRefId { schema_id: 0, table_id: 0, column_id: 9 };
    let d = ColumnRefId { schema_id: 0, table_id: 0, column_id: 8 };
    let class = vec![Expr::Ref(0), Expr::Column(c), Expr::List(vec![1]), Expr::Column(d), Expr::List(vec![2])];
    assert_eq!(class_as_column(&class), c);
    assert_eq!(class_as_list(&class), &[1]);
}

#[test]
fn children_in_order() {
    assert_eq!(Expr::Scan(0, 1, 2).children(), vec![0, 1, 2]);
    assert_eq!(Expr::HashJoin(5, 4, 3, 2, 1).children(), vec![5, 4, 3, 2, 1]);
    assert_eq!(Expr::List(vec![7, 8]).children(), vec![7, 8]);
    assert_eq!(Expr::RowCount.children(), Vec::<usize>::new());
    assert_eq!(Expr::zero().children(), Vec::<usize>::new());
}

#[test]
fn well_formed_arena_has_children_first() {
    let mut e = RecExpr::new();
    let a = e.add(Expr::zero());
    e.add(Expr::Neg(a));
    assert!(e.is_well_formed());
    let bad = RecExpr { nodes: vec![Expr::Neg(0)] };
    assert!(!bad.is_well_formed());
    let forward = RecExpr { nodes: vec![Expr::Not(1), Expr::zero()] };
    assert!(!forward.is_well_formed());
}

#[test]
fn adding_an_identical_node_returns_its_id() {
    let mut e = RecExpr::new();
    let a = e.add(Expr::Constant(DataValue::String("x".into())));
    let b = e.add(Expr::Constant(DataValue::Int32(1)));
    let sum = e.add(Expr::Add(a, b));
    assert_eq!(e.add(Expr::Constant(DataValue::String("x".into()))), a);
    assert_eq!(e.add(Expr::Add(a, b)), sum);
    assert_eq!(e.len(), 3);
    // a different node is appended
    assert_eq!(e.add(Expr::Add(b, a)), 3);
    assert_eq!(e.add(Expr::List(vec![a, b])), 4);
    assert_eq!(e.add(Expr::List(vec![a, b])), 4);
    assert_eq!(e.len(), 5);
}

#[test]
fn structural_identity_of_nodes() {
    assert!(Expr::Scan(0, 1, 2).same_as(&Expr::Scan(0, 1, 2)));
    assert!(!Expr::Scan(0, 1, 2).same_as(&Expr::Scan(0, 2, 1)));
    assert!(!Expr::Add(0, 1).same_as(&Expr::Sub(0, 1)));
    assert!(Expr::Symbol("s".into()).same_as(&Expr::Symbol("s".into())));
    assert!(!Expr::Constant(DataValue::Int32(1)).same_as(&Expr::Constant(DataValue::Int64(1))));
}
