use risinglight::binder::{
    ordered_pks_from_columns, pks_name_from_constraints, BindError, BindErrorKind, Binder,
    ColumnDef, ColumnOption, TableConstraint,
};
use risinglight::catalog::{ColumnCatalog, RootCatalog, SchemaCatalog};
use risinglight::planner::expr::Expr;
use risinglight::types::DataTypeKind;

fn def(name: &str, options: Vec<ColumnOption>) -> ColumnDef {
    ColumnDef { name: name.into(), data_type: DataTypeKind::Int32, options }
}

fn primary_key(columns: &[&str]) -> TableConstraint {
    TableConstraint::Unique { columns: columns.iter().map(|c| c.to_string()).collect(), is_primary: true }
}

fn binder() -> Binder {
    let mut catalog = RootCatalog::new();
    let mut schema = SchemaCatalog::new(2, "postgres".into());
    schema.add_table("existing".into());
    catalog.add_schema(schema);
    Binder::new(catalog)
}

fn bound_table(binder: &Binder, id: usize) -> (String, Vec<ColumnCatalog>, Vec<u32>, u32) {
    match binder.egraph.get(id) {
        Expr::CreateTable(t) => {
            (t.table_name.clone(), t.columns.clone(), t.ordered_pk_ids.clone(), t.schema_id)
        }
        _ => panic!("not a create table"),
    }
}

#[test]
fn column_def_options_decide_flags() {
    let c = ColumnCatalog::from_column_def(&def(
        "Grade",
        vec![
            ColumnOption::NotNull,
            ColumnOption::Unique { is_primary: true },
            ColumnOption::Comment("required".into()),
        ],
    ));
    assert_eq!(c.id(), 0);
    assert_eq!(c.name(), "grade");
    assert!(!c.is_nullable());
    assert!(c.is_primary());
    assert!(c.is_required());

    let c = ColumnCatalog::from_column_def(&def(
        "x",
        vec![ColumnOption::NotNull, ColumnOption::Null, ColumnOption::Comment("other".into())],
    ));
    assert!(c.is_nullable());
    assert!(!c.is_primary());
    assert!(!c.is_required());
}

#[test]
fn primary_keys_from_column_options_in_order() {
    let cols = vec![
        def("a", vec![]),
        def("b", vec![ColumnOption::Unique { is_primary: true }]),
        def("c", vec![ColumnOption::Unique { is_primary: false }]),
        def("d", vec![ColumnOption::Unique { is_primary: true }]),
    ];
    assert_eq!(ordered_pks_from_columns(&cols), vec![1, 3]);
    assert_eq!(ordered_pks_from_columns(&[]), Vec::<u32>::new());
}

#[test]
fn primary_key_names_from_constraints_lowercased() {
    let cons = vec![
        TableConstraint::Unique { columns: vec!["U".into()], is_primary: false },
        primary_key(&["B", "a"]),
        TableConstraint::Other,
    ];
    assert_eq!(pks_name_from_constraints(&cons), vec!["b".to_string(), "a".to_string()]);
}

#[test]
fn bind_create_table_with_column_primary_key() {
    let mut binder = binder();
    let cols = vec![
        def("ID", vec![ColumnOption::Unique { is_primary: true }]),
        def("Name", vec![ColumnOption::Comment("required".into())]),
    ];
    let id = binder.bind_create_table("Postgres", "T1", &cols, &[]).unwrap();
    assert_eq!(id, 0);
    let (name, columns, pks, schema_id) = bound_table(&binder, id);
    assert_eq!(name, "t1");
    assert_eq!(schema_id, 2);
    assert_eq!(pks, vec![0]);
    assert_eq!(columns.len(), 2);
    assert_eq!(columns[0].name(), "id");
    assert!(columns[0].is_primary());
    assert!(!columns[0].is_nullable());
    assert_eq!(columns[1].id(), 1);
    assert!(columns[1].is_nullable());
    assert!(columns[1].is_required());
}

#[test]
fn bind_create_table_with_constraint_primary_key() {
    let mut binder = binder();
    let cols = vec![def("a", vec![]), def("b", vec![]), def("c", vec![])];
    let id = binder.bind_create_table("postgres", "t", &cols, &[primary_key(&["C", "a"])]).unwrap();
    let (_, columns, pks, _) = bound_table(&binder, id);
    assert_eq!(pks, vec![2, 0]);
    assert!(columns[0].is_primary() && !columns[0].is_nullable());
    assert!(!columns[1].is_primary() && columns[1].is_nullable());
    assert!(columns[2].is_primary() && !columns[2].is_nullable());
}

fn bind_err(cols: &[ColumnDef], cons: &[TableConstraint], schema: &str, table: &str) -> BindError {
    let mut binder = binder();
    let err = binder.bind_create_table(schema, table, cols, cons).unwrap_err();
    assert_eq!(binder.egraph.len(), 0);
    err
}

#[test]
fn bind_create_table_invalid_schema() {
    let err = bind_err(&[def("a", vec![])], &[], "Nowhere", "t");
    assert!(matches!(&err, BindError::InvalidSchema(n) if n == "nowhere"));
    assert_eq!(err.kind(), BindErrorKind::InvalidSchema);
}

#[test]
fn bind_create_table_duplicated_table() {
    let err = bind_err(&[def("a", vec![])], &[], "postgres", "EXISTING");
    assert!(matches!(&err, BindError::DuplicatedTable(n) if n == "existing"));
}

#[test]
fn bind_create_table_duplicated_column() {
    let cols = vec![def("a", vec![]), def("b", vec![]), def("B", vec![]), def("A", vec![])];
    let err = bind_err(&cols, &[], "postgres", "t");
    assert!(matches!(&err, BindError::DuplicatedColumn(n) if n == "B"));
}

#[test]
fn bind_create_table_several_column_primary_keys() {
    let pk = || ColumnOption::Unique { is_primary: true };
    let cols = vec![def("a", vec![pk()]), def("b", vec![pk()])];
    let err = bind_err(&cols, &[], "postgres", "t");
    assert_eq!(err.kind(), BindErrorKind::NotSupportedTSQL);
}

#[test]
fn bind_create_table_primary_key_declared_twice() {
    let cols = vec![def("a", vec![ColumnOption::Unique { is_primary: true }]), def("b", vec![])];
    let err = bind_err(&cols, &[primary_key(&["b"])], "postgres", "t");
    assert_eq!(err.kind(), BindErrorKind::NotSupportedTSQL);
}

#[test]
fn bind_create_table_invalid_primary_key_column() {
    let cols = vec![def("a", vec![]), def("b", vec![])];
    let err = bind_err(&cols, &[primary_key(&["a", "Zed"])], "postgres", "t");
    assert!(matches!(&err, BindError::InvalidColumn(n) if n == "zed"));
}

#[test]
fn binding_the_same_table_twice_gives_the_same_id() {
    let mut binder = binder();
    let cols = vec![def("a", vec![ColumnOption::Unique { is_primary: true }]), def("b", vec![])];
    let first = binder.bind_create_table("postgres", "t", &cols, &[]).unwrap();
    let len = binder.egraph.len();
    let second = binder.bind_create_table("postgres", "t", &cols, &[]).unwrap();
    assert_eq!(first, second);
    assert_eq!(binder.egraph.len(), len);
    // another table is a new node
    let other = binder.bind_create_table("postgres", "u", &cols, &[]).unwrap();
    assert_ne!(other, first);
    assert_eq!(binder.egraph.len(), len + 1);
}
