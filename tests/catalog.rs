use risinglight::catalog::{
    find_sort_key_id, ColumnCatalog, ColumnRefId, RootCatalog, SchemaCatalog,
};
use risinglight::types::{DataType, DataTypeKind};

#[test]
fn test_column_catalog() {
    let col_desc = DataTypeKind::Int32.not_null().to_column("grade".into(), false);
    let mut col_catalog = ColumnCatalog::new(0, col_desc);
    assert_eq!(col_catalog.id(), 0);
    assert!(!col_catalog.is_primary());
    assert!(!col_catalog.is_nullable());
    assert_eq!(col_catalog.name(), "grade");
    col_catalog.set_primary(true);
    assert!(col_catalog.is_primary());
}

#[test]
fn column_desc_setters_keep_other_fields() {
    let mut desc = DataTypeKind::Int64.nullable().to_column_primary_key("id".into(), true);
    assert!(desc.is_primary());
    assert!(desc.is_required());
    assert!(desc.is_nullable());
    desc.set_nullable(false);
    assert!(!desc.is_nullable());
    assert_eq!(desc.datatype().kind(), DataTypeKind::Int64);
    desc.set_is_required(false);
    assert!(!desc.is_required());
    assert!(desc.is_primary());
    desc.set_primary(false);
    assert!(!desc.is_primary());
    assert_eq!(desc.name(), "id");
}

#[test]
fn column_catalog_accessors() {
    let desc = DataType::new(DataTypeKind::String, true).to_column("v".into(), true);
    let mut col = ColumnCatalog::new(3, desc);
    assert_eq!(col.id(), 3);
    col.set_id(7);
    assert_eq!(col.id(), 7);
    assert!(col.is_required());
    assert!(col.is_nullable());
    col.set_nullable(false);
    assert!(!col.is_nullable());
    assert_eq!(col.datatype(), DataType::new(DataTypeKind::String, false));
    assert_eq!(col.desc().name(), "v");
    assert_eq!(col.into_name(), "v".to_string());
}

fn column(name: &str, primary: bool) -> ColumnCatalog {
    let desc = if primary {
        DataTypeKind::Int32.not_null().to_column_primary_key(name.into(), false)
    } else {
        DataTypeKind::Int32.nullable().to_column(name.into(), false)
    };
    ColumnCatalog::new(0, desc)
}

#[test]
fn sort_key_is_the_primary_column() {
    let cols = vec![column("a", false), column("b", true), column("c", false)];
    assert_eq!(find_sort_key_id(&cols), Some(1));
}

#[test]
fn no_sort_key_without_primary_column() {
    let cols = vec![column("a", false), column("b", false)];
    assert_eq!(find_sort_key_id(&cols), None);
    assert_eq!(find_sort_key_id(&[]), None);
}

#[test]
fn catalog_finds_columns_by_reference() {
    let mut catalog = RootCatalog::new();
    let a = ColumnRefId { schema_id: 0, table_id: 1, column_id: 0 };
    let b = ColumnRefId { schema_id: 0, table_id: 1, column_id: 1 };
    catalog.add_column(a, column("a", false));
    assert_eq!(catalog.get_column(&a).map(|c| c.name().to_string()), Some("a".to_string()));
    assert!(catalog.get_column(&b).is_none());
    // a second entry for the same column does not replace the first
    catalog.add_column(a, column("z", false));
    assert_eq!(catalog.get_column(&a).map(|c| c.name().to_string()), Some("a".to_string()));
}

#[test]
fn catalog_finds_schemas_by_name() {
    let mut catalog = RootCatalog::new();
    let mut schema = SchemaCatalog::new(4, "postgres".into());
    schema.add_table("t".into());
    catalog.add_schema(schema);
    let found = catalog.get_schema_by_name("postgres").unwrap();
    assert_eq!(found.id(), 4);
    assert!(found.has_table("t"));
    assert!(!found.has_table("u"));
    assert!(catalog.get_schema_by_name("other").is_none());
}
