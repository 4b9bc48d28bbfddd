//! Column metadata as the catalog records it, and a read-only accessor over
//! the columns of all tables.

use vstd::prelude::*;

use crate::types::DataType;

verus! {

pub type SchemaId = u32;

pub type TableId = u32;

pub type ColumnId = u32;

/// A reference to a table: the schema that holds it and its id there.
#[derive(Debug, Clone, Copy, PartialEq, Eq, Structural, Hash)]
pub struct TableRefId {
    pub schema_id: SchemaId,
    pub table_id: TableId,
}

/// A reference to a column of a table.
#[derive(Debug, Clone, Copy, PartialEq, Eq, Structural, Hash)]
pub struct ColumnRefId {
    pub schema_id: SchemaId,
    pub table_id: TableId,
    pub column_id: ColumnId,
}

/// A descriptor of a column.
#[derive(Debug, Clone, Hash)]
pub struct ColumnDesc {
    pub datatype: DataType,
    pub name: String,
    pub is_primary: bool,
    pub is_required: bool,
}

impl ColumnDesc {
    pub fn new(datatype: DataType, name: String, is_primary: bool, is_required: bool) -> (r: Self)
        ensures
            r.datatype == datatype,
            r.name@ == name@,
            r.is_primary == is_primary,
            r.is_required == is_required,
    {
        ColumnDesc { datatype, name, is_primary, is_required }
    }

    pub fn set_is_required(&mut self, is_required: bool)
        ensures
            final(self).is_required == is_required,
            final(self).is_primary == old(self).is_primary,
            final(self).datatype == old(self).datatype,
            final(self).name@ == old(self).name@,
    {
        self.is_required = is_required;
    }

    pub fn is_required(&self) -> (r: bool)
        ensures
            r == self.is_required,
    {
        self.is_required
    }

    pub fn set_primary(&mut self, is_primary: bool)
        ensures
            final(self).is_primary == is_primary,
            final(self).is_required == old(self).is_required,
            final(self).datatype == old(self).datatype,
            final(self).name@ == old(self).name@,
    {
        self.is_primary = is_primary;
    }

    pub fn is_primary(&self) -> (r: bool)
        ensures
            r == self.is_primary,
    {
        self.is_primary
    }

    pub fn set_nullable(&mut self, is_nullable: bool)
        ensures
            final(self).datatype.nullable == is_nullable,
            final(self).datatype.kind == old(self).datatype.kind,
            final(self).is_primary == old(self).is_primary,
            final(self).is_required == old(self).is_required,
            final(self).name@ == old(self).name@,
    {
        self.datatype.nullable = is_nullable;
    }

    pub fn is_nullable(&self) -> (r: bool)
        ensures
            r == self.datatype.nullable,
    {
        self.datatype.nullable
    }

    pub fn datatype(&self) -> (r: &DataType)
        ensures
            *r == self.datatype,
    {
        &self.datatype
    }

    pub fn name(&self) -> (r: &str)
        ensures
            r@ == self.name@,
    {
        self.name.as_str()
    }
}

impl DataType {
    /// A column of this type that is not part of the primary key.
    pub fn to_column(self, name: String, required: bool) -> (r: ColumnDesc)
        ensures
            r.datatype == self,
            r.name@ == name@,
            !r.is_primary,
            r.is_required == required,
    {
        ColumnDesc::new(self, name, false, required)
    }

    /// A column of this type that is the primary key.
    pub fn to_column_primary_key(self, name: String, required: bool) -> (r: ColumnDesc)
        ensures
            r.datatype == self,
            r.name@ == name@,
            r.is_primary,
            r.is_required == required,
    {
        ColumnDesc::new(self, name, true, required)
    }
}

/// The catalog of a column: its id within its table and its descriptor.
#[derive(Debug, Clone, Hash)]
pub struct ColumnCatalog {
    pub id: ColumnId,
    pub desc: ColumnDesc,
}

impl ColumnCatalog {
    pub fn new(id: ColumnId, desc: ColumnDesc) -> (r: ColumnCatalog)
        ensures
            r.id == id,
            r.desc == desc,
    {
        ColumnCatalog { id, desc }
    }

    pub fn id(&self) -> (r: ColumnId)
        ensures
            r == self.id,
    {
        self.id
    }

    pub fn set_id(&mut self, id: ColumnId)
        ensures
            final(self).id == id,
            final(self).desc == old(self).desc,
    {
        self.id = id
    }

    pub fn name(&self) -> (r: &str)
        ensures
            r@ == self.desc.name@,
    {
        self.desc.name.as_str()
    }

    pub fn into_name(self) -> (r: String)
        ensures
            r@ == self.desc.name@,
    {
        self.desc.name
    }

    pub fn desc(&self) -> (r: &ColumnDesc)
        ensures
            *r == self.desc,
    {
        &self.desc
    }

    pub fn datatype(&self) -> (r: DataType)
        ensures
            r == self.desc.datatype,
    {
        self.desc.datatype
    }

    pub fn set_primary(&mut self, is_primary: bool)
        ensures
            final(self).id == old(self).id,
            final(self).desc.is_primary == is_primary,
            final(self).desc.is_required == old(self).desc.is_required,
            final(self).desc.datatype == old(self).desc.datatype,
            final(self).desc.name@ == old(self).desc.name@,
    {
        self.desc.set_primary(is_primary);
    }

    pub fn is_primary(&self) -> (r: bool)
        ensures
            r == self.desc.is_primary,
    {
        self.desc.is_primary()
    }

    pub fn set_nullable(&mut self, is_nullable: bool)
        ensures
            final(self).id == old(self).id,
            final(self).desc.datatype.nullable == is_nullable,
            final(self).desc.datatype.kind == old(self).desc.datatype.kind,
            final(self).desc.is_primary == old(self).desc.is_primary,
            final(self).desc.is_required == old(self).desc.is_required,
            final(self).desc.name@ == old(self).desc.name@,
    {
        self.desc.set_nullable(is_nullable);
    }

    pub fn is_nullable(&self) -> (r: bool)
        ensures
            r == self.desc.datatype.nullable,
    {
        self.desc.is_nullable()
    }

    pub fn is_required(&self) -> (r: bool)
        ensures
            r == self.desc.is_required,
    {
        self.desc.is_required()
    }
}

/// At most one of the columns is flagged as primary key.
pub open spec fn at_most_one_primary(columns: Seq<ColumnCatalog>) -> bool {
    forall|i: int, j: int|
        0 <= i < columns.len() && 0 <= j < columns.len() && columns[i].desc.is_primary
            && columns[j].desc.is_primary ==> i == j
}

/// Find the position of the sort key (the primary-key column) among column
/// catalogs. Only one primary key is supported.
pub fn find_sort_key_id(column_infos: &[ColumnCatalog]) -> (r: Option<usize>)
    requires
        at_most_one_primary(column_infos@),
    ensures
        r matches Some(k) ==> k < column_infos@.len() && column_infos@[k as int].desc.is_primary,
        r is None ==> forall|i: int|
            0 <= i < column_infos@.len() ==> !column_infos@[i].desc.is_primary,
{
    let mut key: Option<usize> = None;
    let mut i: usize = 0;
    while i < column_infos.len()
        invariant
            i <= column_infos@.len(),
            key matches Some(k) ==> k < i && column_infos@[k as int].desc.is_primary,
            key is None ==> forall|j: int| 0 <= j < i ==> !column_infos@[j].desc.is_primary,
        decreases column_infos@.len() - i,
    {
        if column_infos[i].is_primary() {
            key = Some(i);
        }
        i = i + 1;
    }
    key
}

/// The views of a sequence of strings.
pub open spec fn string_views(v: Seq<String>) -> Seq<Seq<char>> {
    v.map_values(|s: String| s@)
}

/// Whether `v` holds a string whose characters are `s`.
pub fn contains_name(v: &Vec<String>, s: &str) -> (r: bool)
    ensures
        r == string_views(v@).contains(s@),
{
    let key = s.to_owned();
    let mut i: usize = 0;
    while i < v.len()
        invariant
            i <= v@.len(),
            key@ == s@,
            forall|k: int| 0 <= k < i ==> v@[k]@ != s@,
        decreases v@.len() - i,
    {
        if v[i] == key {
            assert(string_views(v@)[i as int] == s@);
            return true;
        }
        i = i + 1;
    }
    assert forall|k: int| 0 <= k < string_views(v@).len() implies string_views(v@)[k] != s@ by {
        assert(string_views(v@)[k] == v@[k]@);
    }
    false
}

/// A schema: its id, its name and the names of its tables.
pub struct SchemaCatalog {
    pub id: SchemaId,
    pub name: String,
    pub tables: Vec<String>,
}

impl SchemaCatalog {
    pub fn new(id: SchemaId, name: String) -> (r: SchemaCatalog)
        ensures
            r.id == id,
            r.name@ == name@,
            r.tables@.len() == 0,
    {
        SchemaCatalog { id, name, tables: Vec::new() }
    }

    pub fn id(&self) -> (r: SchemaId)
        ensures
            r == self.id,
    {
        self.id
    }

    /// Whether the schema holds a table of this name.
    pub fn has_table(&self, name: &str) -> (r: bool)
        ensures
            r == string_views(self.tables@).contains(name@),
    {
        contains_name(&self.tables, name)
    }

    /// Records a table of this name.
    pub fn add_table(&mut self, name: String)
        ensures
            final(self).id == old(self).id,
            final(self).name@ == old(self).name@,
            string_views(final(self).tables@) == string_views(old(self).tables@).push(name@),
    {
        self.tables.push(name);
        proof {
            assert(string_views(self.tables@) =~= string_views(old(self).tables@).push(name@));
        }
    }
}

/// The position of the first schema named `name`, if there is one.
pub open spec fn schema_index(schemas: Seq<SchemaCatalog>, name: Seq<char>) -> Option<int> {
    if exists|i: int| 0 <= i < schemas.len() && schemas[i].name@ == name {
        Some(
            choose|i: int|
                0 <= i < schemas.len() && schemas[i].name@ == name && forall|k: int|
                    0 <= k < i ==> schemas[k].name@ != name,
        )
    } else {
        None
    }
}

/// Read-only metadata of schemas, and of the columns of all tables keyed by
/// column reference.
pub struct RootCatalog {
    pub schemas: Vec<SchemaCatalog>,
    pub columns: Vec<(ColumnRefId, ColumnCatalog)>,
}

/// The first entry of `entries` for the column `c`, if there is one.
pub open spec fn first_entry(entries: Seq<(ColumnRefId, ColumnCatalog)>, c: ColumnRefId) -> Option<
    ColumnCatalog,
>
    decreases entries.len(),
{
    if entries.len() == 0 {
        None
    } else if entries[0].0 == c {
        Some(entries[0].1)
    } else {
        first_entry(entries.drop_first(), c)
    }
}

impl RootCatalog {
    /// The metadata that the catalog holds for the column `c`.
    pub open spec fn column(&self, c: ColumnRefId) -> Option<ColumnCatalog> {
        first_entry(self.columns@, c)
    }

    pub fn new() -> (r: Self)
        ensures
            r.schemas@.len() == 0,
            r.columns@.len() == 0,
    {
        RootCatalog { schemas: Vec::new(), columns: Vec::new() }
    }

    /// Adds a schema.
    pub fn add_schema(&mut self, schema: SchemaCatalog)
        ensures
            final(self).schemas@ == old(self).schemas@.push(schema),
            final(self).columns@ == old(self).columns@,
    {
        self.schemas.push(schema);
    }

    /// The first schema of this name, if there is one.
    pub fn get_schema_by_name(&self, name: &str) -> (r: Option<&SchemaCatalog>)
        ensures
            r matches Some(x) ==> schema_index(self.schemas@, name@) matches Some(i) && *x
                == self.schemas@[i],
            r is None ==> schema_index(self.schemas@, name@) is None,
    {
        let key = name.to_owned();
        let mut i: usize = 0;
        while i < self.schemas.len()
            invariant
                i <= self.schemas@.len(),
                key@ == name@,
                forall|k: int| 0 <= k < i ==> self.schemas@[k].name@ != name@,
            decreases self.schemas@.len() - i,
        {
            if self.schemas[i].name == key {
                proof {
                    let ss = self.schemas@;
                    let ii = i as int;
                    assert(0 <= ii < ss.len() && ss[ii].name@ == name@ && forall|k: int|
                        0 <= k < ii ==> ss[k].name@ != name@);
                    let j = schema_index(ss, name@)->Some_0;
                    assert(0 <= j < ss.len() && ss[j].name@ == name@);
                    if j < ii {
                        assert(ss[j].name@ != name@);
                    }
                    if j > ii {
                        assert(ss[ii].name@ != name@);
                    }
                }
                return Some(&self.schemas[i]);
            }
            i = i + 1;
        }
        None
    }

    /// Records `col` as the metadata of the column `id`, unless the catalog
    /// holds that column already.
    pub fn add_column(&mut self, id: ColumnRefId, col: ColumnCatalog)
        ensures
            old(self).column(id) is None ==> final(self).column(id) == Some(col),
            old(self).column(id) is Some ==> final(self).column(id) == old(self).column(id),
            forall|c: ColumnRefId| c != id ==> final(self).column(c) == old(self).column(c),
    {
        proof {
            assert forall|c: ColumnRefId|
                #[trigger] first_entry(old(self).columns@.push((id, col)), c) == (if first_entry(
                    old(self).columns@,
                    c,
                ) is Some {
                    first_entry(old(self).columns@, c)
                } else if c == id {
                    Some(col)
                } else {
                    None::<ColumnCatalog>
                }) by {
                lemma_first_entry_push(old(self).columns@, (id, col), c);
            }
        }
        self.columns.push((id, col));
    }

    /// The metadata of the column `c`, if the catalog holds it.
    pub fn get_column(&self, c: &ColumnRefId) -> (r: Option<&ColumnCatalog>)
        ensures
            r matches Some(x) ==> self.column(*c) == Some(*x),
            r is None ==> self.column(*c) is None,
    {
        let mut i: usize = 0;
        assert(self.columns@.subrange(0, self.columns@.len() as int) =~= self.columns@);
        while i < self.columns.len()
            invariant
                i <= self.columns@.len(),
                first_entry(self.columns@, *c) == first_entry(self.columns@.subrange(i as int, self.columns@.len() as int), *c),
            decreases self.columns@.len() - i,
        {
            let entry = &self.columns[i];
            proof {
                let rest = self.columns@.subrange(i as int, self.columns@.len() as int);
                assert(rest.drop_first() =~= self.columns@.subrange(i + 1, self.columns@.len() as int));
            }
            if entry.0 == *c {
                return Some(&entry.1);
            }
            i = i + 1;
        }
        None
    }
}

proof fn lemma_first_entry_push(
    entries: Seq<(ColumnRefId, ColumnCatalog)>,
    e: (ColumnRefId, ColumnCatalog),
    c: ColumnRefId,
)
    ensures
        first_entry(entries.push(e), c) == (if first_entry(entries, c) is Some {
            first_entry(entries, c)
        } else if c == e.0 {
            Some(e.1)
        } else {
            None::<ColumnCatalog>
        }),
    decreases entries.len(),
{
    let pushed = entries.push(e);
    if entries.len() > 0 {
        lemma_first_entry_push(entries.drop_first(), e, c);
        assert(pushed.drop_first() =~= entries.drop_first().push(e));
        assert(pushed[0] == entries[0]);
    } else {
        assert(pushed[0] == e);
        assert(pushed.drop_first().len() == 0);
        assert(first_entry(pushed.drop_first(), c) is None);
    }
}

/// Whether two column catalogs hold the same id and descriptor.
pub open spec fn same_column(a: ColumnCatalog, b: ColumnCatalog) -> bool {
    &&& a.id == b.id
    &&& a.desc.datatype == b.desc.datatype
    &&& a.desc.name@ == b.desc.name@
    &&& a.desc.is_primary == b.desc.is_primary
    &&& a.desc.is_required == b.desc.is_required
}

impl ColumnCatalog {
    /// Whether this catalog holds the same id and descriptor as `other`.
    pub fn same_as(&self, other: &ColumnCatalog) -> (r: bool)
        ensures
            r == same_column(*self, *other),
    {
        self.id == other.id && self.desc.datatype == other.desc.datatype && self.desc.name
            == other.desc.name && self.desc.is_primary == other.desc.is_primary
            && self.desc.is_required == other.desc.is_required
    }
}

} // verus!
