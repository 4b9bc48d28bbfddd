//! Binding of `CREATE TABLE`: its input as the parser hands it over, the
//! checks against the catalog, and the bound table that the plan carries.

use vstd::prelude::*;

use crate::catalog::{
    contains_name, same_column, schema_index, string_views, ColumnCatalog, ColumnDesc, ColumnId, RootCatalog,
    SchemaId,
};
use crate::planner::expr::{added, find_node, same_node, Expr, Id, RecExpr};
use crate::types::{DataType, DataTypeKind};

verus! {

/// A bound `CREATE TABLE` statement.
#[derive(Debug, Clone, Hash)]
pub struct CreateTable {
    pub schema_id: SchemaId,
    pub table_name: String,
    pub columns: Vec<ColumnCatalog>,
    pub ordered_pk_ids: Vec<ColumnId>,
}

/// An external source of rows, such as a file to copy from or to.
#[derive(Debug, Clone, Hash)]
pub struct ExtSource {
    pub path: String,
}

impl ExtSource {
    pub fn new(path: String) -> (r: ExtSource)
        ensures
            r.path@ == path@,
    {
        ExtSource { path }
    }

    /// A copy of this source.
    pub fn duplicate(&self) -> (r: ExtSource)
        ensures
            r == *self,
    {
        ExtSource { path: self.path.clone() }
    }
}

/// What a string turns into when lowercased.
pub uninterp spec fn lower_of(s: Seq<char>) -> Seq<char>;

/// Relies on `str::to_lowercase`: the result depends on the characters alone.
#[verifier::external_body]
fn lowercase(s: &str) -> (r: String)
    ensures
        r@ == lower_of(s@),
{
    s.to_lowercase()
}

/// An option on a column in a `CREATE TABLE` statement.
#[derive(Debug, Clone, Hash)]
pub enum ColumnOption {
    Null,
    NotNull,
    Unique { is_primary: bool },
    Comment(String),
}

/// A column definition in a `CREATE TABLE` statement.
#[derive(Debug, Clone, Hash)]
pub struct ColumnDef {
    pub name: String,
    pub data_type: DataTypeKind,
    pub options: Vec<ColumnOption>,
}

/// A table constraint in a `CREATE TABLE` statement.
#[derive(Debug, Clone, Hash)]
pub enum TableConstraint {
    /// `UNIQUE (c1, c2, ..)`, or `PRIMARY KEY (c1, c2, ..)` where `is_primary`.
    Unique { columns: Vec<String>, is_primary: bool },
    Other,
}

/// Whether an option declares its column the primary key.
pub open spec fn is_primary_option(o: ColumnOption) -> bool {
    match o {
        ColumnOption::Unique { is_primary } => is_primary,
        _ => false,
    }
}

/// Whether a column with these options admits nulls: the last `NULL` or
/// `NOT NULL` decides, and a column admits nulls where there is neither.
pub open spec fn nullable_of(opts: Seq<ColumnOption>) -> bool
    decreases opts.len(),
{
    if opts.len() == 0 {
        true
    } else {
        match opts.last() {
            ColumnOption::Null => true,
            ColumnOption::NotNull => false,
            _ => nullable_of(opts.drop_last()),
        }
    }
}

/// Whether a column with these options is the primary key: the last
/// `UNIQUE` option decides.
pub open spec fn primary_of(opts: Seq<ColumnOption>) -> bool
    decreases opts.len(),
{
    if opts.len() == 0 {
        false
    } else {
        match opts.last() {
            ColumnOption::Unique { is_primary } => is_primary,
            _ => primary_of(opts.drop_last()),
        }
    }
}

/// Whether a column with these options is required: its last comment is
/// `required`.
pub open spec fn required_of(opts: Seq<ColumnOption>) -> bool
    decreases opts.len(),
{
    if opts.len() == 0 {
        false
    } else {
        match opts.last() {
            ColumnOption::Comment(c) => c@ == "required"@,
            _ => required_of(opts.drop_last()),
        }
    }
}

/// How many options declare their column the primary key.
pub open spec fn primary_option_count(opts: Seq<ColumnOption>) -> nat
    decreases opts.len(),
{
    if opts.len() == 0 {
        0
    } else {
        primary_option_count(opts.drop_last()) + if is_primary_option(opts.last()) {
            1nat
        } else {
            0nat
        }
    }
}

/// The ids of the columns declared primary by their options, in order, one
/// entry for each such option.
pub open spec fn pk_ids_from_columns(cols: Seq<ColumnDef>) -> Seq<ColumnId>
    decreases cols.len(),
{
    if cols.len() == 0 {
        seq![]
    } else {
        pk_ids_from_columns(cols.drop_last()) + Seq::new(
            primary_option_count(cols.last().options@),
            |k: int| (cols.len() - 1) as ColumnId,
        )
    }
}

/// The lowercased names of the columns of the `PRIMARY KEY (..)` constraints,
/// in order of declaration.
pub open spec fn pk_names_from_constraints(cons: Seq<TableConstraint>) -> Seq<Seq<char>>
    decreases cons.len(),
{
    if cons.len() == 0 {
        seq![]
    } else {
        pk_names_from_constraints(cons.drop_last()) + match cons.last() {
            TableConstraint::Unique { columns, is_primary } => if is_primary {
                columns@.map_values(|c: String| lower_of(c@))
            } else {
                seq![]
            },
            _ => seq![],
        }
    }
}

impl ColumnCatalog {
    /// The catalog of a defined column, with id 0 and its name lowercased.
    pub fn from_column_def(cdef: &ColumnDef) -> (r: ColumnCatalog)
        ensures
            r.id == 0,
            r.desc.datatype == (DataType {
                kind: cdef.data_type,
                nullable: nullable_of(cdef.options@),
            }),
            r.desc.name@ == lower_of(cdef.name@),
            r.desc.is_primary == primary_of(cdef.options@),
            r.desc.is_required == required_of(cdef.options@),
    {
        let mut is_nullable = true;
        let mut is_primary = false;
        let mut is_required = false;
        let required = "required".to_owned();
        let mut i: usize = 0;
        while i < cdef.options.len()
            invariant
                i <= cdef.options@.len(),
                required@ == "required"@,
                is_nullable == nullable_of(cdef.options@.subrange(0, i as int)),
                is_primary == primary_of(cdef.options@.subrange(0, i as int)),
                is_required == required_of(cdef.options@.subrange(0, i as int)),
            decreases cdef.options@.len() - i,
        {
            proof {
                assert(cdef.options@.subrange(0, i + 1).drop_last() =~= cdef.options@.subrange(
                    0,
                    i as int,
                ));
            }
            match &cdef.options[i] {
                ColumnOption::Null => is_nullable = true,
                ColumnOption::NotNull => is_nullable = false,
                ColumnOption::Unique { is_primary: p } => is_primary = *p,
                ColumnOption::Comment(comment) => is_required = *comment == required,
            }
            i = i + 1;
        }
        proof {
            assert(cdef.options@.subrange(0, cdef.options@.len() as int) =~= cdef.options@);
        }
        ColumnCatalog::new(
            0,
            ColumnDesc::new(
                DataType::new(cdef.data_type, is_nullable),
                lowercase(cdef.name.as_str()),
                is_primary,
                is_required,
            ),
        )
    }
}

/// The ids of the columns declared primary by their options, in order of
/// declaration; the id of a column is its position.
pub fn ordered_pks_from_columns(columns: &[ColumnDef]) -> (r: Vec<ColumnId>)
    requires
        columns@.len() <= u32::MAX,
    ensures
        r@ == pk_ids_from_columns(columns@),
{
    let mut ordered_pks: Vec<ColumnId> = Vec::new();
    let mut index: usize = 0;
    while index < columns.len()
        invariant
            index <= columns@.len(),
            columns@.len() <= u32::MAX,
            ordered_pks@ == pk_ids_from_columns(columns@.subrange(0, index as int)),
        decreases columns@.len() - index,
    {
        let opts = &columns[index].options;
        let ghost before = ordered_pks@;
        let mut j: usize = 0;
        while j < opts.len()
            invariant
                j <= opts@.len(),
                index < columns@.len() <= u32::MAX,
                *opts == columns@[index as int].options,
                ordered_pks@ == before + Seq::new(
                    primary_option_count(opts@.subrange(0, j as int)),
                    |k: int| index as ColumnId,
                ),
            decreases opts@.len() - j,
        {
            proof {
                assert(opts@.subrange(0, j + 1).drop_last() =~= opts@.subrange(0, j as int));
            }
            let is_primary = match &opts[j] {
                ColumnOption::Unique { is_primary } => *is_primary,
                _ => false,
            };
            if is_primary {
                ordered_pks.push(index as ColumnId);
            }
            proof {
                let n = primary_option_count(opts@.subrange(0, j as int));
                assert(Seq::new(n + 1, |k: int| index as ColumnId) =~= Seq::new(
                    n,
                    |k: int| index as ColumnId,
                ).push(index as ColumnId));
                assert(ordered_pks@ =~= before + Seq::new(
                    primary_option_count(opts@.subrange(0, j + 1)),
                    |k: int| index as ColumnId,
                ));
            }
            j = j + 1;
        }
        proof {
            let cols = columns@.subrange(0, index + 1);
            assert(cols.drop_last() =~= columns@.subrange(0, index as int));
            assert(opts@.subrange(0, opts@.len() as int) =~= opts@);
            assert(cols.last() == columns@[index as int]);
        }
        index = index + 1;
    }
    proof {
        assert(columns@.subrange(0, columns@.len() as int) =~= columns@);
    }
    ordered_pks
}

/// The lowercased names of the primary-key columns that `PRIMARY KEY (..)`
/// constraints declare, in order of declaration.
pub fn pks_name_from_constraints(constraints: &[TableConstraint]) -> (r: Vec<String>)
    ensures
        string_views(r@) == pk_names_from_constraints(constraints@),
{
    let mut names: Vec<String> = Vec::new();
    let mut i: usize = 0;
    while i < constraints.len()
        invariant
            i <= constraints@.len(),
            string_views(names@) == pk_names_from_constraints(constraints@.subrange(0, i as int)),
        decreases constraints@.len() - i,
    {
        let ghost before = string_views(names@);
        proof {
            let cons = constraints@.subrange(0, i + 1);
            assert(cons.drop_last() =~= constraints@.subrange(0, i as int));
            assert(cons.last() == constraints@[i as int]);
        }
        match &constraints[i] {
            TableConstraint::Unique { columns, is_primary } => {
                if *is_primary {
                    let mut j: usize = 0;
                    while j < columns.len()
                        invariant
                            j <= columns@.len(),
                            string_views(names@) == before + columns@.subrange(
                                0,
                                j as int,
                            ).map_values(|c: String| lower_of(c@)),
                        decreases columns@.len() - j,
                    {
                        let lowered = lowercase(columns[j].as_str());
                        let ghost prev = names@;
                        names.push(lowered);
                        proof {
                            assert(columns@.subrange(0, j + 1).map_values(|c: String| lower_of(c@))
                                =~= columns@.subrange(0, j as int).map_values(
                                |c: String| lower_of(c@),
                            ).push(lower_of(columns@[j as int]@)));
                            assert(string_views(names@) =~= string_views(prev).push(
                                lower_of(columns@[j as int]@),
                            ));
                        }
                        j = j + 1;
                    }
                    proof {
                        assert(columns@.subrange(0, columns@.len() as int) =~= columns@);
                    }
                } else {
                    assert(before + seq![] =~= before);
                }
            },
            TableConstraint::Other => {
                assert(before + seq![] =~= before);
            },
        }
        i = i + 1;
    }
    proof {
        assert(constraints@.subrange(0, constraints@.len() as int) =~= constraints@);
    }
    names
}

/// The kind of a binding error.
#[derive(Debug, Clone, Copy, PartialEq, Eq, Structural)]
pub enum BindErrorKind {
    InvalidSchema,
    DuplicatedTable,
    DuplicatedColumn,
    InvalidColumn,
    NotSupportedTSQL,
}

/// An error found while binding a statement.
#[derive(Debug, Clone)]
pub enum BindError {
    /// No schema of this name.
    InvalidSchema(String),
    /// The schema already holds a table of this name.
    DuplicatedTable(String),
    /// Two columns have this name, ignoring case.
    DuplicatedColumn(String),
    /// A primary-key constraint names a column that is not defined.
    InvalidColumn(String),
    /// A primary key made of several columns declared on the columns
    /// themselves, or a primary key declared both on a column and as a
    /// constraint.
    NotSupportedTSQL,
}

impl BindError {
    /// The kind of the error and the name it carries (empty where it carries
    /// none).
    pub open spec fn view(&self) -> (BindErrorKind, Seq<char>) {
        match self {
            BindError::InvalidSchema(n) => (BindErrorKind::InvalidSchema, n@),
            BindError::DuplicatedTable(n) => (BindErrorKind::DuplicatedTable, n@),
            BindError::DuplicatedColumn(n) => (BindErrorKind::DuplicatedColumn, n@),
            BindError::InvalidColumn(n) => (BindErrorKind::InvalidColumn, n@),
            BindError::NotSupportedTSQL => (BindErrorKind::NotSupportedTSQL, seq![]),
        }
    }

    /// The kind of the error.
    pub fn kind(&self) -> (r: BindErrorKind)
        ensures
            r == self@.0,
    {
        match self {
            BindError::InvalidSchema(_) => BindErrorKind::InvalidSchema,
            BindError::DuplicatedTable(_) => BindErrorKind::DuplicatedTable,
            BindError::DuplicatedColumn(_) => BindErrorKind::DuplicatedColumn,
            BindError::InvalidColumn(_) => BindErrorKind::InvalidColumn,
            BindError::NotSupportedTSQL => BindErrorKind::NotSupportedTSQL,
        }
    }
}

/// The lowercased names of the columns.
pub open spec fn lowered_names(cols: Seq<ColumnDef>) -> Seq<Seq<char>> {
    cols.map_values(|c: ColumnDef| lower_of(c.name@))
}

/// The first position whose name repeats an earlier one, if there is one.
pub open spec fn first_repeat(names: Seq<Seq<char>>) -> Option<int> {
    if exists|j: int| 0 <= j < names.len() && names.subrange(0, j).contains(names[j]) {
        Some(
            choose|j: int|
                0 <= j < names.len() && names.subrange(0, j).contains(names[j]) && forall|k: int|
                    0 <= k < j ==> !names.subrange(0, k).contains(names[k]),
        )
    } else {
        None
    }
}

/// The first position of `keys` whose name is not among `names`, if there is
/// one.
pub open spec fn first_missing(keys: Seq<Seq<char>>, names: Seq<Seq<char>>) -> Option<int> {
    if exists|j: int| 0 <= j < keys.len() && !names.contains(keys[j]) {
        Some(
            choose|j: int|
                0 <= j < keys.len() && !names.contains(keys[j]) && forall|k: int|
                    0 <= k < j ==> names.contains(keys[k]),
        )
    } else {
        None
    }
}

/// The first position of `name` among `names`.
pub open spec fn position_in(names: Seq<Seq<char>>, name: Seq<char>) -> int {
    choose|i: int|
        0 <= i < names.len() && names[i] == name && forall|k: int| 0 <= k < i ==> names[k] != name
}

/// The ids of the primary-key columns, in order: those declared on the
/// columns, else those that the constraints name.
pub open spec fn chosen_pk_ids(cols: Seq<ColumnDef>, cons: Seq<TableConstraint>) -> Seq<ColumnId> {
    if pk_ids_from_columns(cols).len() > 0 {
        pk_ids_from_columns(cols)
    } else {
        pk_names_from_constraints(cons).map_values(
            |n: Seq<char>| position_in(lowered_names(cols), n) as ColumnId,
        )
    }
}

/// The error that the primary-key declarations give, if there is one: a
/// key of several columns or one declared both ways is not supported, and a
/// constraint must name defined columns.
pub open spec fn pk_error(cols: Seq<ColumnDef>, cons: Seq<TableConstraint>) -> Option<
    (BindErrorKind, Seq<char>),
> {
    let pk_ids = pk_ids_from_columns(cols);
    let pk_names = pk_names_from_constraints(cons);
    if pk_ids.len() > 1 || (pk_ids.len() == 1 && pk_names.len() > 0) {
        Some((BindErrorKind::NotSupportedTSQL, seq![]))
    } else if pk_ids.len() == 0 && first_missing(pk_names, lowered_names(cols)) is Some {
        Some(
            (
                BindErrorKind::InvalidColumn,
                pk_names[first_missing(pk_names, lowered_names(cols))->Some_0],
            ),
        )
    } else {
        None
    }
}

/// The error of binding `CREATE TABLE` of the table `table` in the schema
/// `schema` (both lowercased) with these columns and constraints, if there is
/// one; the checks come in this order.
pub open spec fn create_table_error(
    catalog: RootCatalog,
    schema: Seq<char>,
    table: Seq<char>,
    cols: Seq<ColumnDef>,
    cons: Seq<TableConstraint>,
) -> Option<(BindErrorKind, Seq<char>)> {
    match schema_index(catalog.schemas@, schema) {
        None => Some((BindErrorKind::InvalidSchema, schema)),
        Some(si) => if string_views(catalog.schemas@[si].tables@).contains(table) {
            Some((BindErrorKind::DuplicatedTable, table))
        } else if first_repeat(lowered_names(cols)) is Some {
            Some(
                (
                    BindErrorKind::DuplicatedColumn,
                    cols[first_repeat(lowered_names(cols))->Some_0].name@,
                ),
            )
        } else {
            pk_error(cols, cons)
        },
    }
}

/// `c` is the catalog of the column `def` at position `idx`, where `pks` are
/// the ids of the primary-key columns: those are primary and not nullable.
pub open spec fn bound_column(c: ColumnCatalog, def: ColumnDef, idx: int, pks: Seq<ColumnId>) -> bool {
    let in_pk = pks.contains(idx as ColumnId);
    &&& c.id == idx as ColumnId
    &&& c.desc.datatype.kind == def.data_type
    &&& c.desc.datatype.nullable == (nullable_of(def.options@) && !in_pk)
    &&& c.desc.name@ == lower_of(def.name@)
    &&& c.desc.is_primary == (primary_of(def.options@) || in_pk)
    &&& c.desc.is_required == required_of(def.options@)
}

/// `t` is the bound table `table` of the schema `schema_id`, with the
/// columns `cols` and the primary-key ids `pks`.
pub open spec fn describes_table(
    t: CreateTable,
    schema_id: SchemaId,
    table: Seq<char>,
    cols: Seq<ColumnDef>,
    pks: Seq<ColumnId>,
) -> bool {
    &&& t.schema_id == schema_id
    &&& t.table_name@ == table
    &&& t.columns@.len() == cols.len()
    &&& forall|i: int| 0 <= i < cols.len() ==> bound_column(t.columns@[i], cols[i], i, pks)
    &&& t.ordered_pk_ids@ == pks
}

/// The first position of `s` among the strings of `v`.
fn position_of(v: &Vec<String>, s: &String) -> (r: usize)
    requires
        string_views(v@).contains(s@),
    ensures
        r as int == position_in(string_views(v@), s@),
        r < v@.len(),
{
    let ghost names = string_views(v@);
    let ghost w = choose|w: int| 0 <= w < names.len() && names[w] == s@;
    let mut i: usize = 0;
    while i < v.len()
        invariant
            i <= v@.len(),
            names == string_views(v@),
            0 <= w < names.len() && names[w] == s@,
            forall|k: int| 0 <= k < i ==> names[k] != s@,
        decreases v@.len() - i,
    {
        if v[i] == *s {
            proof {
                let ii = i as int;
                assert(names[ii] == v@[ii]@);
                assert(0 <= ii < names.len() && names[ii] == s@ && forall|k: int|
                    0 <= k < ii ==> names[k] != s@);
                let j = position_in(names, s@);
                if j < ii {
                    assert(names[j] != s@);
                }
                if j > ii {
                    assert(names[ii] != s@);
                }
            }
            return i;
        }
        proof {
            assert(names[i as int] == v@[i as int]@);
        }
        i = i + 1;
    }
    proof {
        assert(names[w] != s@);
    }
    0
}

/// Whether `v` holds `x`.
fn contains_id(v: &Vec<ColumnId>, x: ColumnId) -> (r: bool)
    ensures
        r == v@.contains(x),
{
    let mut i: usize = 0;
    while i < v.len()
        invariant
            i <= v@.len(),
            forall|k: int| 0 <= k < i ==> v@[k] != x,
        decreases v@.len() - i,
    {
        if v[i] == x {
            return true;
        }
        i = i + 1;
    }
    false
}


/// The lowercased names of the columns, or the error for the first column
/// whose name repeats an earlier one, ignoring case.
fn lowered_column_names(columns: &[ColumnDef]) -> (r: Result<Vec<String>, BindError>)
    ensures
        r is Ok <==> first_repeat(lowered_names(columns@)) is None,
        r matches Ok(v) ==> string_views(v@) == lowered_names(columns@),
        r matches Err(e) ==> e@ == (
            BindErrorKind::DuplicatedColumn,
            columns@[first_repeat(lowered_names(columns@))->Some_0].name@,
        ),
{
    let ghost lnames = lowered_names(columns@);
    let mut set: Vec<String> = Vec::new();
    let mut i: usize = 0;
    while i < columns.len()
        invariant
            i <= columns@.len(),
            lnames == lowered_names(columns@),
            string_views(set@) == lnames.subrange(0, i as int),
            forall|k: int| 0 <= k < i ==> !lnames.subrange(0, k).contains(lnames[k]),
        decreases columns@.len() - i,
    {
        let name = lowercase(columns[i].name.as_str());
        proof {
            assert(lnames[i as int] == name@);
        }
        if contains_name(&set, name.as_str()) {
            proof {
                let ii = i as int;
                assert(0 <= ii < lnames.len() && lnames.subrange(0, ii).contains(lnames[ii])
                    && forall|k: int| 0 <= k < ii ==> !lnames.subrange(0, k).contains(lnames[k]));
                let j = first_repeat(lnames)->Some_0;
                if j < ii {
                    assert(!lnames.subrange(0, j).contains(lnames[j]));
                }
                if j > ii {
                    assert(!lnames.subrange(0, ii).contains(lnames[ii]));
                }
            }
            return Err(BindError::DuplicatedColumn(columns[i].name.clone()));
        }
        let ghost prev = set@;
        set.push(name);
        proof {
            assert(string_views(set@) =~= string_views(prev).push(name@));
            assert(lnames.subrange(0, i + 1) =~= lnames.subrange(0, i as int).push(lnames[i as int]));
        }
        i = i + 1;
    }
    proof {
        assert(lnames.subrange(0, lnames.len() as int) =~= lnames);
        if first_repeat(lnames) is Some {
            let j = choose|j: int| 0 <= j < lnames.len() && lnames.subrange(0, j).contains(lnames[j]);
            assert(!lnames.subrange(0, j).contains(lnames[j]));
        }
    }
    Ok(set)
}

/// The ids of the primary-key columns, or the error that their declarations
/// give; `names` are the lowercased names of the columns.
fn primary_key_ids(columns: &[ColumnDef], constraints: &[TableConstraint], names: &Vec<String>) -> (r:
    Result<Vec<ColumnId>, BindError>)
    requires
        columns@.len() <= u32::MAX,
        string_views(names@) == lowered_names(columns@),
    ensures
        r is Ok <==> pk_error(columns@, constraints@) is None,
        r matches Ok(v) ==> v@ == chosen_pk_ids(columns@, constraints@),
        r matches Err(e) ==> pk_error(columns@, constraints@) == Some(e@),
{
    let ghost lnames = lowered_names(columns@);
    let ordered_pk_ids = ordered_pks_from_columns(columns);
    let has_pk_from_column = ordered_pk_ids.len() > 0;
    if ordered_pk_ids.len() > 1 {
        // a primary key of several columns is declared by "primary key(c1, c2...)"
        return Err(BindError::NotSupportedTSQL);
    }
    let pks_name = pks_name_from_constraints(constraints);
    let ghost pk_names = pk_names_from_constraints(constraints@);
    if has_pk_from_column && pks_name.len() > 0 {
        // a primary key cannot come both from a constraint and from a column option
        return Err(BindError::NotSupportedTSQL);
    } else if has_pk_from_column {
        return Ok(ordered_pk_ids);
    }
    let mut k: usize = 0;
    while k < pks_name.len()
        invariant
            k <= pks_name@.len(),
            string_views(pks_name@) == pk_names,
            string_views(names@) == lnames,
            lnames == lowered_names(columns@),
            pk_names == pk_names_from_constraints(constraints@),
            pk_ids_from_columns(columns@).len() == 0,
            forall|m: int| 0 <= m < k ==> lnames.contains(pk_names[m]),
        decreases pks_name@.len() - k,
    {
        proof {
            assert(pk_names[k as int] == pks_name@[k as int]@);
        }
        if !contains_name(names, pks_name[k].as_str()) {
            proof {
                let kk = k as int;
                assert(0 <= kk < pk_names.len() && !lnames.contains(pk_names[kk]) && forall|m: int|
                    0 <= m < kk ==> lnames.contains(pk_names[m]));
                let j = first_missing(pk_names, lnames)->Some_0;
                if j < kk {
                    assert(lnames.contains(pk_names[j]));
                }
                if j > kk {
                    assert(lnames.contains(pk_names[kk]));
                }
            }
            return Err(BindError::InvalidColumn(pks_name[k].clone()));
        }
        k = k + 1;
    }
    proof {
        if first_missing(pk_names, lnames) is Some {
            let j = choose|j: int| 0 <= j < pk_names.len() && !lnames.contains(pk_names[j]);
            assert(lnames.contains(pk_names[j]));
        }
    }
    // turn the names into ids, in the order of the constraint
    let mut ids: Vec<ColumnId> = Vec::new();
    let mut k: usize = 0;
    while k < pks_name.len()
        invariant
            k <= pks_name@.len(),
            string_views(pks_name@) == pk_names,
            string_views(names@) == lnames,
            lnames.len() == columns@.len() <= u32::MAX,
            forall|m: int| 0 <= m < pk_names.len() ==> lnames.contains(pk_names[m]),
            ids@ == pk_names.subrange(0, k as int).map_values(
                |n: Seq<char>| position_in(lnames, n) as ColumnId,
            ),
        decreases pks_name@.len() - k,
    {
        proof {
            assert(pk_names[k as int] == pks_name@[k as int]@);
        }
        let pos = position_of(names, &pks_name[k]);
        ids.push(pos as ColumnId);
        proof {
            assert(pk_names.subrange(0, k + 1) =~= pk_names.subrange(0, k as int).push(
                pk_names[k as int],
            ));
            assert(ids@ =~= pk_names.subrange(0, k + 1).map_values(
                |n: Seq<char>| position_in(lnames, n) as ColumnId,
            ));
        }
        k = k + 1;
    }
    proof {
        assert(pk_names.subrange(0, pk_names.len() as int) =~= pk_names);
    }
    Ok(ids)
}

/// The catalogs of the columns, with their positions as ids; the columns of
/// `pks` are primary and not nullable.
fn bind_columns(columns: &[ColumnDef], pks: &Vec<ColumnId>) -> (r: Vec<ColumnCatalog>)
    requires
        columns@.len() <= u32::MAX,
    ensures
        r@.len() == columns@.len(),
        forall|m: int| 0 <= m < columns@.len() ==> bound_column(r@[m], columns@[m], m, pks@),
{
    let mut bound: Vec<ColumnCatalog> = Vec::new();
    let mut idx: usize = 0;
    while idx < columns.len()
        invariant
            idx <= columns@.len() <= u32::MAX,
            bound@.len() == idx,
            forall|m: int| 0 <= m < idx ==> bound_column(bound@[m], columns@[m], m, pks@),
        decreases columns@.len() - idx,
    {
        let mut col = ColumnCatalog::from_column_def(&columns[idx]);
        col.set_id(idx as ColumnId);
        if contains_id(pks, idx as ColumnId) {
            col.set_primary(true);
            col.set_nullable(false);
        }
        bound.push(col);
        idx = idx + 1;
    }
    bound
}

/// Binds statements against the catalog, adding what it binds to a plan.
pub struct Binder {
    pub catalog: RootCatalog,
    pub egraph: RecExpr,
}

impl Binder {
    pub fn new(catalog: RootCatalog) -> (r: Binder)
        ensures
            r.catalog == catalog,
            r.egraph.nodes@.len() == 0,
            r.egraph.wf(),
    {
        Binder { catalog, egraph: RecExpr::new() }
    }

    /// Binds `CREATE TABLE schema_name.table_name (columns, constraints)`:
    /// checks the statement against the catalog and adds the bound table to
    /// the plan. Names are lowercased; a column's id is its position.
    pub fn bind_create_table(
        &mut self,
        schema_name: &str,
        table_name: &str,
        columns: &[ColumnDef],
        constraints: &[TableConstraint],
    ) -> (r: Result<Id, BindError>)
        requires
            old(self).egraph.wf(),
            columns@.len() <= u32::MAX,
        ensures
            final(self).catalog == old(self).catalog,
            final(self).egraph.wf(),
            ({
                let err = create_table_error(
                    old(self).catalog,
                    lower_of(schema_name@),
                    lower_of(table_name@),
                    columns@,
                    constraints@,
                );
                &&& r is Ok <==> err is None
                &&& r matches Err(e) ==> err == Some(e@) && final(self).egraph == old(self).egraph
                &&& r matches Ok(id) ==> {
                    let si = schema_index(old(self).catalog.schemas@, lower_of(schema_name@))->Some_0;
                    let sid = old(self).catalog.schemas@[si].id;
                    let pks = chosen_pk_ids(columns@, constraints@);
                    &&& id < final(self).egraph.nodes@.len()
                    &&& final(self).egraph.nodes@[id as int] is CreateTable
                    &&& describes_table(
                        final(self).egraph.nodes@[id as int]->CreateTable_0,
                        sid,
                        lower_of(table_name@),
                        columns@,
                        pks,
                    )
                    &&& exists|t: CreateTable|
                        describes_table(t, sid, lower_of(table_name@), columns@, pks) && (
                        final(self).egraph.nodes@,
                        id as int,
                    ) == added(old(self).egraph.nodes@, Expr::CreateTable(t))
                }
            }),
    {
        let schema_name = lowercase(schema_name);
        let table_name = lowercase(table_name);
        let schema_id = match self.catalog.get_schema_by_name(schema_name.as_str()) {
            None => return Err(BindError::InvalidSchema(schema_name)),
            Some(schema) => {
                if schema.has_table(table_name.as_str()) {
                    return Err(BindError::DuplicatedTable(table_name));
                }
                schema.id()
            },
        };
        let names = match lowered_column_names(columns) {
            Ok(names) => names,
            Err(e) => return Err(e),
        };
        let ordered_pk_ids = match primary_key_ids(columns, constraints, &names) {
            Ok(ids) => ids,
            Err(e) => return Err(e),
        };
        let bound = bind_columns(columns, &ordered_pk_ids);
        let table = CreateTable { schema_id, table_name, columns: bound, ordered_pk_ids };
        let ghost t = table;
        let ghost pks = ordered_pk_ids_view(t);
        let id = self.egraph.add(Expr::CreateTable(table));
        proof {
            lemma_added_table_describes(
                old(self).egraph.nodes@,
                self.egraph.nodes@,
                id as int,
                t,
                schema_id,
                table_name@,
                columns@,
                pks,
            );
            assert(describes_table(t, schema_id, table_name@, columns@, pks) && (
            self.egraph.nodes@,
            id as int,
            ) == added(old(self).egraph.nodes@, Expr::CreateTable(t)));
        }
        Ok(id)
    }
}

/// Whether two bound tables are the same: schema, name, columns and key ids.
pub open spec fn same_table(a: CreateTable, b: CreateTable) -> bool {
    &&& a.schema_id == b.schema_id
    &&& a.table_name@ == b.table_name@
    &&& a.columns@.len() == b.columns@.len()
    &&& forall|i: int|
        0 <= i < a.columns@.len() ==> same_column(#[trigger] a.columns@[i], b.columns@[i])
    &&& a.ordered_pk_ids@ == b.ordered_pk_ids@
}

impl CreateTable {
    /// Whether this bound table is the same as `other`.
    pub fn same_as(&self, other: &CreateTable) -> (r: bool)
        ensures
            r == same_table(*self, *other),
    {
        if self.schema_id != other.schema_id || self.table_name != other.table_name
            || self.columns.len() != other.columns.len() || self.ordered_pk_ids.len()
            != other.ordered_pk_ids.len() {
            return false;
        }
        let mut i: usize = 0;
        while i < self.columns.len()
            invariant
                i <= self.columns@.len() == other.columns@.len(),
                forall|k: int| 0 <= k < i ==> same_column(#[trigger] self.columns@[k], other.columns@[k]),
            decreases self.columns@.len() - i,
        {
            if !self.columns[i].same_as(&other.columns[i]) {
                return false;
            }
            i = i + 1;
        }
        let mut j: usize = 0;
        while j < self.ordered_pk_ids.len()
            invariant
                j <= self.ordered_pk_ids@.len() == other.ordered_pk_ids@.len(),
                forall|k: int| 0 <= k < j ==> self.ordered_pk_ids@[k] == other.ordered_pk_ids@[k],
            decreases self.ordered_pk_ids@.len() - j,
        {
            if self.ordered_pk_ids[j] != other.ordered_pk_ids[j] {
                return false;
            }
            j = j + 1;
        }
        assert(self.ordered_pk_ids@ =~= other.ordered_pk_ids@);
        true
    }
}

/// The key ids of a bound table.
pub open spec fn ordered_pk_ids_view(t: CreateTable) -> Seq<ColumnId> {
    t.ordered_pk_ids@
}

/// A table identical to one that `describes_table` fits is fitted too.
pub proof fn lemma_same_table_describes(
    a: CreateTable,
    b: CreateTable,
    schema_id: SchemaId,
    table: Seq<char>,
    cols: Seq<ColumnDef>,
    pks: Seq<ColumnId>,
)
    requires
        same_table(a, b),
        describes_table(b, schema_id, table, cols, pks),
    ensures
        describes_table(a, schema_id, table, cols, pks),
{
    assert forall|i: int| 0 <= i < cols.len() implies bound_column(a.columns@[i], cols[i], i, pks) by {
        assert(same_column(a.columns@[i], b.columns@[i]));
    }
}

/// Two tables that `describes_table` fits with the same arguments are
/// identical, and so is every table identical to one of them.
proof fn lemma_described_tables_identical(
    t1: CreateTable,
    t2: CreateTable,
    schema_id: SchemaId,
    table: Seq<char>,
    cols: Seq<ColumnDef>,
    pks: Seq<ColumnId>,
)
    requires
        describes_table(t1, schema_id, table, cols, pks),
        describes_table(t2, schema_id, table, cols, pks),
    ensures
        forall|x: Expr| same_node(x, Expr::CreateTable(t1)) <==> same_node(x, Expr::CreateTable(t2)),
{
    assert forall|x: Expr| same_node(x, Expr::CreateTable(t1)) implies same_node(
        x,
        Expr::CreateTable(t2),
    ) by {
        let a = x->CreateTable_0;
        assert forall|i: int| 0 <= i < a.columns@.len() implies same_column(
            #[trigger] a.columns@[i],
            t2.columns@[i],
        ) by {
            assert(same_column(a.columns@[i], t1.columns@[i]));
            assert(bound_column(t1.columns@[i], cols[i], i, pks));
            assert(bound_column(t2.columns@[i], cols[i], i, pks));
        }
    }
    assert forall|x: Expr| same_node(x, Expr::CreateTable(t2)) implies same_node(
        x,
        Expr::CreateTable(t1),
    ) by {
        let a = x->CreateTable_0;
        assert forall|i: int| 0 <= i < a.columns@.len() implies same_column(
            #[trigger] a.columns@[i],
            t1.columns@[i],
        ) by {
            assert(same_column(a.columns@[i], t2.columns@[i]));
            assert(bound_column(t1.columns@[i], cols[i], i, pks));
            assert(bound_column(t2.columns@[i], cols[i], i, pks));
        }
    }
}

/// Binding the same `CREATE TABLE` again, against the plan that the first
/// binding left, returns the id of the first binding and leaves the plan as
/// it is: the bound table is added canonically.
pub proof fn lemma_bind_create_table_twice(
    before: Seq<Expr>,
    after: Seq<Expr>,
    id: int,
    t1: CreateTable,
    t2: CreateTable,
    schema_id: SchemaId,
    table: Seq<char>,
    cols: Seq<ColumnDef>,
    pks: Seq<ColumnId>,
)
    requires
        describes_table(t1, schema_id, table, cols, pks),
        describes_table(t2, schema_id, table, cols, pks),
        (after, id) == added(before, Expr::CreateTable(t1)),
    ensures
        added(after, Expr::CreateTable(t2)) == (after, id),
{
    let n1 = Expr::CreateTable(t1);
    let n2 = Expr::CreateTable(t2);
    crate::planner::expr::lemma_add_twice(before, n1);
    crate::planner::expr::lemma_find_node(after, n1);
    crate::planner::expr::lemma_find_node(after, n2);
    lemma_described_tables_identical(t1, t2, schema_id, table, cols, pks);
    assert(find_node(after, n1) == Some(id)) by {
        if find_node(after, n1) is None {
            assert(added(after, n1).0.len() == after.len() + 1);
        }
    }
    assert(same_node(after[id], n2));
    let j = find_node(after, n2)->Some_0;
    if j < id {
        assert(!same_node(after[j], n1));
    }
    if j > id {
        assert(!same_node(after[id], n2));
    }
}

/// After adding a bound table that `describes_table` fits, the node at the
/// returned id is a bound table that it fits.
proof fn lemma_added_table_describes(
    before: Seq<Expr>,
    after: Seq<Expr>,
    id: int,
    t: CreateTable,
    schema_id: SchemaId,
    table: Seq<char>,
    cols: Seq<ColumnDef>,
    pks: Seq<ColumnId>,
)
    requires
        describes_table(t, schema_id, table, cols, pks),
        (after, id) == added(before, Expr::CreateTable(t)),
    ensures
        0 <= id < after.len(),
        after[id] is CreateTable,
        describes_table(after[id]->CreateTable_0, schema_id, table, cols, pks),
{
    crate::planner::expr::lemma_find_node(before, Expr::CreateTable(t));
    match find_node(before, Expr::CreateTable(t)) {
        Some(i) => {
            assert(same_node(after[id], Expr::CreateTable(t)));
            lemma_same_table_describes(after[id]->CreateTable_0, t, schema_id, table, cols, pks);
        },
        None => {
            assert(after[id] == Expr::CreateTable(t));
        },
    }
}

/// Binding the same `CREATE TABLE` on two equal plans gives the same id and
/// plans that are identical node by node: the result depends only on the
/// plan and on the bound table up to identity.
pub proof fn lemma_bind_create_table_same_state(
    before: Seq<Expr>,
    a1: Seq<Expr>,
    id1: int,
    a2: Seq<Expr>,
    id2: int,
    t1: CreateTable,
    t2: CreateTable,
    schema_id: SchemaId,
    table: Seq<char>,
    cols: Seq<ColumnDef>,
    pks: Seq<ColumnId>,
)
    requires
        describes_table(t1, schema_id, table, cols, pks),
        describes_table(t2, schema_id, table, cols, pks),
        (a1, id1) == added(before, Expr::CreateTable(t1)),
        (a2, id2) == added(before, Expr::CreateTable(t2)),
    ensures
        id1 == id2,
        a1.len() == a2.len(),
        forall|k: int| 0 <= k < a1.len() ==> same_node(a1[k], a2[k]),
{
    let n1 = Expr::CreateTable(t1);
    let n2 = Expr::CreateTable(t2);
    crate::planner::expr::lemma_find_node(before, n1);
    crate::planner::expr::lemma_find_node(before, n2);
    lemma_described_tables_identical(t1, t2, schema_id, table, cols, pks);
    crate::planner::expr::lemma_same_node_reflexive(n1);
    if find_node(before, n1) is Some {
        let i = find_node(before, n1)->Some_0;
        let j = find_node(before, n2)->Some_0;
        assert(same_node(before[i], n2));
        if j < i {
            assert(!same_node(before[j], n1));
        }
        if j > i {
            assert(!same_node(before[i], n2));
        }
    } else {
        assert(find_node(before, n2) is None) by {
            if find_node(before, n2) is Some {
                let j = find_node(before, n2)->Some_0;
                assert(same_node(before[j], n1));
            }
        }
    }
    assert forall|k: int| 0 <= k < a1.len() implies same_node(a1[k], a2[k]) by {
        if k < before.len() {
            crate::planner::expr::lemma_same_node_reflexive(before[k]);
        }
    }
}

} // verus!
