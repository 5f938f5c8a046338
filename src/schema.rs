//! Logical column types, table schemas and the registry of tables.
use vstd::prelude::*;
use crate::text::{copy_str, str_eq};
use indexmap::IndexMap;

verus! {

/// The logical type of a column: it decides how a cell is coerced and which
/// remote field type the column gets.
#[derive(PartialEq, Eq, Structural, Clone, Copy, Debug)]
pub enum LogicalType {
    Int,
    Str,
}

/// The name by which a logical type is written in a configuration.
pub open spec fn logical_type_name(t: LogicalType) -> Seq<char> {
    match t {
        LogicalType::Int => seq!['i', 'n', 't'],
        LogicalType::Str => seq!['s', 't', 'r', 'i', 'n', 'g'],
    }
}

/// Reads a logical type from its configuration name: `"int"` or `"string"`.
/// Any other name is not a logical type.
pub fn parse_logical_type(name: &str) -> (r: Option<LogicalType>)
    ensures
        name@ == logical_type_name(LogicalType::Int) ==> r == Some(LogicalType::Int),
        name@ == logical_type_name(LogicalType::Str) ==> r == Some(LogicalType::Str),
        r is None <==> (name@ != logical_type_name(LogicalType::Int)
            && name@ != logical_type_name(LogicalType::Str)),
{
    proof {
        reveal_strlit("int");
        reveal_strlit("string");
    }
    if str_eq(name, "int") {
        assert("int"@ =~= logical_type_name(LogicalType::Int));
        Some(LogicalType::Int)
    } else if str_eq(name, "string") {
        assert("string"@ =~= logical_type_name(LogicalType::Str));
        Some(LogicalType::Str)
    } else {
        assert("int"@ =~= logical_type_name(LogicalType::Int));
        assert("string"@ =~= logical_type_name(LogicalType::Str));
        None
    }
}

/// An insertion-ordered map of column names to logical types.
#[verifier::external_type_specification]
#[verifier::external_body]
#[verifier::reject_recursive_types(K)]
#[verifier::reject_recursive_types(V)]
#[verifier::reject_recursive_types(S)]
pub struct ExIndexMap<K, V, S>(IndexMap<K, V, S>);

/// The entries of a column map as (name, type) pairs, in insertion order.
pub uninterp spec fn column_entries(m: IndexMap<String, LogicalType>) -> Seq<(Seq<char>, LogicalType)>;

/// Relies on `IndexMap::new`: an empty map.
#[verifier::external_body]
fn columns_new() -> (r: IndexMap<String, LogicalType>)
    ensures
        column_entries(r) == Seq::<(Seq<char>, LogicalType)>::empty(),
{
    IndexMap::new()
}

/// Relies on `IndexMap::insert`: a key already present keeps its place and
/// takes the new value; a new key goes last.
#[verifier::external_body]
fn columns_insert(m: &mut IndexMap<String, LogicalType>, name: String, ty: LogicalType)
    ensures
        forall|i: int| 0 <= i < column_entries(*old(m)).len() && column_entries(*old(m))[i].0 == name@
            ==> column_entries(*final(m)) == column_entries(*old(m)).update(i, (name@, ty)),
        (forall|i: int| 0 <= i < column_entries(*old(m)).len() ==> column_entries(*old(m))[i].0 != name@)
            ==> column_entries(*final(m)) == column_entries(*old(m)).push((name@, ty)),
{
    m.insert(name, ty);
}

/// Relies on `IndexMap::len`: the number of entries.
#[verifier::external_body]
fn columns_len(m: &IndexMap<String, LogicalType>) -> (r: usize)
    ensures
        r == column_entries(*m).len(),
{
    m.len()
}

/// Relies on `IndexMap::get_index`: the key at position `i`, if there is one.
#[verifier::external_body]
fn columns_key_at(m: &IndexMap<String, LogicalType>, i: usize) -> (r: Option<&String>)
    ensures
        i < column_entries(*m).len() ==> r is Some && r.unwrap()@ == column_entries(*m)[i as int].0,
        i >= column_entries(*m).len() ==> r is None,
{
    m.get_index(i).map(|e| e.0)
}

/// Relies on `IndexMap::get`: the value stored under `name`, if any.
#[verifier::external_body]
fn columns_get(m: &IndexMap<String, LogicalType>, name: &str) -> (r: Option<LogicalType>)
    ensures
        forall|i: int| 0 <= i < column_entries(*m).len() && column_entries(*m)[i].0 == name@
            ==> r == Some(column_entries(*m)[i].1),
        (forall|i: int| 0 <= i < column_entries(*m).len() ==> column_entries(*m)[i].0 != name@) ==> r is None,
{
    m.get(name).copied()
}

/// An ordered mapping from column name to logical type.
#[derive(Debug)]
pub struct TableSchema {
    pub columns: IndexMap<String, LogicalType>,
}

/// The type that `cols` gives the column `name`, if it has one.
pub open spec fn type_in(cols: Seq<(Seq<char>, LogicalType)>, name: Seq<char>) -> Option<LogicalType>
    decreases cols.len(),
{
    if cols.len() == 0 {
        None
    } else if cols[0].0 == name {
        Some(cols[0].1)
    } else {
        type_in(cols.drop_first(), name)
    }
}

proof fn lemma_type_in_agrees(cols: Seq<(Seq<char>, LogicalType)>, name: Seq<char>, r: Option<LogicalType>)
    requires
        exists|k: int| 0 <= k < cols.len() && cols[k].0 == name,
        forall|i: int| 0 <= i < cols.len() && cols[i].0 == name ==> r == Some(cols[i].1),
    ensures
        type_in(cols, name) == r,
    decreases cols.len(),
{
    if cols[0].0 != name {
        let t = cols.drop_first();
        let k = choose|k: int| 0 <= k < cols.len() && cols[k].0 == name;
        assert(t[k - 1] == cols[k]);
        assert forall|i: int| 0 <= i < t.len() && t[i].0 == name implies r == Some(t[i].1) by {
            assert(t[i] == cols[i + 1]);
        }
        lemma_type_in_agrees(t, name, r);
    }
}

proof fn lemma_type_in_absent(cols: Seq<(Seq<char>, LogicalType)>, name: Seq<char>)
    requires
        forall|i: int| 0 <= i < cols.len() ==> (#[trigger] cols[i]).0 != name,
    ensures
        type_in(cols, name) is None,
    decreases cols.len(),
{
    if cols.len() > 0 {
        assert forall|i: int| 0 <= i < cols.len() - 1 implies (#[trigger] cols.drop_first()[i]).0 != name by {
            assert(cols.drop_first()[i] == cols[i + 1]);
        }
        lemma_type_in_absent(cols.drop_first(), name);
    }
}

impl TableSchema {
    /// The schema's columns as (name, type) pairs, in order.
    pub open spec fn view(&self) -> Seq<(Seq<char>, LogicalType)> {
        column_entries(self.columns)
    }

    /// A schema without columns.
    pub fn new() -> (r: TableSchema)
        ensures
            r@ == Seq::<(Seq<char>, LogicalType)>::empty(),
    {
        TableSchema { columns: columns_new() }
    }

    /// Sets the type of column `name`: an existing column keeps its place,
    /// a new one goes last.
    pub fn insert(&mut self, name: String, ty: LogicalType)
        ensures
            forall|i: int| 0 <= i < old(self)@.len() && old(self)@[i].0 == name@
                ==> final(self)@ == old(self)@.update(i, (name@, ty)),
            (forall|i: int| 0 <= i < old(self)@.len() ==> old(self)@[i].0 != name@)
                ==> final(self)@ == old(self)@.push((name@, ty)),
    {
        columns_insert(&mut self.columns, name, ty);
    }

    /// Number of columns.
    pub fn len(&self) -> (r: usize)
        ensures
            r == self@.len(),
    {
        columns_len(&self.columns)
    }

    /// The column at position `i`: its name and type.
    pub fn column_at(&self, i: usize) -> (r: (&String, LogicalType))
        requires
            i < self@.len(),
        ensures
            (r.0@, r.1) == self@[i as int],
    {
        let name = match columns_key_at(&self.columns, i) {
            Some(k) => k,
            None => {
                assert(false);
                unreached()
            }
        };
        match columns_get(&self.columns, name.as_str()) {
            Some(ty) => (name, ty),
            None => {
                assert(false);
                unreached()
            }
        }
    }

    /// The logical type of column `name`, or `None` where the schema has no such column.
    pub fn type_of(&self, name: &str) -> (r: Option<LogicalType>)
        ensures
            r == type_in(self@, name@),
    {
        let r = columns_get(&self.columns, name);
        proof {
            let cols = self@;
            if exists|k: int| 0 <= k < cols.len() && cols[k].0 == name@ {
                lemma_type_in_agrees(cols, name@, r);
            } else {
                lemma_type_in_absent(cols, name@);
            }
        }
        r
    }
}

/// A named table and its schema.
#[derive(Debug)]
pub struct TableDefinition {
    pub name: String,
    pub schema: TableSchema,
}

/// The tables that the store is to hold, each with its schema.
#[derive(Debug)]
pub struct SchemaRegistry {
    pub tables: Vec<TableDefinition>,
}

/// The columns of the block state table, in order.
pub open spec fn state_columns() -> Seq<(Seq<char>, LogicalType)> {
    seq![
        ("indexed_id"@, LogicalType::Str),
        ("block_number"@, LogicalType::Int),
        ("sealed_block_with_senders"@, LogicalType::Str),
        ("arweave_id"@, LogicalType::Str),
        ("timestamp"@, LogicalType::Int),
    ]
}

/// The schema of the block state table.
pub fn state_table_schema() -> (r: TableSchema)
    ensures
        r@ == state_columns(),
{
    proof {
        reveal_strlit("indexed_id");
        reveal_strlit("block_number");
        reveal_strlit("sealed_block_with_senders");
        reveal_strlit("arweave_id");
        reveal_strlit("timestamp");
    }
    let mut r = TableSchema::new();
    let ghost cols = state_columns();
    r.insert(copy_str("indexed_id"), LogicalType::Str);
    assert(r@ =~= cols.subrange(0, 1));
    assert(cols[0].0.len() != cols[1].0.len());
    r.insert(copy_str("block_number"), LogicalType::Int);
    assert(r@ =~= cols.subrange(0, 2));
    assert(cols[0].0.len() != cols[2].0.len() && cols[1].0.len() != cols[2].0.len());
    r.insert(copy_str("sealed_block_with_senders"), LogicalType::Str);
    assert(r@ =~= cols.subrange(0, 3));
    assert(cols[0].0[0] != cols[3].0[0]);
    assert(cols[1].0.len() != cols[3].0.len() && cols[2].0.len() != cols[3].0.len());
    r.insert(copy_str("arweave_id"), LogicalType::Str);
    assert(r@ =~= cols.subrange(0, 4));
    assert(cols[0].0.len() != cols[4].0.len() && cols[1].0.len() != cols[4].0.len());
    assert(cols[2].0.len() != cols[4].0.len() && cols[3].0.len() != cols[4].0.len());
    r.insert(copy_str("timestamp"), LogicalType::Int);
    assert(r@ =~= state_columns());
    r
}

/// Name of the table that holds block state.
pub open spec fn state_table_name() -> Seq<char> {
    "state"@
}

impl SchemaRegistry {
    /// The registered tables as (name, columns) pairs.
    pub open spec fn view(&self) -> Seq<(Seq<char>, Seq<(Seq<char>, LogicalType)>)> {
        self.tables@.map_values(|t: TableDefinition| (t.name@, t.schema@))
    }

    /// The schema registered for `table_name`, or `None` where there is none.
    pub fn schema_for(&self, table_name: &str) -> (r: Option<&TableSchema>)
        ensures
            r matches Some(s) ==> exists|i: int| 0 <= i < self@.len()
                && #[trigger] self@[i].0 == table_name@ && self@[i].1 == s@,
            r is None <==> forall|i: int| 0 <= i < self@.len() ==> (#[trigger] self@[i]).0 != table_name@,
    {
        let mut i: usize = 0;
        while i < self.tables.len()
            invariant
                0 <= i <= self.tables@.len(),
                self@.len() == self.tables@.len(),
                forall|j: int| 0 <= j < i ==> (#[trigger] self@[j]).0 != table_name@,
            decreases self.tables@.len() - i,
        {
            if str_eq(self.tables[i].name.as_str(), table_name) {
                assert(self@[i as int].0 == table_name@);
                return Some(&self.tables[i].schema);
            }
            i = i + 1;
        }
        None
    }
}

/// The registry of the store's tables: the block state table alone.
pub fn prepare_blockstate_table_config() -> (r: SchemaRegistry)
    ensures
        r@ == seq![(state_table_name(), state_columns())],
{
    let name = copy_str("state");
    let r = SchemaRegistry { tables: vec![TableDefinition { name, schema: state_table_schema() }] };
    proof {
        assert(r@ =~= seq![(state_table_name(), state_columns())]);
    }
    r
}

} // verus!
