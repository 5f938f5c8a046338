//! Tabular datasets and their materialization into row records.
use vstd::prelude::*;
use crate::coerce::{coerce, coerce_spec, Cell, WireModel, WireValue};
use crate::schema::{type_in, TableSchema};
use crate::text::copy_str;

verus! {

/// One column of a dataset: its name and its cells, top row first.
#[derive(Clone, Debug)]
pub struct DataColumn {
    pub name: String,
    pub cells: Vec<Cell>,
}

/// An in-memory table: named columns of equal height.
#[derive(Clone, Debug)]
pub struct Dataset {
    pub height: usize,
    pub columns: Vec<DataColumn>,
}

impl Dataset {
    /// Every column holds exactly `height` cells, and column names are distinct.
    pub open spec fn wf(&self) -> bool {
        &&& forall|j: int| 0 <= j < self.columns@.len() ==> (#[trigger] self.columns@[j]).cells@.len() == self.height
        &&& forall|j: int, k: int| 0 <= j < self.columns@.len() && 0 <= k < self.columns@.len() && j != k
            ==> #[trigger] self.columns@[j].name@ != #[trigger] self.columns@[k].name@
    }

    /// The schema gives a type to every column of the dataset.
    pub open spec fn covered_by(&self, schema: TableSchema) -> bool {
        forall|j: int| 0 <= j < self.columns@.len()
            ==> type_in(schema@, (#[trigger] self.columns@[j]).name@) is Some
    }

    /// The cell at row `i` of column `j`.
    pub open spec fn cell(&self, i: int, j: int) -> Cell {
        self.columns@[j].cells@[i]
    }

    /// The name of column `j`.
    pub open spec fn column_name(&self, j: int) -> Seq<char> {
        self.columns@[j].name@
    }
}

/// One entry of a row record: a column name and its coerced value.
#[derive(Clone, Debug)]
pub struct RowEntry {
    pub column: String,
    pub value: WireValue,
}

/// One materialized dataset row, in the dataset's column order.
#[derive(Clone, Debug)]
pub struct RowRecord {
    pub entries: Vec<RowEntry>,
}

impl RowRecord {
    /// The entries as (column, value) pairs.
    pub open spec fn view(&self) -> Seq<(Seq<char>, WireModel)> {
        self.entries@.map_values(|e: RowEntry| (e.column@, e.value@))
    }
}

/// The record that row `i` of `df` becomes under `schema`.
pub open spec fn row_spec(df: Dataset, schema: TableSchema, i: int) -> Seq<(Seq<char>, WireModel)> {
    Seq::new(df.columns@.len(), |j: int|
        (df.column_name(j), coerce_spec(df.cell(i, j), type_in(schema@, df.column_name(j)).unwrap())))
}

fn build_row(df: &Dataset, table_config: &TableSchema, idx: usize) -> (r: RowRecord)
    requires
        df.wf(),
        df.covered_by(*table_config),
        idx < df.height,
    ensures
        r@ == row_spec(*df, *table_config, idx as int),
{
    let mut entries: Vec<RowEntry> = Vec::new();
    let mut j: usize = 0;
    while j < df.columns.len()
        invariant
            df.wf(),
            df.covered_by(*table_config),
            idx < df.height,
            0 <= j <= df.columns@.len(),
            entries@.len() == j,
            forall|k: int| 0 <= k < j ==>
                (#[trigger] entries@[k]).column@ == df.column_name(k)
                && entries@[k].value@ == coerce_spec(df.cell(idx as int, k),
                    type_in(table_config@, df.column_name(k)).unwrap()),
        decreases df.columns@.len() - j,
    {
        let col = &df.columns[j];
        let ty = table_config.type_of(col.name.as_str());
        assert(type_in(table_config@, df.column_name(j as int)) is Some);
        let ty = ty.unwrap();
        assert(col.cells@.len() == df.height);
        let value = coerce(&col.cells[idx], ty);
        entries.push(RowEntry { column: copy_str(col.name.as_str()), value });
        j = j + 1;
    }
    let r = RowRecord { entries };
    assert(r@ =~= row_spec(*df, *table_config, idx as int));
    r
}

/// Materializes every row of `df` as a row record: one record per dataset
/// row, in row order, each holding every column in the dataset's column
/// order with its cell coerced by the column's type in `table_config`.
pub fn build_bigquery_rowmap_vector(df: &Dataset, table_config: &TableSchema) -> (r: Vec<RowRecord>)
    requires
        df.wf(),
        df.covered_by(*table_config),
    ensures
        r@.len() == df.height,
        forall|i: int| 0 <= i < r@.len() ==> (#[trigger] r@[i])@.len() == df.columns@.len(),
        forall|i: int| 0 <= i < r@.len() ==> (#[trigger] r@[i])@ == row_spec(*df, *table_config, i),
        forall|i: int, j: int, k: int| 0 <= i < r@.len() && 0 <= j < r@[i]@.len() && 0 <= k < r@[i]@.len() && j != k
            ==> #[trigger] r@[i]@[j].0 != #[trigger] r@[i]@[k].0,
{
    let mut rows: Vec<RowRecord> = Vec::new();
    let mut idx: usize = 0;
    while idx < df.height
        invariant
            df.wf(),
            df.covered_by(*table_config),
            0 <= idx <= df.height,
            rows@.len() == idx,
            forall|i: int| 0 <= i < idx ==> (#[trigger] rows@[i])@ == row_spec(*df, *table_config, i),
        decreases df.height - idx,
    {
        let row = build_row(df, table_config, idx);
        rows.push(row);
        idx = idx + 1;
    }
    rows
}

} // verus!
