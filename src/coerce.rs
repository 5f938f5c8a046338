//! Dynamically typed cells and their coercion to wire values.
use vstd::prelude::*;
use crate::decimal::{render_i128, signed_decimal};
use crate::schema::LogicalType;
use crate::text::copy_str;

verus! {

/// One cell of a tabular dataset, as the dataset typed it.
#[derive(Clone, Debug)]
pub enum Cell {
    Null,
    Boolean(bool),
    Int8(i8),
    Int16(i16),
    Int32(i32),
    Int64(i64),
    UInt8(u8),
    UInt16(u16),
    UInt32(u32),
    UInt64(u64),
    /// A text value.
    Text(String),
    /// A value of any other kind, held by its textual rendering.
    Other(String),
}

/// A value ready to be sent to the store.
#[derive(Clone, Debug)]
pub enum WireValue {
    Null,
    Number(i128),
    Str(String),
}

/// The mathematical content of a wire value.
pub enum WireModel {
    Null,
    Number(int),
    Str(Seq<char>),
}

impl WireValue {
    pub open spec fn view(&self) -> WireModel {
        match self {
            WireValue::Null => WireModel::Null,
            WireValue::Number(n) => WireModel::Number(*n as int),
            WireValue::Str(s) => WireModel::Str(s@),
        }
    }
}

/// The integer that a cell holds, where it holds one of any supported width.
pub open spec fn cell_int(c: Cell) -> Option<int> {
    match c {
        Cell::Int8(v) => Some(v as int),
        Cell::Int16(v) => Some(v as int),
        Cell::Int32(v) => Some(v as int),
        Cell::Int64(v) => Some(v as int),
        Cell::UInt8(v) => Some(v as int),
        Cell::UInt16(v) => Some(v as int),
        Cell::UInt32(v) => Some(v as int),
        Cell::UInt64(v) => Some(v as int),
        _ => None,
    }
}

/// The textual rendering of a cell.
pub open spec fn render(c: Cell) -> Seq<char> {
    match c {
        Cell::Null => "null"@,
        Cell::Boolean(b) => if b { "true"@ } else { "false"@ },
        Cell::Text(s) => s@,
        Cell::Other(s) => s@,
        _ => signed_decimal(cell_int(c).unwrap()),
    }
}

/// What a cell becomes under a column's logical type.
pub open spec fn coerce_spec(c: Cell, t: LogicalType) -> WireModel {
    match t {
        LogicalType::Int => match cell_int(c) {
            Some(n) => WireModel::Number(n),
            None => WireModel::Null,
        },
        LogicalType::Str => WireModel::Str(render(c)),
    }
}

/// The integer that `value` holds, widened; `None` where it holds no integer.
fn cell_integer(value: &Cell) -> (r: Option<i128>)
    ensures
        r matches Some(n) ==> cell_int(*value) == Some(n as int),
        r is None ==> cell_int(*value) is None,
{
    match value {
        Cell::Int8(v) => Some(*v as i128),
        Cell::Int16(v) => Some(*v as i128),
        Cell::Int32(v) => Some(*v as i128),
        Cell::Int64(v) => Some(*v as i128),
        Cell::UInt8(v) => Some(*v as i128),
        Cell::UInt16(v) => Some(*v as i128),
        Cell::UInt32(v) => Some(*v as i128),
        Cell::UInt64(v) => Some(*v as i128),
        _ => None,
    }
}

/// A numeric wire value for an integer cell of any width; `Null` for any other cell.
pub fn bigquery_anyvalue_numeric_type(value: &Cell) -> (r: WireValue)
    ensures
        r@ == coerce_spec(*value, LogicalType::Int),
{
    match cell_integer(value) {
        Some(n) => WireValue::Number(n),
        None => WireValue::Null,
    }
}

/// The textual rendering of a cell, whatever its kind.
pub fn cell_text(value: &Cell) -> (r: String)
    ensures
        r@ == render(*value),
{
    match value {
        Cell::Null => copy_str("null"),
        Cell::Boolean(b) => if *b { copy_str("true") } else { copy_str("false") },
        Cell::Text(s) => copy_str(s.as_str()),
        Cell::Other(s) => copy_str(s.as_str()),
        _ => {
            let n = cell_integer(value);
            render_i128(n.unwrap())
        },
    }
}

/// Coerces a cell to the wire value that its column's logical type calls for.
pub fn coerce(value: &Cell, ty: LogicalType) -> (r: WireValue)
    ensures
        r@ == coerce_spec(*value, ty),
{
    match ty {
        LogicalType::Int => bigquery_anyvalue_numeric_type(value),
        LogicalType::Str => WireValue::Str(cell_text(value)),
    }
}

} // verus!
