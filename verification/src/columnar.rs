//! A columnar batch as this crate reads it: named columns of equal length,
//! each of one kind. The batch itself is an Arrow record batch shared by
//! handle; everything here that touches it is a thin call into Arrow whose
//! contract is stated over `batch_columns` and `batch_rows` and is taken on
//! trust.

use std::sync::Arc;

use arrow::array::{Array, AsArray};
use arrow::datatypes::{DataType, Int32Type, Schema, UInt32Type};
use arrow::record_batch::RecordBatch;
use vstd::prelude::*;

verus! {

/// Handle to an Arrow record batch. Cloning shares the batch.
#[verifier::external_body]
#[derive(Debug)]
pub struct ColumnBatch {
    pub inner: Arc<RecordBatch>,
}

/// What one column holds, row by row.
pub enum ColumnData {
    /// Variable-length UTF-8 strings; `None` is a null cell.
    Utf8(Seq<Option<Seq<char>>>),
    /// 64-bit-offset UTF-8 strings (large text).
    LargeUtf8,
    /// Signed 32-bit integers, one slot per row whether null or not.
    Int32(Seq<i32>),
    /// Unsigned 32-bit integers, one slot per row whether null or not.
    UInt32(Seq<u32>),
    /// Lists of a fixed width; `float32` says whether the items are 32-bit
    /// floats.
    FixedSizeList { width: i32, float32: bool },
    /// Any other kind of column.
    Other,
}

/// A column: its name in the schema and its cells.
pub struct Column {
    pub name: Seq<char>,
    pub data: ColumnData,
}

/// The kind of a column, without its cells.
#[derive(Clone, Copy, Debug, PartialEq, Eq, Structural)]
pub enum ColumnKind {
    Utf8,
    LargeUtf8,
    Int32,
    UInt32,
    FixedSizeList { width: i32, float32: bool },
    Other,
}

/// The columns of a batch, in schema order.
pub uninterp spec fn batch_columns(b: ColumnBatch) -> Seq<Column>;

/// The number of rows of a batch.
pub uninterp spec fn batch_rows(b: ColumnBatch) -> nat;

impl ColumnData {
    /// The kind of this column.
    pub open spec fn kind(self) -> ColumnKind {
        match self {
            ColumnData::Utf8(_) => ColumnKind::Utf8,
            ColumnData::LargeUtf8 => ColumnKind::LargeUtf8,
            ColumnData::Int32(_) => ColumnKind::Int32,
            ColumnData::UInt32(_) => ColumnKind::UInt32,
            ColumnData::FixedSizeList { width, float32 } => ColumnKind::FixedSizeList {
                width,
                float32,
            },
            ColumnData::Other => ColumnKind::Other,
        }
    }
}

/// The cell at `row` of a UTF-8 column; `None` for a null cell.
pub open spec fn utf8_cell(columns: Seq<Column>, col: int, row: int) -> Option<Seq<char>> {
    match columns[col].data {
        ColumnData::Utf8(cells) => cells[row],
        _ => None,
    }
}

/// The slot at `row` of a signed 32-bit column.
pub open spec fn int32_cell(columns: Seq<Column>, col: int, row: int) -> i32 {
    match columns[col].data {
        ColumnData::Int32(cells) => cells[row],
        _ => 0,
    }
}

/// The slot at `row` of an unsigned 32-bit column.
pub open spec fn uint32_cell(columns: Seq<Column>, col: int, row: int) -> u32 {
    match columns[col].data {
        ColumnData::UInt32(cells) => cells[row],
        _ => 0,
    }
}

/// The position of the first column called `name`, if there is one.
pub open spec fn find_column(columns: Seq<Column>, name: Seq<char>) -> Option<int>
    decreases columns.len(),
{
    if columns.len() == 0 {
        None
    } else {
        match find_column(columns.drop_last(), name) {
            Some(i) => Some(i),
            None => if columns.last().name == name {
                Some(columns.len() - 1)
            } else {
                None
            },
        }
    }
}

impl Clone for ColumnBatch {
    /// Another handle to the same batch.
    ///
    /// Trusted: `Arc::clone` returns a pointer to the same allocation, so
    /// both handles read the same batch.
    #[verifier::external_body]
    fn clone(&self) -> (other: ColumnBatch)
        ensures
            other == *self,
    {
        ColumnBatch { inner: self.inner.clone() }
    }
}

impl ColumnBatch {
    /// A batch with no columns and no rows.
    ///
    /// Trusted: `RecordBatch::new_empty` on `Schema::empty()` builds one
    /// column per schema field, so none, and a row count of zero.
    #[verifier::external_body]
    pub(crate) fn empty() -> (b: ColumnBatch)
        ensures
            batch_columns(b).len() == 0,
            batch_rows(b) == 0,
    {
        ColumnBatch { inner: Arc::new(RecordBatch::new_empty(Arc::new(Schema::empty()))) }
    }

    /// Number of rows.
    ///
    /// Trusted: `RecordBatch::num_rows` returns the row count the batch was
    /// built with.
    #[verifier::external_body]
    pub(crate) fn num_rows(&self) -> (n: usize)
        ensures
            n == batch_rows(*self),
    {
        self.inner.num_rows()
    }

    /// Number of columns.
    ///
    /// Trusted: `RecordBatch::num_columns` returns the length of the column
    /// list, which a batch keeps equal to its schema's field list.
    #[verifier::external_body]
    pub(crate) fn num_columns(&self) -> (n: usize)
        ensures
            n == batch_columns(*self).len(),
    {
        self.inner.num_columns()
    }

    /// Position of the first column with the given name.
    ///
    /// Trusted: `Schema::index_of` scans the fields in order and returns the
    /// index of the first whose name equals `name`, or an error if none does.
    #[verifier::external_body]
    pub(crate) fn index_of(&self, name: &str) -> (r: Option<usize>)
        ensures
            r.is_some() == find_column(batch_columns(*self), name@).is_some(),
            r matches Some(i) ==> find_column(batch_columns(*self), name@) == Some(i as int),
    {
        self.inner.schema_ref().index_of(name).ok()
    }

    /// Name of the column at `col`.
    ///
    /// Trusted: `Schema::field` returns the field at that index and
    /// `Field::name` its name; it panics past the end, which `requires`
    /// leaves out.
    #[verifier::external_body]
    pub(crate) fn column_name(&self, col: usize) -> (name: String)
        requires
            col < batch_columns(*self).len(),
        ensures
            name@ == batch_columns(*self)[col as int].name,
    {
        self.inner.schema_ref().field(col).name().clone()
    }

    /// Kind of the column at `col`.
    ///
    /// Trusted: `RecordBatch::column` returns the array at that index
    /// (panicking past the end) and `Array::data_type` its logical type.
    #[verifier::external_body]
    pub(crate) fn column_kind(&self, col: usize) -> (kind: ColumnKind)
        requires
            col < batch_columns(*self).len(),
        ensures
            kind == batch_columns(*self)[col as int].data.kind(),
    {
        match self.inner.column(col).data_type() {
            DataType::Utf8 => ColumnKind::Utf8,
            DataType::LargeUtf8 => ColumnKind::LargeUtf8,
            DataType::Int32 => ColumnKind::Int32,
            DataType::UInt32 => ColumnKind::UInt32,
            DataType::FixedSizeList(item, width) => ColumnKind::FixedSizeList {
                width: *width,
                float32: matches!(item.data_type(), DataType::Float32),
            },
            _ => ColumnKind::Other,
        }
    }

    /// Whether the cell at (`col`, `row`) of a UTF-8 column is null.
    ///
    /// Trusted: `Array::is_null` reads the validity bit of that row. Every
    /// column of a batch has as many rows as the batch, so a row below
    /// `batch_rows` is in range.
    #[verifier::external_body]
    pub(crate) fn utf8_is_null(&self, col: usize, row: usize) -> (null: bool)
        requires
            col < batch_columns(*self).len(),
            batch_columns(*self)[col as int].data is Utf8,
            row < batch_rows(*self),
        ensures
            null == utf8_cell(batch_columns(*self), col as int, row as int).is_none(),
    {
        self.inner.column(col).as_string::<i32>().is_null(row)
    }

    /// The string in the cell at (`col`, `row`) of a UTF-8 column, borrowed
    /// from the batch.
    ///
    /// Trusted: `GenericByteArray::value` returns the string stored at that
    /// row. Null cells are left out by `requires`.
    #[verifier::external_body]
    pub(crate) fn utf8_value<'a>(&'a self, col: usize, row: usize) -> (value: &'a str)
        requires
            col < batch_columns(*self).len(),
            batch_columns(*self)[col as int].data is Utf8,
            row < batch_rows(*self),
            utf8_cell(batch_columns(*self), col as int, row as int).is_some(),
        ensures
            Some(value@) == utf8_cell(batch_columns(*self), col as int, row as int),
    {
        self.inner.column(col).as_string::<i32>().value(row)
    }

    /// The integer in the slot at (`col`, `row`) of a signed 32-bit column,
    /// whether or not the cell is null.
    ///
    /// Trusted: `PrimitiveArray::value` returns the slot at that row.
    #[verifier::external_body]
    pub(crate) fn int32_value(&self, col: usize, row: usize) -> (value: i32)
        requires
            col < batch_columns(*self).len(),
            batch_columns(*self)[col as int].data is Int32,
            row < batch_rows(*self),
        ensures
            value == int32_cell(batch_columns(*self), col as int, row as int),
    {
        self.inner.column(col).as_primitive::<Int32Type>().value(row)
    }

    /// The integer in the slot at (`col`, `row`) of an unsigned 32-bit
    /// column, whether or not the cell is null.
    ///
    /// Trusted: `PrimitiveArray::value` returns the slot at that row.
    #[verifier::external_body]
    pub(crate) fn uint32_value(&self, col: usize, row: usize) -> (value: u32)
        requires
            col < batch_columns(*self).len(),
            batch_columns(*self)[col as int].data is UInt32,
            row < batch_rows(*self),
        ensures
            value == uint32_cell(batch_columns(*self), col as int, row as int),
    {
        self.inner.column(col).as_primitive::<UInt32Type>().value(row)
    }
}

} // verus!
