use vstd::prelude::*;

use crate::negative::N;

verus! {

/// The declared semantic type of one record field.
#[derive(Debug, Clone, Copy, PartialEq, Eq, Structural)]
pub enum FieldKind {
    /// A plain signed 64-bit integer.
    Int,
    /// A signed 64-bit integer that must be strictly negative.
    Negative,
    /// An optional enumeration whose variants carry no data, numbered `0..variants`.
    OptionalEnum { variants: usize },
}

/// A named field of a record type.
#[derive(Debug, Clone)]
pub struct Field {
    pub name: String,
    pub kind: FieldKind,
}

/// A record type: its fields in declaration order.
#[derive(Debug, Clone)]
pub struct RecordType {
    pub fields: Vec<Field>,
}

/// The value of one field of a record.
#[derive(Debug, Clone, Copy, PartialEq, Eq)]
pub enum Value {
    Int(i64),
    Negative(N),
    /// An optional enumeration value: absent, or the number of its variant.
    Enum(Option<usize>),
}

/// A record: one value per field, in field order.
#[derive(Debug, Clone, PartialEq, Eq)]
pub struct Record {
    pub values: Vec<Value>,
}

/// Settings of schema inference.
#[derive(Debug, Clone, Copy, PartialEq, Eq, Structural)]
pub struct InferOptions {
    /// Store enumeration variants that carry no data by their name rather than by a numeric tag.
    pub enums_as_strings: bool,
}

/// The value type of a column.
#[derive(Debug, Clone)]
pub enum ColumnType {
    /// Non-nullable 64-bit integers.
    Int64,
    /// A nullable column that can hold nothing but nulls.
    NullOnly,
    /// A nullable column of enumeration variants; `known[v]` says whether variant `v`
    /// can be stored. `as_strings` selects storage by name rather than by tag.
    Enum { known: Vec<bool>, as_strings: bool },
}

/// A named, typed column.
#[derive(Debug, Clone)]
pub struct Column {
    pub name: String,
    pub ty: ColumnType,
}

/// An ordered sequence of columns, one per record field.
#[derive(Debug, Clone)]
pub struct Schema {
    pub columns: Vec<Column>,
}

/// One stored entry of a column.
#[derive(Debug, Clone, Copy, PartialEq, Eq, Structural)]
pub enum Cell {
    Null,
    Int(i64),
    /// The number of an enumeration variant.
    Tag(usize),
}

/// Columns of cells, aligned by row index.
#[derive(Debug, Clone, PartialEq, Eq)]
pub struct Batch {
    pub num_rows: usize,
    pub columns: Vec<Vec<Cell>>,
}

/// Why no schema could be derived.
#[derive(Debug, Clone, Copy, PartialEq, Eq, Structural)]
pub enum InferenceError {
    /// Sample-based inference was given no samples.
    NoSamples,
    /// An enumeration field declares no variants, which no column type can carry.
    Unsupported { field: usize },
    /// A sample is not a value of the record type.
    SampleMismatch { row: usize },
}

/// Why records could not be stored under a schema.
#[derive(Debug, Clone, Copy, PartialEq, Eq, Structural)]
pub enum EncodeError {
    /// The record has another number of values than the schema has columns.
    FieldCount { row: usize },
    /// The value cannot be stored in its column.
    Unrepresentable { row: usize, column: usize },
}

/// Why a stored column value could not be turned back into a record field.
#[derive(Debug, Clone, Copy, PartialEq, Eq, Structural)]
pub enum DecodeError {
    /// The stored integer is zero or positive, but the field only admits negatives.
    NotNegative { value: i64 },
    /// A stored cell does not fit its column's type or its field's kind.
    Mismatch,
    /// The batch's columns do not line up with the schema and the record type.
    Shape,
}

/// The mathematical form of a column type.
pub enum ColumnTypeView {
    Int64,
    NullOnly,
    Enum(Seq<bool>, bool),
}

/// The mathematical form of a column.
pub struct ColumnView {
    pub name: Seq<char>,
    pub ty: ColumnTypeView,
}

/// The mathematical form of a batch.
pub struct BatchView {
    pub num_rows: nat,
    pub columns: Seq<Seq<Cell>>,
}

impl View for ColumnType {
    type V = ColumnTypeView;

    open spec fn view(&self) -> ColumnTypeView {
        match self {
            ColumnType::Int64 => ColumnTypeView::Int64,
            ColumnType::NullOnly => ColumnTypeView::NullOnly,
            ColumnType::Enum { known, as_strings } => ColumnTypeView::Enum(known@, *as_strings),
        }
    }
}

impl View for Column {
    type V = ColumnView;

    open spec fn view(&self) -> ColumnView {
        ColumnView { name: self.name@, ty: self.ty@ }
    }
}

impl View for Schema {
    type V = Seq<ColumnView>;

    open spec fn view(&self) -> Seq<ColumnView> {
        self.columns@.map_values(|c: Column| c@)
    }
}

impl View for Batch {
    type V = BatchView;

    open spec fn view(&self) -> BatchView {
        BatchView {
            num_rows: self.num_rows as nat,
            columns: self.columns@.map_values(|c: Vec<Cell>| c@),
        }
    }
}

/// The field kinds of a record type, in order.
pub open spec fn kinds_of(t: RecordType) -> Seq<FieldKind> {
    t.fields@.map_values(|f: Field| f.kind)
}

/// The values of each record, in order.
pub open spec fn rows_of(rs: Seq<Record>) -> Seq<Seq<Value>> {
    rs.map_values(|r: Record| r.values@)
}

/// Every enumeration field declares at least one variant.
pub open spec fn supported(kinds: Seq<FieldKind>) -> bool {
    forall|j: int|
        0 <= j < kinds.len() ==> !(#[trigger] kinds[j] matches FieldKind::OptionalEnum { variants } && variants == 0)
}

/// `v` is a legal value of a field of kind `k`.
pub open spec fn value_fits(k: FieldKind, v: Value) -> bool {
    match k {
        FieldKind::Int => v is Int,
        FieldKind::Negative => match v {
            Value::Negative(n) => n.value() < 0,
            _ => false,
        },
        FieldKind::OptionalEnum { variants } => match v {
            Value::Enum(None) => true,
            Value::Enum(Some(i)) => i < variants,
            _ => false,
        },
    }
}

/// `row` is a legal value of a record type with fields of kinds `kinds`.
pub open spec fn row_fits(kinds: Seq<FieldKind>, row: Seq<Value>) -> bool {
    &&& row.len() == kinds.len()
    &&& forall|j: int| 0 <= j < kinds.len() ==> value_fits(kinds[j], #[trigger] row[j])
}

/// Every row is a legal value of the record type.
pub open spec fn rows_fit(kinds: Seq<FieldKind>, rows: Seq<Seq<Value>>) -> bool {
    forall|i: int| 0 <= i < rows.len() ==> row_fits(kinds, #[trigger] rows[i])
}

/// The cell that stores `v` in a column of type `c`, if there is one.
pub open spec fn encode_cell(c: ColumnTypeView, v: Value) -> Option<Cell> {
    match c {
        ColumnTypeView::Int64 => match v {
            Value::Int(x) => Some(Cell::Int(x)),
            Value::Negative(n) => Some(Cell::Int(n.value())),
            Value::Enum(_) => None,
        },
        ColumnTypeView::NullOnly => match v {
            Value::Enum(None) => Some(Cell::Null),
            _ => None,
        },
        ColumnTypeView::Enum(known, _) => match v {
            Value::Enum(None) => Some(Cell::Null),
            Value::Enum(Some(i)) => if i < known.len() && known[i as int] {
                Some(Cell::Tag(i))
            } else {
                None
            },
            _ => None,
        },
    }
}

/// Every value of `row` can be stored in its column of `schema`.
pub open spec fn row_encodable(schema: Seq<ColumnView>, row: Seq<Value>) -> bool {
    &&& row.len() == schema.len()
    &&& forall|j: int| 0 <= j < schema.len() ==> (#[trigger] encode_cell(schema[j].ty, row[j])) is Some
}

/// Every row can be stored under `schema`.
pub open spec fn rows_encodable(schema: Seq<ColumnView>, rows: Seq<Seq<Value>>) -> bool {
    forall|i: int| 0 <= i < rows.len() ==> row_encodable(schema, #[trigger] rows[i])
}

/// The batch that stores `rows` under `schema`, column `j` holding the `j`-th value of each row.
pub open spec fn encoded(schema: Seq<ColumnView>, rows: Seq<Seq<Value>>) -> BatchView {
    BatchView {
        num_rows: rows.len(),
        columns: Seq::new(
            schema.len(),
            |j: int| Seq::new(rows.len(), |i: int| encode_cell(schema[j].ty, rows[i][j])->Some_0),
        ),
    }
}

/// The field value that `cell`, read from a column of type `c`, gives for a field of kind `k`.
pub open spec fn decode_cell(k: FieldKind, c: ColumnTypeView, cell: Cell) -> Result<Value, DecodeError> {
    match (c, cell) {
        (ColumnTypeView::Int64, Cell::Int(x)) => match k {
            FieldKind::Int => Ok(Value::Int(x)),
            FieldKind::Negative => if x < 0 {
                Ok(Value::Negative(N::from_value(x)))
            } else {
                Err(DecodeError::NotNegative { value: x })
            },
            FieldKind::OptionalEnum { .. } => Err(DecodeError::Mismatch),
        },
        (ColumnTypeView::NullOnly, Cell::Null) | (ColumnTypeView::Enum(_, _), Cell::Null) => match k {
            FieldKind::OptionalEnum { .. } => Ok(Value::Enum(None)),
            _ => Err(DecodeError::Mismatch),
        },
        (ColumnTypeView::Enum(_, _), Cell::Tag(v)) => match k {
            FieldKind::OptionalEnum { variants } => if v < variants {
                Ok(Value::Enum(Some(v)))
            } else {
                Err(DecodeError::Mismatch)
            },
            _ => Err(DecodeError::Mismatch),
        },
        _ => Err(DecodeError::Mismatch),
    }
}

/// The batch has one column per field and per schema column, each `num_rows` long.
pub open spec fn shape_ok(kinds: Seq<FieldKind>, schema: Seq<ColumnView>, b: BatchView) -> bool {
    &&& kinds.len() == schema.len()
    &&& b.columns.len() == schema.len()
    &&& forall|j: int| 0 <= j < b.columns.len() ==> (#[trigger] b.columns[j]).len() == b.num_rows
}

/// Every cell of the batch gives a value of its field.
pub open spec fn decodable(kinds: Seq<FieldKind>, schema: Seq<ColumnView>, b: BatchView) -> bool {
    &&& shape_ok(kinds, schema, b)
    &&& forall|i: int, j: int|
        0 <= i < b.num_rows && 0 <= j < schema.len() ==> (#[trigger] decode_cell(
            kinds[j],
            schema[j].ty,
            b.columns[j][i],
        )) is Ok
}

/// The rows read back from the batch.
pub open spec fn decoded(kinds: Seq<FieldKind>, schema: Seq<ColumnView>, b: BatchView) -> Seq<Seq<Value>> {
    Seq::new(
        b.num_rows,
        |i: int| Seq::new(schema.len(), |j: int| decode_cell(kinds[j], schema[j].ty, b.columns[j][i])->Ok_0),
    )
}

} // verus!
