use vstd::prelude::*;

use crate::model::{
    decodable, decode_cell, decoded, encode_cell, encoded, kinds_of, row_encodable,
    rows_encodable, rows_of, shape_ok, Batch, Cell, ColumnType, DecodeError, EncodeError, FieldKind, Record,
    RecordType, Schema, Value,
};
use crate::negative::N;

verus! {

/// The cell that stores `v` in a column of type `ty`, if there is one.
pub fn encode_value(ty: &ColumnType, v: &Value) -> (r: Option<Cell>)
    ensures
        r == encode_cell(ty@, *v),
{
    match (ty, v) {
        (ColumnType::Int64, Value::Int(x)) => Some(Cell::Int(*x)),
        (ColumnType::Int64, Value::Negative(n)) => Some(Cell::Int(n.get())),
        (ColumnType::NullOnly, Value::Enum(None)) => Some(Cell::Null),
        (ColumnType::Enum { .. }, Value::Enum(None)) => Some(Cell::Null),
        (ColumnType::Enum { known, .. }, Value::Enum(Some(i))) => {
            if *i < known.len() && known[*i] {
                Some(Cell::Tag(*i))
            } else {
                None
            }
        },
        _ => None,
    }
}

/// Reads `cell`, stored in a column of type `ty`, back as a value of a field of kind `k`.
/// A negative-only field first reads the stored integer, then validates it.
pub fn decode_value(k: FieldKind, ty: &ColumnType, cell: Cell) -> (r: Result<Value, DecodeError>)
    ensures
        r == decode_cell(k, ty@, cell),
{
    match (ty, cell) {
        (ColumnType::Int64, Cell::Int(x)) => match k {
            FieldKind::Int => Ok(Value::Int(x)),
            FieldKind::Negative => match N::new(x) {
                Ok(n) => Ok(Value::Negative(n)),
                Err(e) => Err(e),
            },
            FieldKind::OptionalEnum { .. } => Err(DecodeError::Mismatch),
        },
        (ColumnType::NullOnly, Cell::Null) | (ColumnType::Enum { .. }, Cell::Null) => match k {
            FieldKind::OptionalEnum { .. } => Ok(Value::Enum(None)),
            _ => Err(DecodeError::Mismatch),
        },
        (ColumnType::Enum { .. }, Cell::Tag(v)) => match k {
            FieldKind::OptionalEnum { variants } => {
                if v < variants {
                    Ok(Value::Enum(Some(v)))
                } else {
                    Err(DecodeError::Mismatch)
                }
            },
            _ => Err(DecodeError::Mismatch),
        },
        _ => Err(DecodeError::Mismatch),
    }
}

/// Stores records column by column under `schema`. A single value that its column
/// cannot hold fails the whole batch.
pub fn encode(schema: &Schema, records: &Vec<Record>) -> (r: Result<Batch, EncodeError>)
    ensures
        r is Ok <==> rows_encodable(schema@, rows_of(records@)),
        r matches Ok(b) ==> b@ == encoded(schema@, rows_of(records@)),
        r matches Err(EncodeError::FieldCount { row }) ==> row < records@.len()
            && records@[row as int].values@.len() != schema@.len(),
        r matches Err(EncodeError::Unrepresentable { row, column }) ==> row < records@.len()
            && column < schema@.len() && records@[row as int].values@.len() == schema@.len()
            && encode_cell(schema@[column as int].ty, records@[row as int].values@[column as int]) is None,
{
    let ghost rows = rows_of(records@);
    let n = schema.columns.len();
    let mut i: usize = 0;
    while i < records.len()
        invariant
            i <= records@.len(),
            n == schema@.len(),
            rows == rows_of(records@),
            forall|q: int| 0 <= q < i ==> (#[trigger] rows[q]).len() == n,
        decreases records@.len() - i,
    {
        if records[i].values.len() != n {
            proof {
                assert(rows[i as int] == records@[i as int].values@);
            }
            return Err(EncodeError::FieldCount { row: i });
        }
        i += 1;
    }
    let ghost target = encoded(schema@, rows);
    let mut columns: Vec<Vec<Cell>> = Vec::new();
    let mut j: usize = 0;
    while j < n
        invariant
            j <= n,
            n == schema@.len(),
            rows == rows_of(records@),
            target == encoded(schema@, rows),
            forall|q: int| 0 <= q < records@.len() ==> (#[trigger] rows[q]).len() == n,
            columns@.len() == j,
            forall|c: int| 0 <= c < j ==> (#[trigger] columns@[c])@ == target.columns[c],
            forall|q: int, c: int|
                0 <= q < records@.len() && 0 <= c < j ==> (#[trigger] encode_cell(schema@[c].ty, rows[q][c])) is Some,
        decreases n - j,
    {
        let mut column: Vec<Cell> = Vec::new();
        let mut i: usize = 0;
        while i < records.len()
            invariant
                i <= records@.len(),
                j < n,
                n == schema@.len(),
                rows == rows_of(records@),
                target == encoded(schema@, rows),
                forall|q: int| 0 <= q < records@.len() ==> (#[trigger] rows[q]).len() == n,
                column@ == target.columns[j as int].subrange(0, i as int),
                forall|q: int| 0 <= q < i ==> (#[trigger] encode_cell(schema@[j as int].ty, rows[q][j as int])) is Some,
            decreases records@.len() - i,
        {
            proof {
                assert(rows[i as int] == records@[i as int].values@);
            }
            match encode_value(&schema.columns[j].ty, &records[i].values[j]) {
                Some(cell) => {
                    column.push(cell);
                },
                None => {
                    return Err(EncodeError::Unrepresentable { row: i, column: j });
                },
            }
            proof {
                assert(column@ =~= target.columns[j as int].subrange(0, i + 1));
            }
            i += 1;
        }
        assert(column@ =~= target.columns[j as int]);
        columns.push(column);
        j += 1;
    }
    let b = Batch { num_rows: records.len(), columns };
    proof {
        assert(b@.columns =~= target.columns);
        assert forall|q: int| 0 <= q < rows.len() implies row_encodable(schema@, #[trigger] rows[q]) by {
            assert forall|c: int| 0 <= c < schema@.len() implies (#[trigger] encode_cell(schema@[c].ty, rows[q][c])) is Some by {
                assert(encode_cell(schema@[c].ty, rows[q][c]) is Some);
            }
        }
    }
    Ok(b)
}

/// Whether the batch lines up with the record type and the schema.
fn check_shape(t: &RecordType, schema: &Schema, batch: &Batch) -> (r: bool)
    ensures
        r == shape_ok(kinds_of(*t), schema@, batch@),
{
    if t.fields.len() != schema.columns.len() || batch.columns.len() != schema.columns.len() {
        return false;
    }
    let mut j: usize = 0;
    while j < batch.columns.len()
        invariant
            j <= batch.columns@.len(),
            forall|c: int| 0 <= c < j ==> (#[trigger] batch@.columns[c]).len() == batch@.num_rows,
        decreases batch.columns@.len() - j,
    {
        if batch.columns[j].len() != batch.num_rows {
            proof {
                assert(batch@.columns[j as int] == batch.columns@[j as int]@);
            }
            return false;
        }
        j += 1;
    }
    true
}

/// Reads a batch back into records of type `t`, row by row. A stored value that its
/// field cannot take, such as a non-negative integer for a negative-only field, fails
/// the whole batch with that error.
pub fn decode(t: &RecordType, schema: &Schema, batch: &Batch) -> (r: Result<Vec<Record>, DecodeError>)
    ensures
        r is Ok <==> decodable(kinds_of(*t), schema@, batch@),
        r matches Ok(out) ==> rows_of(out@) == decoded(kinds_of(*t), schema@, batch@),
        r matches Err(e) ==> (!shape_ok(kinds_of(*t), schema@, batch@) && e == DecodeError::Shape) || (
            shape_ok(kinds_of(*t), schema@, batch@) && exists|i: int, j: int|
                0 <= i < batch@.num_rows && 0 <= j < schema@.len() && decode_cell(
                    kinds_of(*t)[j],
                    schema@[j].ty,
                    batch@.columns[j][i],
                ) == Err::<Value, DecodeError>(e)),
{
    if !check_shape(t, schema, batch) {
        return Err(DecodeError::Shape);
    }
    let ghost kinds = kinds_of(*t);
    let ghost target = decoded(kinds, schema@, batch@);
    let n = schema.columns.len();
    let mut out: Vec<Record> = Vec::new();
    let mut i: usize = 0;
    while i < batch.num_rows
        invariant
            i <= batch.num_rows,
            n == schema@.len(),
            kinds == kinds_of(*t),
            target == decoded(kinds, schema@, batch@),
            shape_ok(kinds, schema@, batch@),
            out@.len() == i,
            forall|q: int| 0 <= q < i ==> (#[trigger] out@[q]).values@ == target[q],
            forall|q: int, c: int|
                0 <= q < i && 0 <= c < n ==> (#[trigger] decode_cell(kinds[c], schema@[c].ty, batch@.columns[c][q])) is Ok,
        decreases batch.num_rows - i,
    {
        let mut values: Vec<Value> = Vec::new();
        let mut j: usize = 0;
        while j < n
            invariant
                i < batch.num_rows,
                j <= n,
                n == schema@.len(),
                kinds == kinds_of(*t),
                target == decoded(kinds, schema@, batch@),
                shape_ok(kinds, schema@, batch@),
                values@ == target[i as int].subrange(0, j as int),
                forall|c: int| 0 <= c < j ==> (#[trigger] decode_cell(kinds[c], schema@[c].ty, batch@.columns[c][i as int])) is Ok,
            decreases n - j,
        {
            proof {
                assert(batch@.columns[j as int] == batch.columns@[j as int]@);
                assert(kinds[j as int] == t.fields@[j as int].kind);
                assert(schema@[j as int] == schema.columns@[j as int]@);
            }
            let v = decode_value(t.fields[j].kind, &schema.columns[j].ty, batch.columns[j][i]);
            match v {
                Ok(v) => {
                    values.push(v);
                },
                Err(e) => {
                    proof {
                        assert(decode_cell(kinds[j as int], schema@[j as int].ty, batch@.columns[j as int][i as int])
                            == Err::<Value, DecodeError>(e));
                        assert(!decodable(kinds, schema@, batch@));
                    }
                    return Err(e);
                },
            }
            proof {
                assert(values@ =~= target[i as int].subrange(0, j + 1));
            }
            j += 1;
        }
        assert(values@ =~= target[i as int]);
        out.push(Record { values });
        i += 1;
    }
    proof {
        assert(rows_of(out@) =~= target);
    }
    Ok(out)
}

} // verus!
