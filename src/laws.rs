use vstd::prelude::*;

use crate::infer::{
    declared_schema, sample_has_variant, sampled_column_type, sampled_schema, seen_variants,
};
use crate::model::{
    decodable, decode_cell, decoded, encode_cell, encoded, kinds_of, row_encodable, row_fits,
    rows_encodable, rows_fit, shape_ok, BatchView, Cell, ColumnTypeView, ColumnView, DecodeError, FieldKind,
    InferOptions, RecordType, Value, value_fits,
};
use crate::negative::N;

verus! {

/// A column of type `c` was made for a field of kind `k`: integers go to integer
/// columns, and an enumeration column speaks of exactly the declared variants.
pub open spec fn column_for(k: FieldKind, c: ColumnTypeView) -> bool {
    match k {
        FieldKind::OptionalEnum { variants } => match c {
            ColumnTypeView::NullOnly => true,
            ColumnTypeView::Enum(known, _) => known.len() == variants,
            ColumnTypeView::Int64 => false,
        },
        _ => c is Int64,
    }
}

/// Each column of `schema` was made for the field of the same position.
pub open spec fn schema_for(kinds: Seq<FieldKind>, schema: Seq<ColumnView>) -> bool {
    &&& schema.len() == kinds.len()
    &&& forall|j: int| 0 <= j < kinds.len() ==> column_for(kinds[j], #[trigger] schema[j].ty)
}

/// Every declared variant of every enumeration field occurs in some sample.
pub open spec fn samples_exhaustive(kinds: Seq<FieldKind>, samples: Seq<Seq<Value>>) -> bool {
    forall|j: int, v: int|
        #![trigger kinds[j], sample_has_variant(samples, j, v)]
        0 <= j < kinds.len() && 0 <= v && (kinds[j] matches FieldKind::OptionalEnum { variants } && v < variants)
            ==> sample_has_variant(samples, j, v)
}

/// A stored value reads back as itself: for a legal value `v` of kind `k`, and a column
/// made for `k` that can store `v`, reading the stored cell gives `v`.
pub proof fn lemma_cell_round_trip(k: FieldKind, c: ColumnTypeView, v: Value)
    requires
        column_for(k, c),
        value_fits(k, v),
        encode_cell(c, v) is Some,
    ensures
        decode_cell(k, c, encode_cell(c, v)->Some_0) == Ok::<Value, DecodeError>(v),
{
    if let Value::Negative(n) = v {
        N::lemma_from_own_value(n);
    }
}

/// Storing never corrupts data: whenever legal rows can be stored under a schema made
/// for their record type, the stored batch reads back, and gives exactly those rows.
pub proof fn lemma_stored_rows_read_back(kinds: Seq<FieldKind>, schema: Seq<ColumnView>, rows: Seq<Seq<Value>>)
    requires
        schema_for(kinds, schema),
        rows_fit(kinds, rows),
        rows_encodable(schema, rows),
    ensures
        decodable(kinds, schema, encoded(schema, rows)),
        decoded(kinds, schema, encoded(schema, rows)) == rows,
{
    let b = encoded(schema, rows);
    assert(shape_ok(kinds, schema, b));
    assert forall|i: int, j: int| 0 <= i < rows.len() && 0 <= j < schema.len() implies
        #[trigger] decode_cell(kinds[j], schema[j].ty, b.columns[j][i]) == Ok::<Value, DecodeError>(rows[i][j]) by {
        assert(row_fits(kinds, rows[i]));
        assert(row_encodable(schema, rows[i]));
        assert(value_fits(kinds[j], rows[i][j]));
        assert(column_for(kinds[j], schema[j].ty));
        assert(encode_cell(schema[j].ty, rows[i][j]) is Some);
        lemma_cell_round_trip(kinds[j], schema[j].ty, rows[i][j]);
    }
    let d = decoded(kinds, schema, b);
    assert forall|i: int| 0 <= i < rows.len() implies #[trigger] d[i] == rows[i] by {
        assert(row_fits(kinds, rows[i]));
        assert forall|j: int| 0 <= j < schema.len() implies d[i][j] == rows[i][j] by {
            assert(decode_cell(kinds[j], schema[j].ty, b.columns[j][i]) == Ok::<Value, DecodeError>(rows[i][j]));
        }
        assert(d[i] =~= rows[i]);
    }
    assert(d =~= rows);
}

/// Sample-based inference makes each column for the field of the same position.
pub proof fn lemma_sampled_schema_fits(t: RecordType, samples: Seq<Seq<Value>>, opts: InferOptions)
    ensures
        schema_for(kinds_of(t), sampled_schema(t, samples, opts)),
{
}

/// Type-based inference makes each column for the field of the same position.
pub proof fn lemma_declared_schema_fits(t: RecordType, opts: InferOptions)
    ensures
        schema_for(kinds_of(t), declared_schema(t, opts)),
{
}

/// With samples that exhibit every declared variant of every enumeration field, the
/// schema inferred from them stores any legal records, and reading the batch back gives
/// the records unchanged.
pub proof fn lemma_exhaustive_samples_round_trip(
    t: RecordType,
    samples: Seq<Seq<Value>>,
    rows: Seq<Seq<Value>>,
    opts: InferOptions,
)
    requires
        samples_exhaustive(kinds_of(t), samples),
        rows_fit(kinds_of(t), rows),
    ensures
        rows_encodable(sampled_schema(t, samples, opts), rows),
        decodable(kinds_of(t), sampled_schema(t, samples, opts), encoded(sampled_schema(t, samples, opts), rows)),
        decoded(kinds_of(t), sampled_schema(t, samples, opts), encoded(sampled_schema(t, samples, opts), rows)) == rows,
{
    let kinds = kinds_of(t);
    let s = sampled_schema(t, samples, opts);
    assert forall|i: int| 0 <= i < rows.len() implies row_encodable(s, #[trigger] rows[i]) by {
        assert(row_fits(kinds, rows[i]));
        assert forall|j: int| 0 <= j < s.len() implies (#[trigger] encode_cell(s[j].ty, rows[i][j])) is Some by {
            assert(value_fits(kinds[j], rows[i][j]));
            if let FieldKind::OptionalEnum { variants } = kinds[j] {
                if let Value::Enum(Some(v)) = rows[i][j] {
                    assert(sample_has_variant(samples, j, v as int));
                    assert(s[j].ty == sampled_column_type(kinds[j], samples, j, opts));
                    let known = seen_variants(samples, j, variants as nat);
                    assert(known[v as int]);
                }
            }
        }
    }
    lemma_sampled_schema_fits(t, samples, opts);
    lemma_stored_rows_read_back(kinds, s, rows);
}

/// Type-based inference stores any legal records, whatever values they hold (absent
/// enumeration values included), and reading the batch back gives them unchanged.
pub proof fn lemma_declared_round_trip(t: RecordType, rows: Seq<Seq<Value>>, opts: InferOptions)
    requires
        rows_fit(kinds_of(t), rows),
    ensures
        rows_encodable(declared_schema(t, opts), rows),
        decodable(kinds_of(t), declared_schema(t, opts), encoded(declared_schema(t, opts), rows)),
        decoded(kinds_of(t), declared_schema(t, opts), encoded(declared_schema(t, opts), rows)) == rows,
{
    let kinds = kinds_of(t);
    let s = declared_schema(t, opts);
    assert forall|i: int| 0 <= i < rows.len() implies row_encodable(s, #[trigger] rows[i]) by {
        assert(row_fits(kinds, rows[i]));
        assert forall|j: int| 0 <= j < s.len() implies (#[trigger] encode_cell(s[j].ty, rows[i][j])) is Some by {
            assert(value_fits(kinds[j], rows[i][j]));
        }
    }
    lemma_declared_schema_fits(t, opts);
    lemma_stored_rows_read_back(kinds, s, rows);
}

/// When every sample leaves enumeration field `j` absent, the inferred schema refuses
/// any record whose field `j` is present: storing it fails rather than losing the value.
pub proof fn lemma_absent_samples_refuse_present(
    t: RecordType,
    samples: Seq<Seq<Value>>,
    opts: InferOptions,
    row: Seq<Value>,
    j: int,
)
    requires
        0 <= j < kinds_of(t).len(),
        kinds_of(t)[j] is OptionalEnum,
        forall|i: int| 0 <= i < samples.len() ==> (#[trigger] samples[i])[j] == Value::Enum(None),
        row[j] matches Value::Enum(Some(_)),
    ensures
        !row_encodable(sampled_schema(t, samples, opts), row),
{
    let s = sampled_schema(t, samples, opts);
    if let FieldKind::OptionalEnum { variants } = kinds_of(t)[j] {
        let known = seen_variants(samples, j, variants as nat);
        assert forall|v: int| 0 <= v < variants implies !#[trigger] known[v] by {
            if sample_has_variant(samples, j, v) {
                let i = choose|i: int| 0 <= i < samples.len() && #[trigger] samples[i][j] == Value::Enum(Some(v as usize));
                assert(samples[i][j] == Value::Enum(None));
            }
        }
        assert(s[j].ty == ColumnTypeView::NullOnly);
        assert(encode_cell(s[j].ty, row[j]) is None);
    }
}

/// A stored non-negative integer for a negative-only field is refused with the error
/// naming that integer: a batch holding one does not read back.
pub proof fn lemma_non_negative_refused(
    kinds: Seq<FieldKind>,
    schema: Seq<ColumnView>,
    b: BatchView,
    i: int,
    j: int,
    x: i64,
)
    requires
        0 <= i < b.num_rows,
        0 <= j < schema.len(),
        kinds[j] == FieldKind::Negative,
        b.columns[j][i] == Cell::Int(x),
        x >= 0,
    ensures
        decode_cell(kinds[j], schema[j].ty, b.columns[j][i]) is Err,
        schema[j].ty is Int64 ==> decode_cell(kinds[j], schema[j].ty, b.columns[j][i])
            == Err::<Value, DecodeError>(DecodeError::NotNegative { value: x }),
        !decodable(kinds, schema, b),
{
}

} // verus!
