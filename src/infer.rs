use vstd::prelude::*;

use crate::model::{
    kinds_of, row_fits, rows_fit, rows_of, supported, value_fits, Column, ColumnType,
    ColumnTypeView, ColumnView, FieldKind, InferOptions, InferenceError, Record, RecordType,
    Schema, Value,
};

verus! {

/// Some sample holds variant `v` in field `j`.
pub open spec fn sample_has_variant(samples: Seq<Seq<Value>>, j: int, v: int) -> bool {
    exists|i: int| 0 <= i < samples.len() && #[trigger] samples[i][j] == Value::Enum(Some(v as usize))
}

/// Which variants of field `j` the samples exhibit.
pub open spec fn seen_variants(samples: Seq<Seq<Value>>, j: int, variants: nat) -> Seq<bool> {
    Seq::new(variants, |v: int| sample_has_variant(samples, j, v))
}

/// The column type that sample-based inference gives field `j` of kind `k`: an enumeration
/// column holds only the variants seen, and one with none seen degrades to nulls only.
pub open spec fn sampled_column_type(
    k: FieldKind,
    samples: Seq<Seq<Value>>,
    j: int,
    opts: InferOptions,
) -> ColumnTypeView {
    match k {
        FieldKind::OptionalEnum { variants } => {
            let known = seen_variants(samples, j, variants as nat);
            if exists|v: int| 0 <= v < variants && #[trigger] known[v] {
                ColumnTypeView::Enum(known, opts.enums_as_strings)
            } else {
                ColumnTypeView::NullOnly
            }
        },
        _ => ColumnTypeView::Int64,
    }
}

/// The column type that type-based inference gives a field of kind `k`: an enumeration
/// column holds every declared variant.
pub open spec fn declared_column_type(k: FieldKind, opts: InferOptions) -> ColumnTypeView {
    match k {
        FieldKind::OptionalEnum { variants } => ColumnTypeView::Enum(
            Seq::new(variants as nat, |v: int| true),
            opts.enums_as_strings,
        ),
        _ => ColumnTypeView::Int64,
    }
}

/// The schema inferred from samples.
pub open spec fn sampled_schema(t: RecordType, samples: Seq<Seq<Value>>, opts: InferOptions) -> Seq<ColumnView> {
    Seq::new(
        t.fields@.len(),
        |j: int|
            ColumnView {
                name: t.fields@[j].name@,
                ty: sampled_column_type(t.fields@[j].kind, samples, j, opts),
            },
    )
}

/// The schema inferred from the declared record type.
pub open spec fn declared_schema(t: RecordType, opts: InferOptions) -> Seq<ColumnView> {
    Seq::new(
        t.fields@.len(),
        |j: int| ColumnView { name: t.fields@[j].name@, ty: declared_column_type(t.fields@[j].kind, opts) },
    )
}

/// Whether `v` is a legal value of a field of kind `k`.
pub fn value_fits_kind(k: FieldKind, v: &Value) -> (r: bool)
    ensures
        r == value_fits(k, *v),
{
    match (k, v) {
        (FieldKind::Int, Value::Int(_)) => true,
        (FieldKind::Negative, Value::Negative(n)) => n.get() < 0,
        (FieldKind::OptionalEnum { variants }, Value::Enum(e)) => match e {
            None => true,
            Some(i) => *i < variants,
        },
        _ => false,
    }
}

/// Whether `r` is a legal value of record type `t`.
pub fn record_fits(t: &RecordType, r: &Record) -> (b: bool)
    ensures
        b == row_fits(kinds_of(*t), r.values@),
{
    if r.values.len() != t.fields.len() {
        return false;
    }
    let mut j: usize = 0;
    while j < t.fields.len()
        invariant
            r.values@.len() == t.fields@.len(),
            j <= t.fields@.len(),
            forall|q: int| 0 <= q < j ==> value_fits(kinds_of(*t)[q], #[trigger] r.values@[q]),
        decreases t.fields@.len() - j,
    {
        if !value_fits_kind(t.fields[j].kind, &r.values[j]) {
            return false;
        }
        j += 1;
    }
    true
}

/// The first enumeration field that declares no variants, if any.
fn first_unsupported(t: &RecordType) -> (r: Option<usize>)
    ensures
        r is None <==> supported(kinds_of(*t)),
        r matches Some(j) ==> j < t.fields@.len() && t.fields@[j as int].kind == (FieldKind::OptionalEnum { variants: 0 }),
{
    let mut j: usize = 0;
    while j < t.fields.len()
        invariant
            j <= t.fields@.len(),
            forall|q: int|
                0 <= q < j ==> !(#[trigger] kinds_of(*t)[q] matches FieldKind::OptionalEnum { variants } && variants == 0),
        decreases t.fields@.len() - j,
    {
        if let FieldKind::OptionalEnum { variants } = t.fields[j].kind {
            if variants == 0 {
                assert(kinds_of(*t)[j as int] == t.fields@[j as int].kind);
                return Some(j);
            }
        }
        j += 1;
    }
    None
}

/// Whether some sample holds variant `v` in field `j`.
fn any_sample_has(samples: &Vec<Record>, j: usize, v: usize) -> (r: bool)
    requires
        forall|i: int| 0 <= i < samples@.len() ==> j < (#[trigger] samples@[i]).values@.len(),
    ensures
        r == sample_has_variant(rows_of(samples@), j as int, v as int),
{
    let mut i: usize = 0;
    while i < samples.len()
        invariant
            i <= samples@.len(),
            forall|i: int| 0 <= i < samples@.len() ==> j < (#[trigger] samples@[i]).values@.len(),
            forall|q: int| 0 <= q < i ==> rows_of(samples@)[q][j as int] != Value::Enum(Some(v)),
        decreases samples@.len() - i,
    {
        if let Value::Enum(Some(w)) = samples[i].values[j] {
            if w == v {
                assert(rows_of(samples@)[i as int][j as int] == Value::Enum(Some(v)));
                return true;
            }
        }
        i += 1;
    }
    false
}

/// The enumeration column that samples give field `j`.
fn sampled_enum_column(samples: &Vec<Record>, j: usize, variants: usize, opts: InferOptions) -> (r: ColumnType)
    requires
        forall|i: int| 0 <= i < samples@.len() ==> j < (#[trigger] samples@[i]).values@.len(),
    ensures
        r@ == sampled_column_type(FieldKind::OptionalEnum { variants }, rows_of(samples@), j as int, opts),
{
    let ghost known_spec = seen_variants(rows_of(samples@), j as int, variants as nat);
    let mut known: Vec<bool> = Vec::new();
    let mut any: bool = false;
    let mut v: usize = 0;
    while v < variants
        invariant
            v <= variants,
            known@ == known_spec.subrange(0, v as int),
            any <==> exists|w: int| 0 <= w < v && #[trigger] known_spec[w],
            forall|i: int| 0 <= i < samples@.len() ==> j < (#[trigger] samples@[i]).values@.len(),
            known_spec == seen_variants(rows_of(samples@), j as int, variants as nat),
        decreases variants - v,
    {
        let seen = any_sample_has(samples, j, v);
        known.push(seen);
        if seen {
            any = true;
        }
        proof {
            assert(known_spec[v as int] == seen);
            assert(known@ =~= known_spec.subrange(0, v + 1));
        }
        v += 1;
    }
    assert(known@ =~= known_spec);
    if any {
        ColumnType::Enum { known, as_strings: opts.enums_as_strings }
    } else {
        ColumnType::NullOnly
    }
}

/// Derives a schema from sample records (sample-based inference).
///
/// Only what the samples exhibit is kept: an enumeration column can store just the
/// variants that occur in some sample, and one whose samples are all absent can store
/// nothing but nulls. Records holding other values are then refused when stored.
pub fn infer_from_samples(t: &RecordType, samples: &Vec<Record>, opts: InferOptions) -> (r: Result<Schema, InferenceError>)
    ensures
        r is Ok <==> samples@.len() > 0 && supported(kinds_of(*t)) && rows_fit(kinds_of(*t), rows_of(samples@)),
        r matches Ok(s) ==> s@ == sampled_schema(*t, rows_of(samples@), opts),
        r == Err::<Schema, InferenceError>(InferenceError::NoSamples) <==> samples@.len() == 0,
        r matches Err(InferenceError::Unsupported { field }) ==> field < t.fields@.len()
            && t.fields@[field as int].kind == (FieldKind::OptionalEnum { variants: 0 }),
        r matches Err(InferenceError::SampleMismatch { row }) ==> row < samples@.len()
            && !row_fits(kinds_of(*t), samples@[row as int].values@),
{
    if samples.len() == 0 {
        return Err(InferenceError::NoSamples);
    }
    if let Some(field) = first_unsupported(t) {
        return Err(InferenceError::Unsupported { field });
    }
    let mut i: usize = 0;
    while i < samples.len()
        invariant
            i <= samples@.len(),
            forall|q: int| 0 <= q < i ==> row_fits(kinds_of(*t), #[trigger] rows_of(samples@)[q]),
        decreases samples@.len() - i,
    {
        if !record_fits(t, &samples[i]) {
            assert(rows_of(samples@)[i as int] == samples@[i as int].values@);
            return Err(InferenceError::SampleMismatch { row: i });
        }
        i += 1;
    }
    let ghost rows = rows_of(samples@);
    let mut columns: Vec<Column> = Vec::new();
    let mut j: usize = 0;
    while j < t.fields.len()
        invariant
            j <= t.fields@.len(),
            rows == rows_of(samples@),
            rows_fit(kinds_of(*t), rows),
            columns@.len() == j,
            forall|q: int| 0 <= q < j ==> (#[trigger] columns@[q])@ == sampled_schema(*t, rows, opts)[q],
        decreases t.fields@.len() - j,
    {
        let ty = match t.fields[j].kind {
            FieldKind::OptionalEnum { variants } => {
                assert forall|i: int| 0 <= i < samples@.len() implies j < (#[trigger] samples@[i]).values@.len() by {
                    assert(row_fits(kinds_of(*t), rows[i]));
                }
                sampled_enum_column(samples, j, variants, opts)
            },
            _ => ColumnType::Int64,
        };
        columns.push(Column { name: t.fields[j].name.clone(), ty });
        j += 1;
    }
    let s = Schema { columns };
    assert(s@ =~= sampled_schema(*t, rows, opts));
    Ok(s)
}

/// Derives a schema from the declared record type alone (type-based inference): every
/// declared variant of every enumeration field can be stored.
pub fn infer_from_type(t: &RecordType, opts: InferOptions) -> (r: Result<Schema, InferenceError>)
    ensures
        r is Ok <==> supported(kinds_of(*t)),
        r matches Ok(s) ==> s@ == declared_schema(*t, opts),
        r matches Err(e) ==> e matches InferenceError::Unsupported { field } && field < t.fields@.len()
            && t.fields@[field as int].kind == (FieldKind::OptionalEnum { variants: 0 }),
{
    if let Some(field) = first_unsupported(t) {
        return Err(InferenceError::Unsupported { field });
    }
    let mut columns: Vec<Column> = Vec::new();
    let mut j: usize = 0;
    while j < t.fields.len()
        invariant
            j <= t.fields@.len(),
            columns@.len() == j,
            forall|q: int| 0 <= q < j ==> (#[trigger] columns@[q])@ == declared_schema(*t, opts)[q],
        decreases t.fields@.len() - j,
    {
        let ty = match t.fields[j].kind {
            FieldKind::OptionalEnum { variants } => {
                let mut known: Vec<bool> = Vec::new();
                let mut v: usize = 0;
                while v < variants
                    invariant
                        v <= variants,
                        known@ == Seq::new(v as nat, |w: int| true),
                    decreases variants - v,
                {
                    known.push(true);
                    v += 1;
                    assert(known@ =~= Seq::new(v as nat, |w: int| true));
                }
                ColumnType::Enum { known, as_strings: opts.enums_as_strings }
            },
            _ => ColumnType::Int64,
        };
        columns.push(Column { name: t.fields[j].name.clone(), ty });
        j += 1;
    }
    let s = Schema { columns };
    assert(s@ =~= declared_schema(*t, opts));
    Ok(s)
}

} // verus!
