use columnar_round_trip::convert::{decode, decode_value, encode, encode_value};
use columnar_round_trip::infer::{infer_from_samples, infer_from_type, record_fits};
use columnar_round_trip::model::{
    Batch, Cell, ColumnType, DecodeError, EncodeError, Field, FieldKind, InferOptions, InferenceError, Record,
    RecordType, Value,
};
use columnar_round_trip::negative::N;

fn enum_type(variants: usize) -> RecordType {
    RecordType {
        fields: vec![Field { name: "e".to_string(), kind: FieldKind::OptionalEnum { variants } }],
    }
}

fn negative_type() -> RecordType {
    RecordType { fields: vec![Field { name: "n".to_string(), kind: FieldKind::Negative }] }
}

fn rec(values: Vec<Value>) -> Record {
    Record { values }
}

fn neg(v: i64) -> Value {
    Value::Negative(N::new(v).unwrap())
}

const STRINGS: InferOptions = InferOptions { enums_as_strings: true };
const TAGS: InferOptions = InferOptions { enums_as_strings: false };

#[test]
fn present_sample_round_trips() {
    let t = enum_type(2);
    let samples = vec![rec(vec![Value::Enum(Some(0))])];
    let records = vec![rec(vec![Value::Enum(Some(0))])];
    let schema = infer_from_samples(&t, &samples, STRINGS).unwrap();
    let batch = encode(&schema, &records).unwrap();
    assert_eq!(batch.columns, vec![vec![Cell::Tag(0)]]);
    let back = decode(&t, &schema, &batch).unwrap();
    assert_eq!(back, records);
}

#[test]
fn absent_samples_refuse_present_value() {
    let t = enum_type(2);
    let samples = vec![rec(vec![Value::Enum(None)])];
    let records = vec![rec(vec![Value::Enum(Some(0))])];
    let schema = infer_from_samples(&t, &samples, STRINGS).unwrap();
    assert!(matches!(schema.columns[0].ty, ColumnType::NullOnly));
    assert_eq!(
        encode(&schema, &records),
        Err(EncodeError::Unrepresentable { row: 0, column: 0 })
    );
}

#[test]
fn negative_field_round_trips() {
    let t = negative_type();
    let records = vec![rec(vec![neg(-100)])];
    let schema = infer_from_type(&t, STRINGS).unwrap();
    let batch = encode(&schema, &records).unwrap();
    assert_eq!(batch, Batch { num_rows: 1, columns: vec![vec![Cell::Int(-100)]] });
    assert_eq!(decode(&t, &schema, &batch).unwrap(), records);
}

#[test]
fn stored_non_negative_is_refused() {
    let t = negative_type();
    let schema = infer_from_type(&t, STRINGS).unwrap();
    let batch = Batch { num_rows: 1, columns: vec![vec![Cell::Int(100)]] };
    assert_eq!(decode(&t, &schema, &batch), Err(DecodeError::NotNegative { value: 100 }));
}

#[test]
fn declared_schema_round_trips_absent_and_present() {
    let t = RecordType {
        fields: vec![
            Field { name: "a".to_string(), kind: FieldKind::Int },
            Field { name: "e".to_string(), kind: FieldKind::OptionalEnum { variants: 3 } },
            Field { name: "n".to_string(), kind: FieldKind::Negative },
        ],
    };
    let records = vec![
        rec(vec![Value::Int(7), Value::Enum(None), neg(-1)]),
        rec(vec![Value::Int(-3), Value::Enum(Some(2)), neg(i64::MIN)]),
        rec(vec![Value::Int(0), Value::Enum(Some(1)), neg(-42)]),
    ];
    let schema = infer_from_type(&t, TAGS).unwrap();
    let batch = encode(&schema, &records).unwrap();
    assert_eq!(batch.num_rows, 3);
    assert_eq!(batch.columns[0], vec![Cell::Int(7), Cell::Int(-3), Cell::Int(0)]);
    assert_eq!(batch.columns[1], vec![Cell::Null, Cell::Tag(2), Cell::Tag(1)]);
    assert_eq!(batch.columns[2], vec![Cell::Int(-1), Cell::Int(i64::MIN), Cell::Int(-42)]);
    assert_eq!(decode(&t, &schema, &batch).unwrap(), records);
}

#[test]
fn declared_schema_round_trips_all_absent() {
    let t = enum_type(2);
    let records = vec![rec(vec![Value::Enum(None)]), rec(vec![Value::Enum(None)])];
    let schema = infer_from_type(&t, STRINGS).unwrap();
    let batch = encode(&schema, &records).unwrap();
    assert_eq!(decode(&t, &schema, &batch).unwrap(), records);
}

#[test]
fn declared_schema_keeps_names_and_options() {
    let t = enum_type(2);
    let schema = infer_from_type(&t, STRINGS).unwrap();
    assert_eq!(schema.columns.len(), 1);
    assert_eq!(schema.columns[0].name, "e");
    match &schema.columns[0].ty {
        ColumnType::Enum { known, as_strings } => {
            assert_eq!(known, &vec![true, true]);
            assert!(*as_strings);
        }
        _ => panic!("expected an enumeration column"),
    }
}

#[test]
fn exhaustive_samples_round_trip() {
    let t = enum_type(2);
    let samples = vec![rec(vec![Value::Enum(Some(1))]), rec(vec![Value::Enum(Some(0))])];
    let records = vec![
        rec(vec![Value::Enum(Some(1))]),
        rec(vec![Value::Enum(None)]),
        rec(vec![Value::Enum(Some(0))]),
    ];
    let schema = infer_from_samples(&t, &samples, TAGS).unwrap();
    let batch = encode(&schema, &records).unwrap();
    assert_eq!(decode(&t, &schema, &batch).unwrap(), records);
}

#[test]
fn unseen_variant_is_refused() {
    let t = enum_type(3);
    let samples = vec![rec(vec![Value::Enum(Some(1))])];
    let schema = infer_from_samples(&t, &samples, TAGS).unwrap();
    match &schema.columns[0].ty {
        ColumnType::Enum { known, as_strings } => {
            assert_eq!(known, &vec![false, true, false]);
            assert!(!*as_strings);
        }
        _ => panic!("expected an enumeration column"),
    }
    let records = vec![rec(vec![Value::Enum(Some(1))]), rec(vec![Value::Enum(Some(2))])];
    assert_eq!(
        encode(&schema, &records),
        Err(EncodeError::Unrepresentable { row: 1, column: 0 })
    );
}

#[test]
fn inference_errors() {
    let t = enum_type(2);
    assert_eq!(infer_from_samples(&t, &vec![], TAGS).err(), Some(InferenceError::NoSamples));
    let empty_enum = RecordType {
        fields: vec![
            Field { name: "a".to_string(), kind: FieldKind::Int },
            Field { name: "e".to_string(), kind: FieldKind::OptionalEnum { variants: 0 } },
        ],
    };
    assert_eq!(infer_from_type(&empty_enum, TAGS).err(), Some(InferenceError::Unsupported { field: 1 }));
    let samples = vec![rec(vec![Value::Int(1), Value::Enum(None)])];
    assert_eq!(
        infer_from_samples(&empty_enum, &samples, TAGS).err(),
        Some(InferenceError::Unsupported { field: 1 })
    );
    let bad = vec![rec(vec![Value::Enum(None)]), rec(vec![Value::Enum(Some(5))])];
    assert_eq!(
        infer_from_samples(&t, &bad, TAGS).err(),
        Some(InferenceError::SampleMismatch { row: 1 })
    );
}

#[test]
fn encode_field_count_error() {
    let t = negative_type();
    let schema = infer_from_type(&t, TAGS).unwrap();
    let records = vec![rec(vec![neg(-1)]), rec(vec![neg(-2), Value::Int(3)])];
    assert_eq!(encode(&schema, &records), Err(EncodeError::FieldCount { row: 1 }));
}

#[test]
fn encode_of_no_records_is_empty() {
    let t = negative_type();
    let schema = infer_from_type(&t, TAGS).unwrap();
    let batch = encode(&schema, &vec![]).unwrap();
    assert_eq!(batch, Batch { num_rows: 0, columns: vec![vec![]] });
    assert_eq!(decode(&t, &schema, &batch).unwrap(), vec![]);
}

#[test]
fn decode_shape_and_mismatch_errors() {
    let t = negative_type();
    let schema = infer_from_type(&t, TAGS).unwrap();
    let short = Batch { num_rows: 2, columns: vec![vec![Cell::Int(-1)]] };
    assert_eq!(decode(&t, &schema, &short), Err(DecodeError::Shape));
    let missing = Batch { num_rows: 0, columns: vec![] };
    assert_eq!(decode(&t, &schema, &missing), Err(DecodeError::Shape));
    let null_int = Batch { num_rows: 1, columns: vec![vec![Cell::Null]] };
    assert_eq!(decode(&t, &schema, &null_int), Err(DecodeError::Mismatch));
    let e = enum_type(2);
    let enum_schema = infer_from_type(&e, TAGS).unwrap();
    let out_of_range = Batch { num_rows: 1, columns: vec![vec![Cell::Tag(2)]] };
    assert_eq!(decode(&e, &enum_schema, &out_of_range), Err(DecodeError::Mismatch));
}

#[test]
fn negative_validation() {
    assert_eq!(N::new(0), Err(DecodeError::NotNegative { value: 0 }));
    assert_eq!(N::new(i64::MAX), Err(DecodeError::NotNegative { value: i64::MAX }));
    assert_eq!(N::new(-1).unwrap().get(), -1);
    assert_eq!(N::new(i64::MIN).unwrap().get(), i64::MIN);
    assert_eq!(N::default().get(), -1);
}

#[test]
fn cell_conversions() {
    assert_eq!(encode_value(&ColumnType::Int64, &neg(-5)), Some(Cell::Int(-5)));
    assert_eq!(encode_value(&ColumnType::Int64, &Value::Enum(None)), None);
    assert_eq!(encode_value(&ColumnType::NullOnly, &Value::Enum(None)), Some(Cell::Null));
    assert_eq!(decode_value(FieldKind::Negative, &ColumnType::Int64, Cell::Int(-5)), Ok(neg(-5)));
    assert_eq!(
        decode_value(FieldKind::Negative, &ColumnType::Int64, Cell::Int(5)),
        Err(DecodeError::NotNegative { value: 5 })
    );
    assert_eq!(decode_value(FieldKind::Int, &ColumnType::Int64, Cell::Int(5)), Ok(Value::Int(5)));
}

#[test]
fn record_fit_checks() {
    let t = enum_type(2);
    assert!(record_fits(&t, &rec(vec![Value::Enum(Some(1))])));
    assert!(!record_fits(&t, &rec(vec![Value::Enum(Some(2))])));
    assert!(!record_fits(&t, &rec(vec![Value::Int(0)])));
    assert!(!record_fits(&t, &rec(vec![])));
}
