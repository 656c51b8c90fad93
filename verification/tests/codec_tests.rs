use rowstream::codec::{bind_all, from_column, sql_to_json, to_parameter, RawRow, SqlValue, ToSqlIter};
use rowstream::error::DataError;
use rowstream::value::{find_member, Number, Value};

fn text(s: &str) -> Value {
    Value::String(s.to_string())
}

fn posint(u: u64) -> Value {
    Value::Number(Number::PosInt(u))
}

fn names(list: &[&str]) -> Vec<String> {
    list.iter().map(|s| s.to_string()).collect()
}

#[test]
fn to_parameter_binds_null_and_text_as_they_are() {
    assert_eq!(to_parameter(&Value::Null), Ok(SqlValue::Null));
    assert_eq!(to_parameter(&text("Ann")), Ok(SqlValue::Text("Ann".to_string())));
    assert_eq!(to_parameter(&text("")), Ok(SqlValue::Text(String::new())));
}

#[test]
fn to_parameter_binds_truth_values_as_one_and_zero() {
    assert_eq!(to_parameter(&Value::Bool(true)), Ok(SqlValue::Integer(1)));
    assert_eq!(to_parameter(&Value::Bool(false)), Ok(SqlValue::Integer(0)));
}

#[test]
fn to_parameter_binds_integers_as_signed() {
    assert_eq!(to_parameter(&posint(0)), Ok(SqlValue::Integer(0)));
    assert_eq!(to_parameter(&posint(5)), Ok(SqlValue::Integer(5)));
    assert_eq!(to_parameter(&posint(i64::MAX as u64)), Ok(SqlValue::Integer(i64::MAX)));
    assert_eq!(to_parameter(&Value::Number(Number::NegInt(-7))), Ok(SqlValue::Integer(-7)));
    assert_eq!(
        to_parameter(&Value::Number(Number::NegInt(i64::MIN))),
        Ok(SqlValue::Integer(i64::MIN))
    );
}

#[test]
fn to_parameter_keeps_the_bits_of_large_unsigned_integers() {
    assert_eq!(to_parameter(&posint(1u64 << 63)), Ok(SqlValue::Integer(i64::MIN)));
    assert_eq!(to_parameter(&posint((1u64 << 63) + 1)), Ok(SqlValue::Integer(i64::MIN + 1)));
    assert_eq!(to_parameter(&posint(u64::MAX)), Ok(SqlValue::Integer(-1)));
    assert_eq!(to_parameter(&posint(u64::MAX)), Ok(SqlValue::Integer(u64::MAX as i64)));
}

#[test]
fn to_parameter_binds_doubles_as_doubles() {
    let bits = 1.5f64.to_bits();
    assert_eq!(to_parameter(&Value::Number(Number::Float(bits))), Ok(SqlValue::Real(bits)));
    // A double with an integral value stays a double.
    let bits = 2.0f64.to_bits();
    assert_eq!(to_parameter(&Value::Number(Number::Float(bits))), Ok(SqlValue::Real(bits)));
}

#[test]
fn to_parameter_rejects_arrays_and_objects() {
    assert_eq!(to_parameter(&Value::Array(vec![])), Err(DataError::UnsupportedValue));
    assert_eq!(to_parameter(&Value::Array(vec![posint(1)])), Err(DataError::UnsupportedValue));
    assert_eq!(to_parameter(&Value::Object(vec![])), Err(DataError::UnsupportedValue));
    assert_eq!(
        to_parameter(&Value::Object(vec![("a".to_string(), Value::Null)])),
        Err(DataError::UnsupportedValue)
    );
}

#[test]
fn from_column_reports_null_integer_and_text() {
    assert_eq!(from_column(SqlValue::Null), Value::Null);
    assert_eq!(from_column(SqlValue::Integer(0)), posint(0));
    assert_eq!(from_column(SqlValue::Integer(42)), posint(42));
    assert_eq!(from_column(SqlValue::Integer(i64::MAX)), posint(i64::MAX as u64));
    assert_eq!(from_column(SqlValue::Integer(-1)), Value::Number(Number::NegInt(-1)));
    assert_eq!(from_column(SqlValue::Integer(i64::MIN)), Value::Number(Number::NegInt(i64::MIN)));
    assert_eq!(from_column(SqlValue::Text("Ann".to_string())), text("Ann"));
}

#[test]
fn from_column_reports_finite_doubles_as_numbers() {
    for f in [0.0f64, -0.0, 1.5, -2.25, f64::MAX, f64::MIN, f64::MIN_POSITIVE, 5e-324] {
        let bits = f.to_bits();
        assert_eq!(from_column(SqlValue::Real(bits)), Value::Number(Number::Float(bits)));
    }
}

#[test]
fn from_column_reports_other_doubles_as_null() {
    for f in [f64::INFINITY, f64::NEG_INFINITY, f64::NAN, -f64::NAN] {
        assert_eq!(from_column(SqlValue::Real(f.to_bits())), Value::Null);
    }
}

#[test]
fn from_column_hides_the_bytes_of_a_blob() {
    assert_eq!(from_column(SqlValue::Blob(vec![1, 2, 3])), text("<blob>"));
    assert_eq!(from_column(SqlValue::Blob(vec![])), text("<blob>"));
}

#[test]
fn number_constructors_follow_sign_and_finiteness() {
    assert_eq!(Number::from_i64(0), Number::PosInt(0));
    assert_eq!(Number::from_i64(9), Number::PosInt(9));
    assert_eq!(Number::from_i64(-9), Number::NegInt(-9));
    assert_eq!(Number::from_real_bits(1.0f64.to_bits()), Some(Number::Float(1.0f64.to_bits())));
    assert_eq!(Number::from_real_bits(f64::NAN.to_bits()), None);
    assert_eq!(Number::from_real_bits(f64::INFINITY.to_bits()), None);
    assert_eq!(Number::from_real_bits(0x7ff0_0000_0000_0000), None);
    assert_eq!(
        Number::from_real_bits(0x7fef_ffff_ffff_ffff),
        Some(Number::Float(0x7fef_ffff_ffff_ffff))
    );
}

#[test]
fn scalars_survive_bind_and_read_back() {
    let same = [
        Value::Null,
        text("Ann"),
        text(""),
        posint(0),
        posint(17),
        posint(i64::MAX as u64),
        Value::Number(Number::NegInt(-17)),
        Value::Number(Number::NegInt(i64::MIN)),
        Value::Number(Number::Float(0.1f64.to_bits())),
        Value::Number(Number::Float((-0.0f64).to_bits())),
        Value::Number(Number::Float(3.0f64.to_bits())),
    ];
    for v in same {
        let back = from_column(to_parameter(&v).unwrap());
        assert_eq!(back, v);
    }
    // A truth value comes back as the integer it was stored as.
    assert_eq!(from_column(to_parameter(&Value::Bool(true)).unwrap()), posint(1));
    assert_eq!(from_column(to_parameter(&Value::Bool(false)).unwrap()), posint(0));
}

#[test]
fn unsigned_integers_above_the_signed_range_do_not_survive() {
    let back = from_column(to_parameter(&posint(1u64 << 63)).unwrap());
    assert_eq!(back, Value::Number(Number::NegInt(i64::MIN)));
}

#[test]
fn sql_to_json_reports_each_column_in_order() {
    let row = RawRow {
        cells: vec![
            ("id".to_string(), SqlValue::Integer(1)),
            ("name".to_string(), SqlValue::Text("Ann".to_string())),
            ("score".to_string(), SqlValue::Real(2.5f64.to_bits())),
            ("photo".to_string(), SqlValue::Blob(vec![0xff])),
            ("note".to_string(), SqlValue::Null),
        ],
    };
    assert_eq!(
        sql_to_json(row),
        Value::Object(vec![
            ("id".to_string(), posint(1)),
            ("name".to_string(), text("Ann")),
            ("score".to_string(), Value::Number(Number::Float(2.5f64.to_bits()))),
            ("photo".to_string(), text("<blob>")),
            ("note".to_string(), Value::Null),
        ])
    );
}

#[test]
fn sql_to_json_of_a_row_without_columns_is_an_empty_object() {
    assert_eq!(sql_to_json(RawRow { cells: vec![] }), Value::Object(vec![]));
}

#[test]
fn find_member_gives_the_first_member_of_that_name() {
    let members = vec![
        ("a".to_string(), posint(1)),
        ("b".to_string(), posint(2)),
        ("a".to_string(), posint(3)),
    ];
    assert_eq!(find_member(&members, "a"), Some(0));
    assert_eq!(find_member(&members, "b"), Some(1));
    assert_eq!(find_member(&members, "c"), None);
    assert_eq!(find_member(&members, ""), None);
    assert_eq!(find_member(&vec![], "a"), None);
}

#[test]
fn value_tells_objects_from_the_rest() {
    let object = Value::Object(vec![("a".to_string(), Value::Null)]);
    assert!(object.is_object());
    assert_eq!(object.as_object(), Some(&vec![("a".to_string(), Value::Null)]));
    for v in [Value::Null, Value::Bool(true), posint(1), text("x"), Value::Array(vec![])] {
        assert!(!v.is_object());
        assert_eq!(v.as_object(), None);
    }
}

#[test]
fn to_sql_iter_hands_out_one_parameter_per_column() {
    let columns = names(&["name", "age", "vip"]);
    let values = vec![
        ("age".to_string(), posint(30)),
        ("vip".to_string(), Value::Bool(true)),
        ("name".to_string(), text("Ann")),
        ("unused".to_string(), Value::Null),
    ];
    let mut it = ToSqlIter::new(&columns, &values);
    assert_eq!(it.next(), Some(Ok(SqlValue::Text("Ann".to_string()))));
    assert_eq!(it.next(), Some(Ok(SqlValue::Integer(30))));
    assert_eq!(it.next(), Some(Ok(SqlValue::Integer(1))));
    assert_eq!(it.next(), None);
    assert_eq!(it.next(), None);
}

#[test]
fn to_sql_iter_reports_failures_per_column_and_goes_on() {
    let columns = names(&["tags", "gone", "name"]);
    let values =
        vec![("tags".to_string(), Value::Array(vec![])), ("name".to_string(), text("Ann"))];
    let mut it = ToSqlIter::new(&columns, &values);
    assert_eq!(it.next(), Some(Err(DataError::UnsupportedValue)));
    assert_eq!(it.next(), Some(Err(DataError::MissingValue("gone".to_string()))));
    assert_eq!(it.next(), Some(Ok(SqlValue::Text("Ann".to_string()))));
    assert_eq!(it.next(), None);
}

#[test]
fn bind_all_follows_the_column_order() {
    let columns = names(&["b", "a"]);
    let values = vec![("a".to_string(), posint(1)), ("b".to_string(), posint(2))];
    assert_eq!(bind_all(&columns, &values), Ok(vec![SqlValue::Integer(2), SqlValue::Integer(1)]));
    assert_eq!(bind_all(&vec![], &values), Ok(vec![]));
}

#[test]
fn bind_all_fails_with_the_first_column_that_cannot_be_bound() {
    let columns = names(&["a", "nested", "gone"]);
    let values = vec![("a".to_string(), posint(1)), ("nested".to_string(), Value::Object(vec![]))];
    assert_eq!(bind_all(&columns, &values), Err(DataError::UnsupportedValue));
    let columns = names(&["a", "gone", "nested"]);
    assert_eq!(bind_all(&columns, &values), Err(DataError::MissingValue("gone".to_string())));
}

#[test]
fn a_copy_of_a_value_equals_it() {
    let v = Value::Object(vec![
        ("a".to_string(), Value::Array(vec![posint(1), text("x"), Value::Null])),
        ("b".to_string(), Value::Object(vec![("c".to_string(), Value::Bool(true))])),
        ("d".to_string(), Value::Number(Number::Float(1.5f64.to_bits()))),
    ]);
    assert_eq!(v.clone(), v);
    assert_eq!(Value::Null.clone(), Value::Null);
}

#[test]
fn sql_to_json_keeps_columns_of_the_same_name_apart() {
    let row = RawRow {
        cells: vec![
            ("id".to_string(), SqlValue::Integer(1)),
            ("id".to_string(), SqlValue::Integer(2)),
        ],
    };
    let object = sql_to_json(row);
    assert_eq!(
        object,
        Value::Object(vec![("id".to_string(), posint(1)), ("id".to_string(), posint(2))])
    );
    // Looking the name up gives the first of them.
    assert_eq!(find_member(object.as_object().unwrap(), "id"), Some(0));
}
