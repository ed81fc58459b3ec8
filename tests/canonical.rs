use pg_extended::classify::{classify, engine_name, StatementKind};
use pg_extended::digits::int_to_str;
use pg_extended::render::{array_to_str, column_to_str, render_row, render_rows, Column};
use pg_extended::value::{
    bool_to_str, float4_to_str, float8_to_str, scalar_to_str, value_to_str, varchar_to_str,
    DateValue, DecimalValue, TimeValue, Value,
};
use pg_extended::wire::{cast_statement, needs_server_cast, ScalarType, WireType};

fn text(s: &str) -> Value {
    Value::Text(s.to_string())
}

#[test]
fn select_statements_are_queries() {
    assert_eq!(classify("SELECT 1"), StatementKind::Query);
    assert_eq!(classify("select 1"), StatementKind::Query);
    assert_eq!(classify("With x AS (SELECT 1) SELECT 1"), StatementKind::Query);
    assert_eq!(classify("values (1)"), StatementKind::Query);
    assert_eq!(classify("SHOW search_path"), StatementKind::Query);
    assert_eq!(classify("DESCRIBE t"), StatementKind::Query);
}

#[test]
fn other_statements_are_commands() {
    assert_eq!(classify("INSERT INTO t VALUES (1)"), StatementKind::Command);
    assert_eq!(classify("UPDATE t SET x=1"), StatementKind::Command);
    assert_eq!(classify(""), StatementKind::Command);
    assert_eq!(classify("sel"), StatementKind::Command);
    assert_eq!(classify(" select 1"), StatementKind::Command);
}

#[test]
fn engine_is_named() {
    assert_eq!(engine_name(), "postgres-extended");
}

#[test]
fn booleans_render_as_letters() {
    assert_eq!(bool_to_str(&true), "t");
    assert_eq!(bool_to_str(&false), "f");
    assert_eq!(value_to_str(&Value::Bool(true)), "t");
}

#[test]
fn empty_text_is_marked() {
    assert_eq!(varchar_to_str(""), "(empty)");
    assert_eq!(varchar_to_str("abc"), "abc");
    assert_eq!(value_to_str(&text("")), "(empty)");
    assert_eq!(value_to_str(&text("x y")), "x y");
}

#[test]
fn float_special_values() {
    assert_eq!(float4_to_str(f32::NAN.to_bits(), &f32::NAN.to_string()), "NaN");
    assert_eq!(float4_to_str((-f32::NAN).to_bits(), &(-f32::NAN).to_string()), "NaN");
    assert_eq!(float4_to_str(f32::INFINITY.to_bits(), &f32::INFINITY.to_string()), "Infinity");
    assert_eq!(
        float4_to_str(f32::NEG_INFINITY.to_bits(), &f32::NEG_INFINITY.to_string()),
        "-Infinity"
    );
    assert_eq!(float4_to_str(1.5f32.to_bits(), &1.5f32.to_string()), "1.5");
    assert_eq!(float8_to_str(f64::NAN.to_bits(), &f64::NAN.to_string()), "NaN");
    assert_eq!(float8_to_str(f64::INFINITY.to_bits(), &f64::INFINITY.to_string()), "Infinity");
    assert_eq!(
        float8_to_str(f64::NEG_INFINITY.to_bits(), &f64::NEG_INFINITY.to_string()),
        "-Infinity"
    );
    assert_eq!(float8_to_str((-0.25f64).to_bits(), &(-0.25f64).to_string()), "-0.25");
    assert_eq!(float8_to_str(f64::MAX.to_bits(), &f64::MAX.to_string()), f64::MAX.to_string());
}

#[test]
fn integers_render_in_decimal() {
    assert_eq!(int_to_str(0), "0");
    assert_eq!(int_to_str(-5), "-5");
    assert_eq!(int_to_str(1234567), "1234567");
    assert_eq!(int_to_str(i64::MAX), "9223372036854775807");
    assert_eq!(int_to_str(i64::MIN), "-9223372036854775808");
    assert_eq!(value_to_str(&Value::Int(-32768)), "-32768");
}

#[test]
fn decimals_render_exactly() {
    let pi = Value::Numeric(DecimalValue { mantissa: 3141, scale: 3 });
    assert_eq!(value_to_str(&pi), "3.141");
    let d = Value::Numeric(DecimalValue { mantissa: -100, scale: 2 });
    assert_eq!(value_to_str(&d), "-1.00");
    let big = Value::Numeric(DecimalValue { mantissa: 123456789012345678901234567, scale: 0 });
    assert_eq!(value_to_str(&big), "123456789012345678901234567");
    let small = Value::Numeric(DecimalValue { mantissa: -5, scale: 2 });
    assert_eq!(value_to_str(&small), "-0.05");
    let zero = Value::Numeric(DecimalValue { mantissa: 0, scale: 0 });
    assert_eq!(value_to_str(&zero), "0");
    let zeros = Value::Numeric(DecimalValue { mantissa: 0, scale: 3 });
    assert_eq!(value_to_str(&zeros), "0.000");
    assert!(!DecimalValue { mantissa: 1, scale: 29 }.is_wf());
}

#[test]
fn dates_and_times_render_iso() {
    let date = DateValue { year: 2015, month: 9, day: 18 };
    let time = TimeValue { secs: 3723, nanos: 500_000_000 };
    assert_eq!(value_to_str(&Value::Date(date)), "2015-09-18");
    assert_eq!(value_to_str(&Value::Time(time)), "01:02:03.500");
    let midnight = TimeValue { secs: 0, nanos: 0 };
    assert_eq!(value_to_str(&Value::Timestamp(date, midnight)), "2015-09-18 00:00:00");
}

#[test]
fn calendar_validity() {
    assert!(DateValue { year: 2024, month: 2, day: 29 }.is_wf());
    assert!(!DateValue { year: 2023, month: 2, day: 29 }.is_wf());
    assert!(!DateValue { year: 1900, month: 2, day: 29 }.is_wf());
    assert!(DateValue { year: 2000, month: 2, day: 29 }.is_wf());
    assert!(!DateValue { year: 2023, month: 4, day: 31 }.is_wf());
    assert!(!DateValue { year: 2023, month: 13, day: 1 }.is_wf());
    assert!(TimeValue { secs: 86399, nanos: 1_500_000_000 }.is_wf());
    assert!(!TimeValue { secs: 86398, nanos: 1_500_000_000 }.is_wf());
    assert!(!TimeValue { secs: 86400, nanos: 0 }.is_wf());
    assert!(!Value::ServerText(String::new()).is_wf());
}

#[test]
fn server_cast_text_is_kept() {
    let v = Value::ServerText("1 year 2 mons 3 days".to_string());
    assert_eq!(value_to_str(&v), "1 year 2 mons 3 days");
    assert!(needs_server_cast(ScalarType::Interval));
    assert!(needs_server_cast(ScalarType::TimestampTz));
    assert!(!needs_server_cast(ScalarType::Timestamp));
    assert_eq!(cast_statement(ScalarType::Interval), "select ($1::INTERVAL)::varchar");
    assert_eq!(cast_statement(ScalarType::TimestampTz), "select ($1::TIMESTAMPTZ)::varchar");
}

#[test]
fn null_renders_as_null() {
    assert_eq!(scalar_to_str(&None), "NULL");
    assert_eq!(array_to_str(&None), "NULL");
    assert_eq!(column_to_str(&Column::Scalar(None)), "NULL");
    assert_eq!(column_to_str(&Column::Array(None)), "NULL");
}

#[test]
fn arrays_render_in_braces() {
    let a = Some(vec![Some(Value::Int(1)), None, Some(Value::Int(3))]);
    assert_eq!(array_to_str(&a), "{1,NULL,3}");
    assert_eq!(array_to_str(&Some(Vec::new())), "{}");
    let t = Some(vec![Some(text("")), Some(text("a"))]);
    assert_eq!(array_to_str(&t), "{(empty),a}");
    let b = Some(vec![Some(Value::Bool(true)), Some(Value::Bool(false))]);
    assert_eq!(column_to_str(&Column::Array(b)), "{t,f}");
}

#[test]
fn rows_are_spaced_and_terminated() {
    let row = vec![Column::Scalar(Some(Value::Int(1))), Column::Scalar(Some(text("")))];
    assert_eq!(render_row(&row), "1 (empty)\n");
    assert_eq!(render_row(&Vec::new()), "\n");
    let rows = vec![
        vec![Column::Scalar(Some(Value::Int(1))), Column::Scalar(None)],
        vec![Column::Scalar(Some(Value::Int(2))), Column::Scalar(Some(text("b")))],
    ];
    assert_eq!(render_rows(&rows), "1 NULL\n2 b\n");
    assert_eq!(render_rows(&Vec::new()), "");
}

#[test]
fn type_oids_map_to_wire_types() {
    let int4 = WireType::from_oid(23).unwrap();
    assert_eq!(int4, WireType { scalar: ScalarType::Int4, is_array: false });
    let int4s = WireType::from_oid(1007).unwrap();
    assert_eq!(int4s, WireType { scalar: ScalarType::Int4, is_array: true });
    assert_eq!(WireType::from_oid(25), WireType::from_oid(1043));
    assert_eq!(WireType::from_oid(1186).unwrap().scalar, ScalarType::Interval);
    assert_eq!(WireType::from_oid(1185).unwrap().scalar, ScalarType::TimestampTz);
    assert_eq!(WireType::from_oid(17), None);
}

#[test]
fn dates_and_times_edge_forms() {
    let early = DateValue { year: -5, month: 1, day: 2 };
    assert_eq!(value_to_str(&Value::Date(early)), "-0005-01-02");
    let late = DateValue { year: 12345, month: 6, day: 7 };
    assert_eq!(value_to_str(&Value::Date(late)), "+12345-06-07");
    let leap = TimeValue { secs: 86399, nanos: 1_500_000_000 };
    assert_eq!(value_to_str(&Value::Time(leap)), "23:59:60.500");
    let micros = TimeValue { secs: 59, nanos: 123_456_000 };
    assert_eq!(value_to_str(&Value::Time(micros)), "00:00:59.123456");
    let nanos = TimeValue { secs: 36000, nanos: 1 };
    assert_eq!(value_to_str(&Value::Time(nanos)), "10:00:00.000000001");
}

#[test]
fn calendar_edges_render() {
    let leap = DateValue { year: 2024, month: 2, day: 29 };
    assert_eq!(value_to_str(&Value::Date(leap)), "2024-02-29");
    let first = DateValue { year: pg_extended::value::DATE_MIN_YEAR, month: 1, day: 1 };
    assert!(first.is_wf());
    assert_eq!(value_to_str(&Value::Date(first)), "-262143-01-01");
    let last = DateValue { year: pg_extended::value::DATE_MAX_YEAR, month: 12, day: 31 };
    assert!(last.is_wf());
    assert_eq!(value_to_str(&Value::Date(last)), "+262142-12-31");
    assert!(!DateValue { year: pg_extended::value::DATE_MAX_YEAR + 1, month: 1, day: 1 }.is_wf());
}
