use geometry::{Error, Field, Record, Rect, Value};

fn record_of(entries: Vec<(&str, Value)>) -> Record {
    let mut record = Record::new();
    for (key, value) in entries {
        record.insert(key, value);
    }
    record
}

#[test]
fn record_with_four_integers_parses() {
    let record = record_of(vec![
        ("x0", Value::Int(1)),
        ("y0", Value::Int(-2)),
        ("x1", Value::Int(30)),
        ("y1", Value::Int(40)),
    ]);
    assert_eq!(Rect::try_from(&record), Ok(Rect { x0: 1, y0: -2, x1: 30, y1: 40 }));
}

#[test]
fn record_parses_whatever_the_order_of_its_entries() {
    let record = record_of(vec![
        ("y1", Value::Int(40)),
        ("title", Value::Text("button".to_string())),
        ("x1", Value::Int(30)),
        ("x0", Value::Int(1)),
        ("y0", Value::Int(2)),
    ]);
    assert_eq!(Rect::try_from(&record), Ok(Rect { x0: 1, y0: 2, x1: 30, y1: 40 }));
}

#[test]
fn record_parses_extreme_coordinates() {
    let record = record_of(vec![
        ("x0", Value::Int(-2_147_483_648)),
        ("y0", Value::Int(2_147_483_647)),
        ("x1", Value::Int(0)),
        ("y1", Value::Int(-1)),
    ]);
    assert_eq!(
        Rect::try_from(&record),
        Ok(Rect { x0: i32::MIN, y0: i32::MAX, x1: 0, y1: -1 })
    );
}

#[test]
fn record_missing_a_key_is_field_missing() {
    let record = record_of(vec![
        ("x0", Value::Int(1)),
        ("y0", Value::Int(2)),
        ("y1", Value::Int(40)),
    ]);
    assert_eq!(Rect::try_from(&record), Err(Error::FieldMissing(Field::X1)));
}

#[test]
fn empty_record_misses_the_first_field() {
    assert_eq!(Rect::try_from(&Record::new()), Err(Error::FieldMissing(Field::X0)));
}

#[test]
fn record_with_text_value_is_type_conversion() {
    let record = record_of(vec![
        ("x0", Value::Int(1)),
        ("y0", Value::Text("two".to_string())),
        ("x1", Value::Int(30)),
        ("y1", Value::Int(40)),
    ]);
    assert_eq!(Rect::try_from(&record), Err(Error::TypeConversion(Field::Y0)));
}

#[test]
fn record_with_digits_as_text_is_type_conversion() {
    let record = record_of(vec![
        ("x0", Value::Int(1)),
        ("y0", Value::Int(2)),
        ("x1", Value::Int(30)),
        ("y1", Value::Text("40".to_string())),
    ]);
    assert_eq!(Rect::try_from(&record), Err(Error::TypeConversion(Field::Y1)));
}

#[test]
fn record_with_integer_out_of_range_is_type_conversion() {
    let above = record_of(vec![
        ("x0", Value::Int(2_147_483_648)),
        ("y0", Value::Int(2)),
        ("x1", Value::Int(30)),
        ("y1", Value::Int(40)),
    ]);
    assert_eq!(Rect::try_from(&above), Err(Error::TypeConversion(Field::X0)));
    let below = record_of(vec![
        ("x0", Value::Int(1)),
        ("y0", Value::Int(2)),
        ("x1", Value::Int(-2_147_483_649)),
        ("y1", Value::Int(40)),
    ]);
    assert_eq!(Rect::try_from(&below), Err(Error::TypeConversion(Field::X1)));
}

#[test]
fn record_reports_the_first_field_in_error() {
    let record = record_of(vec![
        ("x0", Value::Int(1)),
        ("x1", Value::Text("wide".to_string())),
    ]);
    assert_eq!(Rect::try_from(&record), Err(Error::FieldMissing(Field::Y0)));
    let record = record_of(vec![
        ("x0", Value::Int(1)),
        ("y0", Value::Int(2)),
        ("x1", Value::Text("wide".to_string())),
    ]);
    assert_eq!(Rect::try_from(&record), Err(Error::TypeConversion(Field::X1)));
}

#[test]
fn record_insert_replaces_earlier_value() {
    let mut record = record_of(vec![
        ("x0", Value::Text("left".to_string())),
        ("y0", Value::Int(2)),
        ("x1", Value::Int(30)),
        ("y1", Value::Int(40)),
    ]);
    assert_eq!(Rect::try_from(&record), Err(Error::TypeConversion(Field::X0)));
    record.insert("x0", Value::Int(7));
    assert_eq!(record.get("x0"), Some(&Value::Int(7)));
    assert_eq!(Rect::try_from(&record), Ok(Rect { x0: 7, y0: 2, x1: 30, y1: 40 }));
}

#[test]
fn record_get_finds_what_was_inserted() {
    let record = record_of(vec![
        ("x0", Value::Int(1)),
        ("name", Value::Text("ok".to_string())),
    ]);
    assert_eq!(record.get("x0"), Some(&Value::Int(1)));
    assert_eq!(record.get("name"), Some(&Value::Text("ok".to_string())));
    assert_eq!(record.get("x"), None);
    assert_eq!(record.get("x00"), None);
    assert_eq!(Record::new().get("x0"), None);
}

#[test]
fn record_coordinate_reads_one_field() {
    let record = record_of(vec![
        ("x0", Value::Int(5)),
        ("y0", Value::Text("five".to_string())),
    ]);
    assert_eq!(record.coordinate(Field::X0), Ok(5));
    assert_eq!(record.coordinate(Field::Y0), Err(Error::TypeConversion(Field::Y0)));
    assert_eq!(record.coordinate(Field::X1), Err(Error::FieldMissing(Field::X1)));
}

#[test]
fn value_as_i32_accepts_integers_in_range_only() {
    assert_eq!(Value::Int(0).as_i32(), Some(0));
    assert_eq!(Value::Int(-17).as_i32(), Some(-17));
    assert_eq!(Value::Int(2_147_483_647).as_i32(), Some(i32::MAX));
    assert_eq!(Value::Int(-2_147_483_648).as_i32(), Some(i32::MIN));
    assert_eq!(Value::Int(2_147_483_648).as_i32(), None);
    assert_eq!(Value::Int(i64::MIN).as_i32(), None);
    assert_eq!(Value::Text("12".to_string()).as_i32(), None);
}

#[test]
fn field_names_are_the_record_keys() {
    assert_eq!(Field::X0.name(), "x0");
    assert_eq!(Field::Y0.name(), "y0");
    assert_eq!(Field::X1.name(), "x1");
    assert_eq!(Field::Y1.name(), "y1");
}
