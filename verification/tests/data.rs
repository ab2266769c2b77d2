use obs_engine::data::{DataRef, Field};
use obs_engine::error::Error;
use obs_engine::native::Call;
use obs_engine::string::CText;

fn c(text: &str) -> CText {
    CText::new(text).unwrap()
}

fn json(text: &str) -> serde_json::Value {
    serde_json::from_str(text).unwrap()
}

fn data() -> DataRef {
    DataRef::from_raw(0x50).unwrap()
}

#[test]
fn data_handle_is_absent_for_null() {
    assert_eq!(DataRef::from_raw(0), None);
    assert_eq!(data().as_ptr(), 0x50);
    assert_eq!(DataRef::new(), Call::DataCreate);
}

#[test]
fn data_clone_takes_a_reference_and_release_gives_one_up() {
    let first = data();
    let (second, call) = first.clone();
    assert_eq!(second.as_ptr(), 0x50);
    assert_eq!(call, Call::DataAddref { data: 0x50 });
    assert_eq!(second.release(), Call::DataRelease { data: 0x50 });
    assert_eq!(first.release(), Call::DataRelease { data: 0x50 });
}

#[test]
fn setters_encode_key_and_value() {
    assert_eq!(
        data().set_string("color", "rouge"),
        Ok(Call::DataSetString { data: 0x50, key: c("color"), value: c("rouge") })
    );
    assert_eq!(
        data().set_int("width", -7),
        Ok(Call::DataSetInt { data: 0x50, key: c("width"), value: -7 })
    );
    assert_eq!(
        data().set_bool("show_cursor", true),
        Ok(Call::DataSetBool { data: 0x50, key: c("show_cursor"), value: true })
    );
}

#[test]
fn getters_encode_the_key() {
    assert_eq!(data().get_string("k"), Ok(Call::DataGetString { data: 0x50, key: c("k") }));
    assert_eq!(data().get_int("k"), Ok(Call::DataGetInt { data: 0x50, key: c("k") }));
    assert_eq!(data().get_bool("k"), Ok(Call::DataGetBool { data: 0x50, key: c("k") }));
}

#[test]
fn a_nul_in_a_key_or_value_is_reported() {
    assert_eq!(data().set_string("k\0", "v\0"), Err(Error::CString(1)));
    assert_eq!(data().set_string("k", "va\0"), Err(Error::CString(2)));
    assert_eq!(data().set_int("\0k", 1), Err(Error::CString(0)));
    assert_eq!(data().set_bool("ab\0", true), Err(Error::CString(2)));
    assert_eq!(data().get_string("ab\0"), Err(Error::CString(2)));
    assert_eq!(data().get_int("a\0"), Err(Error::CString(1)));
    assert_eq!(data().get_bool("\0"), Err(Error::CString(0)));
}

#[test]
fn load_and_dump() {
    assert_eq!(
        DataRef::load(r#"{"a":1}"#),
        Ok(Call::DataCreateFromJson { json: c(r#"{"a":1}"#) })
    );
    assert_eq!(DataRef::load("{}\0"), Err(Error::CString(2)));
    assert_eq!(data().dump(), Call::DataGetJson { data: 0x50 });
}

#[test]
fn from_value_maps_each_scalar_to_its_setter() {
    let value = json(r#"{"color":"red","width":640,"visible":true}"#);
    // the members of a JSON object come in the order of their keys
    assert_eq!(
        data().from_value(&value),
        Ok(vec![
            Call::DataSetString { data: 0x50, key: c("color"), value: c("red") },
            Call::DataSetBool { data: 0x50, key: c("visible"), value: true },
            Call::DataSetInt { data: 0x50, key: c("width"), value: 640 },
        ])
    );
}

#[test]
fn from_value_skips_null_members() {
    let value = json(r#"{"a":null,"b":false,"c":null}"#);
    assert_eq!(
        data().from_value(&value),
        Ok(vec![Call::DataSetBool { data: 0x50, key: c("b"), value: false }])
    );
    assert_eq!(data().from_value(&json(r#"{"only":null}"#)), Ok(Vec::new()));
}

#[test]
fn from_value_of_an_empty_object_sets_nothing() {
    assert_eq!(data().from_value(&json("{}")), Ok(Vec::new()));
}

#[test]
fn from_value_keeps_the_extremes_of_i64() {
    let value = json(r#"{"hi":9223372036854775807,"lo":-9223372036854775808}"#);
    assert_eq!(
        data().from_value(&value),
        Ok(vec![
            Call::DataSetInt { data: 0x50, key: c("hi"), value: i64::MAX },
            Call::DataSetInt { data: 0x50, key: c("lo"), value: i64::MIN },
        ])
    );
}

#[test]
fn from_value_refuses_numbers_that_no_i64_holds() {
    assert_eq!(data().from_value(&json(r#"{"n":9223372036854775808}"#)), Err(Error::Json));
    assert_eq!(data().from_value(&json(r#"{"n":1.5}"#)), Err(Error::Json));
    assert_eq!(data().from_value(&json(r#"{"a":1,"n":1e3}"#)), Err(Error::Json));
}

#[test]
fn from_value_refuses_nested_members() {
    assert_eq!(data().from_value(&json(r#"{"a":{"b":1}}"#)), Err(Error::Json));
    assert_eq!(data().from_value(&json(r#"{"a":[1,2]}"#)), Err(Error::Json));
}

#[test]
fn from_value_refuses_anything_but_an_object() {
    for text in ["null", "true", "3", "\"text\"", "[1,2]"] {
        assert_eq!(data().from_value(&json(text)), Err(Error::Json));
    }
}

#[test]
fn from_value_reports_the_first_member_it_cannot_store() {
    // in key order "a" comes first, and its value holds a NUL
    let value = json(r#"{"b":[1],"a":"x\u0000y"}"#);
    assert_eq!(data().from_value(&value), Err(Error::CString(1)));
    let value = json(r#"{"k\u0000":true,"z":[]}"#);
    assert_eq!(data().from_value(&value), Err(Error::CString(1)));
}

#[test]
fn from_value_lets_a_null_member_have_any_key() {
    let value = json(r#"{"k\u0000":null,"z":1}"#);
    assert_eq!(
        data().from_value(&value),
        Ok(vec![Call::DataSetInt { data: 0x50, key: c("z"), value: 1 }])
    );
}

#[test]
fn from_fields_keeps_the_order_given() {
    let members = vec![
        ("z".to_string(), Field::Number(Some(1))),
        ("skip".to_string(), Field::Null),
        ("a".to_string(), Field::Text("t".to_string())),
        ("m".to_string(), Field::Boolean(false)),
    ];
    assert_eq!(
        data().from_fields(&members),
        Ok(vec![
            Call::DataSetInt { data: 0x50, key: c("z"), value: 1 },
            Call::DataSetString { data: 0x50, key: c("a"), value: c("t") },
            Call::DataSetBool { data: 0x50, key: c("m"), value: false },
        ])
    );
}

#[test]
fn from_fields_stops_at_the_first_complaint() {
    let members = vec![
        ("a".to_string(), Field::Number(Some(1))),
        ("b".to_string(), Field::Number(None)),
        ("c\0".to_string(), Field::Boolean(true)),
    ];
    assert_eq!(data().from_fields(&members), Err(Error::Json));
    let members = vec![
        ("c\0".to_string(), Field::Boolean(true)),
        ("n".to_string(), Field::Nested),
    ];
    assert_eq!(data().from_fields(&members), Err(Error::CString(1)));
    let members = vec![("n".to_string(), Field::Nested)];
    assert_eq!(data().from_fields(&members), Err(Error::Json));
}
