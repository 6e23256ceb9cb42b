use cypher::entity::PropType;

fn texts(items: &[&str]) -> Vec<String> {
    items.iter().map(|item| item.to_string()).collect()
}

#[test]
fn integer_is_written_as_it_stands() {
    assert_eq!(PropType::integer("30").to_prop(), "30");
    assert_eq!(PropType::integer("-7").to_prop(), "-7");
}

#[test]
fn text_is_quoted_and_not_escaped() {
    assert_eq!(PropType::str("Bob").to_prop(), "'Bob'");
    assert_eq!(PropType::str("").to_prop(), "''");
    assert_eq!(PropType::str("O'Neil").to_prop(), "'O'Neil'");
}

#[test]
fn boolean_is_written_in_words() {
    assert_eq!(PropType::Bool(true).to_prop(), "true");
    assert_eq!(PropType::Bool(false).to_prop(), "false");
}

#[test]
fn null_is_written_in_capitals() {
    assert_eq!(PropType::Null.to_prop(), "NULL");
}

#[test]
fn array_of_texts_matches_the_raw_literal() {
    let array = PropType::Array(vec![PropType::str("Bob"), PropType::str("Tom")]);
    let raw = PropType::str_arr(Some("['Bob','Tom']"));
    assert_eq!(array.to_prop(), "['Bob','Tom']");
    assert_eq!(raw.to_prop(), "['Bob','Tom']");
    assert_eq!(array.to_prop(), raw.to_prop());
}

#[test]
fn array_has_no_trailing_comma() {
    let array = PropType::Array(vec![
        PropType::integer("1"),
        PropType::integer("2"),
        PropType::integer("3"),
    ]);
    assert_eq!(array.to_prop(), "[1,2,3]");
}

#[test]
fn array_of_one_and_of_none() {
    assert_eq!(PropType::Array(vec![PropType::Bool(true)]).to_prop(), "[true]");
    assert_eq!(PropType::Array(Vec::new()).to_prop(), "[]");
}

#[test]
fn arrays_nest() {
    let inner = PropType::Array(vec![PropType::integer("1"), PropType::Null]);
    let outer = PropType::Array(vec![inner, PropType::str("x"), PropType::Array(Vec::new())]);
    assert_eq!(outer.to_prop(), "[[1,NULL],'x',[]]");
}

#[test]
fn raw_array_is_written_unchanged() {
    assert_eq!(PropType::str_arr(Some("[ 1 , 2 ]")).to_prop(), "[ 1 , 2 ]");
}

#[test]
fn raw_array_without_text_is_null() {
    assert!(PropType::str_arr(None) == PropType::Null);
    assert_eq!(PropType::str_arr(None).to_prop(), "NULL");
}

#[test]
fn from_type_takes_integer_types_for_numbers() {
    for tag in [
        "i128", "i64", "i32", "i16", "i8", "u128", "u64", "u32", "u16", "u8", "usize", "isize",
    ] {
        let prop = PropType::from_type(tag, Some("12".to_string()));
        assert!(matches!(prop, PropType::Int(_)), "{}", tag);
        assert_eq!(prop.to_prop(), "12");
    }
}

#[test]
fn from_type_takes_string_for_text() {
    let prop = PropType::from_type("String", Some("Bob".to_string()));
    assert!(matches!(prop, PropType::String(_)));
    assert_eq!(prop.to_prop(), "'Bob'");
}

#[test]
fn from_type_takes_an_unknown_type_for_text() {
    for tag in ["f64", "Uuid", "", "string", "I32", "char"] {
        let prop = PropType::from_type(tag, Some("1.5".to_string()));
        assert!(matches!(prop, PropType::String(_)), "{}", tag);
        assert_eq!(prop.to_prop(), "'1.5'");
    }
}

#[test]
fn from_type_reads_bool_by_its_text() {
    assert!(matches!(PropType::from_type("bool", Some("true".to_string())), PropType::Bool(true)));
    for text in ["false", "True", "TRUE", "1", "", " true", "yes"] {
        let prop = PropType::from_type("bool", Some(text.to_string()));
        assert!(matches!(prop, PropType::Bool(false)), "{:?}", text);
    }
}

#[test]
fn from_type_without_value_is_null() {
    for tag in ["String", "i32", "bool", "Other"] {
        assert!(PropType::from_type(tag, None) == PropType::Null);
    }
}

#[test]
fn arr_converts_each_element_by_the_type() {
    assert_eq!(PropType::arr("String", texts(&["Bob", "Tom"])).to_prop(), "['Bob','Tom']");
    assert_eq!(PropType::arr("i32", texts(&["1", "2"])).to_prop(), "[1,2]");
    assert_eq!(PropType::arr("bool", texts(&["true", "no"])).to_prop(), "[true,false]");
    assert_eq!(PropType::arr("u8", Vec::new()).to_prop(), "[]");
}

#[test]
fn equality_looks_at_the_kind_only() {
    assert!(PropType::integer("1") == PropType::integer("2"));
    assert!(PropType::str("a") == PropType::str("b"));
    assert!(PropType::Bool(true) == PropType::Bool(false));
    assert!(PropType::Null == PropType::Null);
    assert!(PropType::Array(Vec::new()) == PropType::Array(vec![PropType::Null]));
    assert!(PropType::str_arr(Some("[]")) == PropType::str_arr(Some("[1]")));
    assert!(PropType::integer("1") != PropType::str("1"));
    assert!(PropType::integer("NULL") != PropType::Null);
    assert!(PropType::str_arr(Some("[]")) != PropType::Array(Vec::new()));
    assert!(PropType::Bool(false) != PropType::Null);
}
