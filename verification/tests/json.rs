use lucius::json::Json;

#[test]
fn simple_test() {
    assert_eq!(2 + 2, 4);
}

#[test]
fn json_reads_and_writes_an_object() {
    let j = Json::parse("{\"b\": [1, -2, 1.5, null, true], \"a\": \"x\"}").unwrap();
    assert_eq!(j.get("a").unwrap().as_str(), Some("x"));
    assert_eq!(j.to_text(), "{\"a\":\"x\",\"b\":[1,-2,1.5,null,true]}");
}

#[test]
fn json_tells_the_kinds_of_numbers_apart() {
    assert!(matches!(Json::parse("7").unwrap(), Json::PosInt(7)));
    assert!(matches!(Json::parse("-7").unwrap(), Json::NegInt(-7)));
    assert!(matches!(Json::parse("18446744073709551615").unwrap(), Json::PosInt(u64::MAX)));
    match Json::parse("0.25").unwrap() {
        Json::Float(text) => assert_eq!(text, "0.25"),
        other => panic!("not a float: {:?}", other),
    }
    assert_eq!(Json::parse("1e3").unwrap().to_text(), "1000.0");
}

#[test]
fn json_float_keeps_its_digits() {
    let text = "{\"x\":0.1,\"y\":1.2345678901234567e-5,\"z\":-2.5e300}";
    let once = Json::parse(text).unwrap().to_text();
    let twice = Json::parse(&once).unwrap().to_text();
    assert_eq!(once, twice);
    assert_eq!(once, "{\"x\":0.1,\"y\":0.000012345678901234568,\"z\":-2.5e+300}");
}

#[test]
fn json_float_that_is_no_number_is_written_as_null() {
    assert_eq!(Json::Float("abc".to_string()).to_text(), "null");
    assert_eq!(Json::Float("inf".to_string()).to_text(), "null");
}

#[test]
fn json_error_says_why() {
    let e = Json::parse("{not_json}").unwrap_err();
    assert_eq!(e, "key must be a string at line 1 column 2");
    let e = Json::parse("").unwrap_err();
    assert_eq!(e, "EOF while parsing a value at line 1 column 0");
}

#[test]
fn json_writes_strings_with_escapes() {
    assert_eq!(Json::string("a\"b\\c\nd").to_text(), "\"a\\\"b\\\\c\\nd\"");
}

#[test]
fn json_integer_picks_the_variant() {
    assert!(matches!(Json::integer(5), Json::PosInt(5)));
    assert!(matches!(Json::integer(0), Json::PosInt(0)));
    assert!(matches!(Json::integer(-32700), Json::NegInt(-32700)));
    assert_eq!(Json::integer(-32700).to_text(), "-32700");
}

#[test]
fn json_get_takes_the_first_member() {
    let j = Json::Object(vec![
        Json::member("k", Json::PosInt(1)),
        Json::member("k", Json::PosInt(2)),
    ]);
    assert_eq!(j.get("k").unwrap().as_u64(), Some(1));
    assert!(j.get("missing").is_none());
    assert!(Json::Null.get("k").is_none());
}

#[test]
fn json_accessors_answer_only_for_their_kind() {
    assert_eq!(Json::Bool(true).as_bool(), Some(true));
    assert_eq!(Json::Null.as_bool(), None);
    assert_eq!(Json::string("x").as_str(), Some("x"));
    assert_eq!(Json::PosInt(1).as_str(), None);
    assert_eq!(Json::NegInt(-1).as_u64(), None);
    assert!(Json::Object(vec![]).is_object());
    assert!(!Json::Array(vec![]).is_object());
}

#[test]
fn json_duplicate_and_same() {
    let j = Json::parse("{\"a\":[1,{\"b\":null}],\"c\":\"d\"}").unwrap();
    let copy = j.duplicate();
    assert!(j.same(&copy));
    assert_eq!(copy.to_text(), j.to_text());
    let other = Json::parse("{\"a\":[1,{\"b\":false}],\"c\":\"d\"}").unwrap();
    assert!(!j.same(&other));
    assert!(!Json::PosInt(1).same(&Json::NegInt(-1)));
    assert!(!Json::Array(vec![Json::Null]).same(&Json::Array(vec![])));
}
