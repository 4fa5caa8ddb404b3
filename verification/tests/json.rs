use sync_translation::json::{Json, ShapeError};

fn parse(text: &str) -> Json {
    match Json::parse(text) {
        Ok(doc) => doc,
        Err(message) => panic!("{}", message),
    }
}

fn shown(doc: &Json) -> String {
    format!("{:?}", doc)
}

#[test]
fn parses_scalars() {
    assert_eq!(shown(&parse("null")), "Null");
    assert_eq!(shown(&parse("true")), "Bool(true)");
    assert_eq!(shown(&parse(" 12 ")), "Number(Some(12))");
    assert_eq!(shown(&parse("-7")), "Number(Some(-7))");
    assert_eq!(shown(&parse("\"a\\nb\"")), "Text(\"a\\nb\")");
}

#[test]
fn numbers_that_are_no_i64_have_no_integer() {
    assert_eq!(shown(&parse("3.0")), "Number(None)");
    assert_eq!(shown(&parse("1e2")), "Number(None)");
    assert_eq!(shown(&parse("9223372036854775807")), "Number(Some(9223372036854775807))");
    assert_eq!(shown(&parse("9223372036854775808")), "Number(None)");
    assert_eq!(shown(&parse("-9223372036854775808")), "Number(Some(-9223372036854775808))");
}

#[test]
fn parses_arrays_and_objects() {
    assert_eq!(
        shown(&parse("[1, [], {\"k\": [null]}]")),
        "Array([Number(Some(1)), Array([]), Object([(\"k\", Array([Null]))])])"
    );
    assert_eq!(shown(&parse("{}")), "Object([])");
}

#[test]
fn object_members_come_once_each() {
    let doc = parse("{\"b\": 1, \"a\": 2, \"b\": 3}");
    let members = doc.as_object().unwrap();
    assert_eq!(members.len(), 2);
    assert_eq!(shown(doc.get("b").unwrap()), "Number(Some(3))");
    assert_eq!(shown(doc.get("a").unwrap()), "Number(Some(2))");
    assert!(doc.get("c").is_none());
}

#[test]
fn refuses_what_is_not_json() {
    assert!(Json::parse("").is_err());
    assert!(Json::parse("{\"a\": }").is_err());
    assert!(Json::parse("[1, 2").is_err());
    assert!(Json::parse("{} trailing").is_err());
    let message = Json::parse("{\"a\" 1}").unwrap_err();
    assert!(message.contains("line 1"));
}

#[test]
fn get_reads_objects_only() {
    assert!(parse("[1]").get("0").is_none());
    assert!(parse("\"text\"").get("text").is_none());
    assert!(parse("null").get("").is_none());
    assert!(parse("[1]").as_object().is_none());
    assert!(parse("{}").as_array().is_none());
    assert_eq!(parse("[1, 2]").as_array().unwrap().len(), 2);
}

#[test]
fn text_fields() {
    let doc = parse("{\"a\": \"x\", \"b\": 1, \"c\": null}");
    assert_eq!(doc.text_field("a"), Ok("x".to_string()));
    assert_eq!(doc.text_field("b"), Err(ShapeError::InvalidType("b".to_string())));
    assert_eq!(doc.text_field("c"), Err(ShapeError::InvalidType("c".to_string())));
    assert_eq!(doc.text_field("d"), Err(ShapeError::MissingField("d".to_string())));
    assert_eq!(doc.text_field_or_empty("a"), Ok("x".to_string()));
    assert_eq!(doc.text_field_or_empty("b"), Err(ShapeError::InvalidType("b".to_string())));
    assert_eq!(doc.text_field_or_empty("d"), Ok(String::new()));
}

#[test]
fn bool_fields() {
    let doc = parse("{\"a\": true, \"b\": \"true\", \"c\": false}");
    assert_eq!(doc.bool_field("a"), Ok(true));
    assert_eq!(doc.bool_field("c"), Ok(false));
    assert_eq!(doc.bool_field("b"), Err(ShapeError::InvalidType("b".to_string())));
    assert_eq!(doc.bool_field("d"), Err(ShapeError::MissingField("d".to_string())));
}

#[test]
fn i32_fields() {
    let doc = parse(
        "{\"a\": 3, \"b\": 2147483647, \"c\": 2147483648, \"d\": -2147483648, \
         \"e\": -2147483649, \"f\": 3.0, \"g\": \"3\"}",
    );
    assert_eq!(doc.i32_field("a"), Ok(3));
    assert_eq!(doc.i32_field("b"), Ok(2147483647));
    assert_eq!(doc.i32_field("c"), Err(ShapeError::InvalidType("c".to_string())));
    assert_eq!(doc.i32_field("d"), Ok(-2147483648));
    assert_eq!(doc.i32_field("e"), Err(ShapeError::InvalidType("e".to_string())));
    assert_eq!(doc.i32_field("f"), Err(ShapeError::InvalidType("f".to_string())));
    assert_eq!(doc.i32_field("g"), Err(ShapeError::InvalidType("g".to_string())));
    assert_eq!(doc.i32_field("h"), Err(ShapeError::MissingField("h".to_string())));
}
