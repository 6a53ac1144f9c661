use webpage::json::Json;

#[test]
fn parse_reads_every_kind_of_value() {
    assert_eq!(Json::parse("null"), Some(Json::Null));
    assert_eq!(Json::parse(" true "), Some(Json::Bool(true)));
    assert_eq!(Json::parse("-12"), Some(Json::Number("-12".to_string())));
    assert_eq!(Json::parse("1.5"), Some(Json::Number("1.5".to_string())));
    assert_eq!(
        Json::parse("18446744073709551615"),
        Some(Json::Number("18446744073709551615".to_string()))
    );
    assert_eq!(Json::parse("\"a\\nb\""), Some(Json::Str("a\nb".to_string())));
    assert_eq!(
        Json::parse("[1, [], {}]"),
        Some(Json::Array(vec![
            Json::Number("1".to_string()),
            Json::Array(vec![]),
            Json::Object(vec![]),
        ]))
    );
}

#[test]
fn parse_walks_members_by_name() {
    assert_eq!(
        Json::parse("{\"b\": 1, \"a\": {\"c\": null}, \"b\": 2}"),
        Some(Json::Object(vec![
            (
                "a".to_string(),
                Json::Object(vec![("c".to_string(), Json::Null)])
            ),
            ("b".to_string(), Json::Number("2".to_string())),
        ]))
    );
}

#[test]
fn parse_refuses_what_is_not_json() {
    assert_eq!(Json::parse(""), None);
    assert_eq!(Json::parse("{"), None);
    assert_eq!(Json::parse("{} {}"), None);
    assert_eq!(Json::parse("'a'"), None);
    assert_eq!(Json::parse("NaN"), None);
}

#[test]
fn get_finds_the_first_member_of_that_name() {
    let object = Json::Object(vec![
        ("a".to_string(), Json::Bool(false)),
        ("b".to_string(), Json::Null),
        ("a".to_string(), Json::Bool(true)),
    ]);
    assert_eq!(object.get("a"), Some(&Json::Bool(false)));
    assert_eq!(object.get("b"), Some(&Json::Null));
    assert_eq!(object.get("c"), None);
    assert_eq!(Json::Array(vec![Json::Null]).get("a"), None);
    assert_eq!(Json::Str("a".to_string()).get("a"), None);
}

#[test]
fn clone_copies_the_whole_value() {
    let value = Json::parse("{\"a\":[1,{\"b\":\"c\"},null,true],\"d\":{}}").unwrap();
    assert_eq!(value.clone(), value);
}
