use ashares::Json;

fn text(s: &str) -> Json {
    Json::Text(String::from(s))
}

fn number(s: &str) -> Json {
    Json::Number(String::from(s))
}

fn object(members: Vec<(&str, Json)>) -> Json {
    Json::Object(members.into_iter().map(|(k, v)| (String::from(k), v)).collect())
}

#[test]
fn parse_reads_every_kind_of_value() {
    assert_eq!(Json::parse("null"), Some(Json::Null));
    assert_eq!(Json::parse("true"), Some(Json::Bool(true)));
    assert_eq!(Json::parse("false"), Some(Json::Bool(false)));
    assert_eq!(Json::parse("\"a\\u0062c\""), Some(text("abc")));
    assert_eq!(Json::parse(" [ ] "), Some(Json::Array(vec![])));
    assert_eq!(Json::parse("{}"), Some(object(vec![])));
    assert_eq!(
        Json::parse("[1, \"2\", [null]]"),
        Some(Json::Array(vec![number("1"), text("2"), Json::Array(vec![Json::Null])]))
    );
    assert_eq!(
        Json::parse("{\"a\": {\"b\": [true]}}"),
        Some(object(vec![("a", object(vec![("b", Json::Array(vec![Json::Bool(true)]))]))]))
    );
}

#[test]
fn parse_keeps_the_text_of_a_number() {
    assert_eq!(Json::parse("12"), Some(number("12")));
    assert_eq!(Json::parse("-7"), Some(number("-7")));
    assert_eq!(Json::parse("3245.81"), Some(number("3245.81")));
    assert_eq!(Json::parse("39912345600"), Some(number("39912345600")));
    let Some(Json::Number(written)) = Json::parse("1.50") else {
        panic!("a number was expected");
    };
    assert_eq!(written.parse::<f64>().unwrap(), 1.5);
}

#[test]
fn parse_rejects_what_is_not_json() {
    assert_eq!(Json::parse(""), None);
    assert_eq!(Json::parse("{"), None);
    assert_eq!(Json::parse("[1,]"), None);
    assert_eq!(Json::parse("{\"a\" 1}"), None);
    assert_eq!(Json::parse("<html>busy</html>"), None);
    assert_eq!(Json::parse("null null"), None);
    assert_eq!(Json::parse("NaN"), None);
}

#[test]
fn parse_keeps_the_last_of_two_equal_keys() {
    let doc = Json::parse("{\"a\": 1, \"a\": 2}").unwrap();
    assert_eq!(doc.get("a"), Some(&number("2")));
}

#[test]
fn get_finds_members_of_objects_only() {
    let doc = object(vec![("day", text("x")), ("open", text("y"))]);
    assert_eq!(doc.get("day"), Some(&text("x")));
    assert_eq!(doc.get("open"), Some(&text("y")));
    assert_eq!(doc.get("close"), None);
    assert_eq!(doc.get(""), None);
    assert_eq!(Json::Null.get("day"), None);
    assert_eq!(Json::Array(vec![text("day")]).get("day"), None);
    assert_eq!(text("day").get("day"), None);
}

#[test]
fn get_takes_the_first_of_two_equal_keys() {
    let doc = object(vec![("a", number("1")), ("a", number("2"))]);
    assert_eq!(doc.get("a"), Some(&number("1")));
}

#[test]
fn at_finds_items_of_arrays_only() {
    let row = Json::Array(vec![text("a"), text("b")]);
    assert_eq!(row.at(0), Some(&text("a")));
    assert_eq!(row.at(1), Some(&text("b")));
    assert_eq!(row.at(2), None);
    assert_eq!(object(vec![("0", text("a"))]).at(0), None);
    assert_eq!(Json::Null.at(0), None);
}

#[test]
fn values_are_read_by_kind() {
    assert_eq!(text("a").as_str(), Some("a"));
    assert_eq!(number("1").as_str(), None);
    assert_eq!(number("1").as_number(), Some("1"));
    assert_eq!(text("1").as_number(), None);
    assert_eq!(Json::Array(vec![Json::Null]).as_array(), Some(&vec![Json::Null]));
    assert_eq!(object(vec![]).as_array(), None);
    assert_eq!(Json::Null.as_array(), None);
}

#[test]
fn follow_walks_a_path_of_keys() {
    let doc = object(vec![("data", object(vec![("sh000001", object(vec![("day", Json::Null)]))]))]);
    assert_eq!(doc.follow(&[]), Some(&doc));
    assert_eq!(doc.follow(&["data", "sh000001", "day"]), Some(&Json::Null));
    assert_eq!(doc.follow(&["data", "sz000001"]), None);
    assert_eq!(doc.follow(&["data", "sh000001", "day", "x"]), None);
    assert_eq!(doc.follow(&["x"]), None);
}

#[test]
fn first_of_prefers_the_earlier_key() {
    let holder = object(vec![("day", number("1")), ("qfqday", number("2"))]);
    assert_eq!(holder.first_of(&["qfqday", "day"]), Some(&number("2")));
    assert_eq!(holder.first_of(&["day", "qfqday"]), Some(&number("1")));
    assert_eq!(holder.first_of(&["qfqweek", "day"]), Some(&number("1")));
    assert_eq!(holder.first_of(&["qfqweek", "week"]), None);
    assert_eq!(holder.first_of(&[]), None);
}
