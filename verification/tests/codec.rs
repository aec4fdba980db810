use jira_rs::decode::{FromJson, RawJson};
use jira_rs::error::DecodeError;
use jira_rs::id::{deserialize, serialize, Id};
use jira_rs::json::{parse_document, parse_elements, parse_members, skip_whitespace, Span};
use jira_rs::object::{find_last, find_unique, parse_record, Object, Table};
use jira_rs::pointer::{resolve, split};
use jira_rs::text::{split_at, same_text};

#[test]
fn identifiers_round_trip() {
    for id in [0u64, 1, 9, 10, 42, 10001, 4294967296, u64::MAX - 1, u64::MAX] {
        let text = serialize(id);
        assert_eq!(Id::visit_str(&text).map(|v| v.get()), Ok(id));
        let wire = format!("\"{}\"", text);
        assert_eq!(deserialize(wire.as_bytes()), Ok(id));
    }
    assert_eq!(serialize(10001), "10001");
    assert_eq!(serialize(0), "0");
    assert_eq!(serialize(u64::MAX), "18446744073709551615");
}

#[test]
fn identifiers_are_rejected() {
    assert_eq!(deserialize(br#""""#), Err(DecodeError::InvalidIdentifier(None)));
    assert_eq!(deserialize(br#""-1""#), Err(DecodeError::InvalidIdentifier(None)));
    assert_eq!(deserialize(br#""12a""#), Err(DecodeError::InvalidIdentifier(None)));
    assert_eq!(deserialize(b"-1"), Err(DecodeError::InvalidIdentifier(None)));
    assert_eq!(deserialize(b"-0"), Err(DecodeError::InvalidIdentifier(None)));
    assert_eq!(deserialize(b"1.5"), Err(DecodeError::InvalidIdentifier(None)));
    assert_eq!(deserialize(b"1e3"), Err(DecodeError::InvalidIdentifier(None)));
    assert_eq!(deserialize(b"true"), Err(DecodeError::InvalidIdentifier(None)));
    assert_eq!(deserialize(b"null"), Err(DecodeError::InvalidIdentifier(None)));
    assert_eq!(deserialize(br#""+5""#), Err(DecodeError::InvalidIdentifier(None)));
    assert_eq!(deserialize(br#"" 5""#), Err(DecodeError::InvalidIdentifier(None)));
    let too_large = br#""18446744073709551616""#;
    assert_eq!(deserialize(too_large), Err(DecodeError::InvalidIdentifier(None)));
    assert_eq!(deserialize(b"18446744073709551616"), Err(DecodeError::InvalidIdentifier(None)));
    assert_eq!(deserialize(b""), Err(DecodeError::InvalidIdentifier(None)));
}

#[test]
fn identifiers_are_accepted() {
    assert_eq!(deserialize(br#""0""#), Ok(0));
    assert_eq!(deserialize(br#""18446744073709551615""#), Ok(u64::MAX));
    assert_eq!(deserialize(b"18446744073709551615"), Ok(u64::MAX));
    assert_eq!(deserialize(b"7"), Ok(7));
    assert_eq!(deserialize(b" 7 "), Ok(7));
    assert_eq!(deserialize(br#""007""#), Ok(7));
    assert_eq!(Id::visit_u64(9).map(|v| v.get()), Ok(9));
    assert_eq!(Id::new(3).get(), 3);
    assert_eq!(Id::from_json(br#""12""#).map(|v| v.get()), Ok(12));
}

#[test]
fn documents_are_delimited() {
    assert_eq!(skip_whitespace(b" \t\r\n x", 0), 5);
    assert_eq!(skip_whitespace(b"x  ", 1), 3);
    let span = parse_document(b"  {\"a\": 1}\n").unwrap();
    assert_eq!((span.start, span.end), (2, 10));
    assert_eq!(parse_document(b"{} {}").err(), Some(DecodeError::MalformedDocument));
    assert_eq!(parse_document(b"   ").err(), Some(DecodeError::MalformedDocument));
    assert_eq!(parse_document(b"tru").err(), Some(DecodeError::MalformedDocument));
    assert_eq!(parse_document(b"12x").err(), Some(DecodeError::MalformedDocument));
    assert_eq!(parse_document(b"\"\xff\"").err(), Some(DecodeError::MalformedDocument));
    assert!(parse_document(b"12").is_ok());
}

#[test]
fn objects_are_split_into_members() {
    let text = br#"{ "a" : 1 , "b":[1, {"c": "}"}] ,"a":null}"#;
    let span = parse_document(text).unwrap();
    let members = parse_members(text, span).unwrap();
    let found: Vec<(&[u8], &[u8])> = members
        .iter()
        .map(|m| (&text[m.key.start..m.key.end], &text[m.value.start..m.value.end]))
        .collect();
    assert_eq!(
        found,
        vec![
            (&b"\"a\""[..], &b"1"[..]),
            (&b"\"b\""[..], &br#"[1, {"c": "}"}]"#[..]),
            (&b"\"a\""[..], &b"null"[..]),
        ]
    );
    let empty = b"{ }";
    assert_eq!(parse_members(empty, Span { start: 0, end: 3 }).map(|m| m.len()), Ok(0));
    let array = b"[1]";
    assert_eq!(
        parse_members(array, Span { start: 0, end: 3 }).err(),
        Some(DecodeError::UnexpectedType(None))
    );
    // a span that is not the whole object
    assert_eq!(
        parse_members(text, Span { start: 0, end: 5 }).err(),
        Some(DecodeError::MalformedDocument)
    );
    assert_eq!(
        parse_members(text, Span { start: 0, end: 4000 }).err(),
        Some(DecodeError::UnexpectedType(None))
    );
}

#[test]
fn arrays_are_split_into_elements() {
    let text = br#"[ "a,b" ,[ ] , {"x": [1,2]},3 ]"#;
    let span = parse_document(text).unwrap();
    let elements = parse_elements(text, span).unwrap();
    let found: Vec<&[u8]> = elements.iter().map(|e| &text[e.start..e.end]).collect();
    assert_eq!(
        found,
        vec![&br#""a,b""#[..], &b"[ ]"[..], &br#"{"x": [1,2]}"#[..], &b"3"[..]]
    );
    assert_eq!(parse_elements(b"[]", Span { start: 0, end: 2 }).map(|e| e.len()), Ok(0));
    assert_eq!(
        parse_elements(b"{}", Span { start: 0, end: 2 }).err(),
        Some(DecodeError::UnexpectedType(None))
    );
}

#[test]
fn keys_are_decoded_and_found() {
    let text = br#"{"a": 1, "bc": 2, "a": 3}"#;
    let entries = parse_record(text).unwrap();
    let keys: Vec<&str> = entries.iter().map(|e| e.key.as_str()).collect();
    assert_eq!(keys, vec!["a", "bc", "a"]);
    let last = find_last(&entries, "a").unwrap();
    assert_eq!(&text[last.start..last.end], b"3");
    assert!(find_last(&entries, "c").is_none());
    assert_eq!(find_unique(&entries, "a").err(), Some(DecodeError::DuplicateField("a")));
    let unique = find_unique(&entries, "bc").unwrap().unwrap();
    assert_eq!(&text[unique.start..unique.end], b"2");
    assert_eq!(find_unique(&entries, "zz").map(|v| v.is_none()), Ok(true));
    assert_eq!(parse_record(b"[]").err(), Some(DecodeError::UnexpectedType(None)));
    assert_eq!(parse_record(br#"{"\ud800": 1}"#).err(), Some(DecodeError::MalformedDocument));
}

#[test]
fn texts_are_compared() {
    assert!(same_text("", ""));
    assert!(same_text("fields", "fields"));
    assert!(!same_text("fields", "field"));
    assert!(!same_text("a", "b"));
    assert!(same_text("é", "é"));
    assert!(!same_text("é", "e"));
}

#[test]
fn objects_give_their_members() {
    let text = br#"{"name": "a\nb", "n": 5, "flag": false, "none": null, "list": ["x"]}"#;
    let object = Object::parse(text).unwrap();
    assert_eq!(object.len(), 5);
    assert_eq!(object.key(1), Some("n"));
    assert_eq!(object.key(5), None);
    assert_eq!(object.value(1), Some(&b"5"[..]));
    assert_eq!(object.value(5), None);
    assert_eq!(object.required::<String>("name"), Ok("a\nb".to_string()));
    assert_eq!(object.required::<u64>("n"), Ok(5));
    assert_eq!(object.required_id("n"), Ok(5));
    assert_eq!(object.required::<bool>("flag"), Ok(false));
    assert_eq!(object.required::<Vec<String>>("list"), Ok(vec!["x".to_string()]));
    assert_eq!(object.optional::<String>("none"), Ok(None));
    assert_eq!(object.optional::<String>("absent"), Ok(None));
    assert_eq!(object.optional::<String>("name"), Ok(Some("a\nb".to_string())));
    assert_eq!(object.optional::<String>("n"), Err(DecodeError::UnexpectedType(Some("n"))));
    assert_eq!(object.required::<String>("none"), Err(DecodeError::UnexpectedType(Some("none"))));
    assert_eq!(
        object.required::<String>("absent"),
        Err(DecodeError::MissingRequiredField("absent"))
    );
    assert_eq!(object.required::<u64>("name"), Err(DecodeError::UnexpectedType(Some("name"))));
    assert_eq!(object.required::<bool>("n"), Err(DecodeError::UnexpectedType(Some("n"))));
    assert_eq!(object.required_id("name"), Err(DecodeError::InvalidIdentifier(Some("name"))));
    assert_eq!(
        object.required::<Vec<u64>>("list"),
        Err(DecodeError::UnexpectedType(Some("list")))
    );
}

#[test]
fn tables_and_raw_values() {
    let table = Table::<u64>::from_json(br#"{"a": 1, "b": 2, "a": 3}"#).unwrap();
    assert_eq!(table.len(), 3);
    assert!(!table.is_empty());
    assert_eq!(table.get("a"), Some(&3));
    assert_eq!(table.get("b"), Some(&2));
    assert_eq!(table.get("c"), None);
    assert_eq!(
        Table::<u64>::from_json(br#"{"a": 1, "b": "x"}"#).err(),
        Some(DecodeError::UnexpectedType(None))
    );
    let raw = RawJson::from_json(b"  [1, \"two\"]  ").unwrap();
    assert_eq!(raw.get(), b"[1, \"two\"]");
    assert_eq!(raw.decode::<Vec<RawJson>>().map(|v| v.len()), Ok(2));
    assert_eq!(raw.decode::<Vec<u64>>().err(), Some(DecodeError::UnexpectedType(None)));
    assert_eq!(RawJson::from_json(b"[1,").err(), Some(DecodeError::MalformedDocument));
    assert_eq!(Option::<u64>::from_json(b"null"), Ok(None));
    assert_eq!(Option::<u64>::from_json(b"4"), Ok(Some(4)));
    assert_eq!(Vec::<u64>::from_json(b"{}").err(), Some(DecodeError::UnexpectedType(None)));
    assert_eq!(Vec::<u64>::from_json(b"[1, 2").err(), Some(DecodeError::MalformedDocument));
}

#[test]
fn paths_are_split_at_dots() {
    assert_eq!(split("fields.status.name"), vec!["fields", "status", "name"]);
    assert_eq!(split("plain"), vec!["plain"]);
    assert_eq!(split(""), vec![""]);
    assert_eq!(split(".a"), vec!["", "a"]);
    assert_eq!(split("a..b."), vec!["a", "", "b", ""]);
    assert_eq!(split("é.ü"), vec!["é", "ü"]);
    assert_eq!(split_at("user:pass:word", ':'), vec!["user", "pass", "word"]);
}

#[test]
fn paths_are_walked() {
    let text = br#"{"a": {"b": [10, {"c": "deep", "7": "seven"}], "0": "zero"}}"#;
    assert_eq!(resolve::<String>(text, &vec!["a", "b", "1", "c"], 0), Ok("deep".to_string()));
    assert_eq!(resolve::<u64>(text, &vec!["a", "b", "0"], 0), Ok(10));
    assert_eq!(resolve::<String>(text, &vec!["a", "b", "1", "7"], 0), Ok("seven".to_string()));
    assert_eq!(resolve::<String>(text, &vec!["a", "0"], 0), Ok("zero".to_string()));
    assert_eq!(resolve::<u64>(text, &vec!["skipped", "a", "b", "0"], 1), Ok(10));
    assert_eq!(
        resolve::<u64>(text, &vec!["a", "b", "2"], 0),
        Err(DecodeError::PathNotFound)
    );
    assert_eq!(
        resolve::<u64>(text, &vec!["a", "b", "x"], 0),
        Err(DecodeError::PathNotFound)
    );
    assert_eq!(
        resolve::<u64>(text, &vec!["a", "b", "0", "x"], 0),
        Err(DecodeError::PathNotFound)
    );
    assert_eq!(resolve::<u64>(text, &vec!["z"], 0), Err(DecodeError::PathNotFound));
    assert_eq!(
        resolve::<String>(text, &vec!["a", "b", "0"], 0),
        Err(DecodeError::UnexpectedType(None))
    );
    assert_eq!(resolve::<u64>(b"5", &vec![], 0), Ok(5));
}

#[test]
fn literals_may_stand_in_whitespace() {
    assert_eq!(bool::from_json(b" true\n"), Ok(true));
    assert_eq!(bool::from_json(b"false"), Ok(false));
    assert_eq!(bool::from_json(b"truex"), Err(DecodeError::UnexpectedType(None)));
    assert_eq!(bool::from_json(b"tru"), Err(DecodeError::UnexpectedType(None)));
    assert_eq!(bool::from_json(b"True"), Err(DecodeError::UnexpectedType(None)));
    assert_eq!(bool::from_json(b"true false"), Err(DecodeError::UnexpectedType(None)));
    assert_eq!(bool::from_json(b"\"true\""), Err(DecodeError::UnexpectedType(None)));
    assert_eq!(Option::<bool>::from_json(b"\t null \r\n"), Ok(None));
    assert_eq!(Option::<bool>::from_json(b"nul"), Err(DecodeError::UnexpectedType(None)));
    assert_eq!(Option::<bool>::from_json(b"nulll"), Err(DecodeError::UnexpectedType(None)));
    assert_eq!(Option::<String>::from_json(b"\"null\""), Ok(Some("null".to_string())));
}

#[test]
fn identifiers_convert_to_and_from_numbers() {
    let id = Id::from(77u64);
    assert_eq!(id.get(), 77);
    assert_eq!(u64::from(id), 77);
}
