use jira_rs::error::DecodeError;
use jira_rs::decode::FromJson;
use jira_rs::models::common::{Attachment, Status};
use jira_rs::models::issue::{Issue, IssueHandle};

fn issue_text() -> String {
    [
        r#"{"self":"http://h/issue/1","id":"10001","key":"PROJ-1","expand":"","#,
        r#""fields":{"summary":"Fix bug","status":{"id":"3","name":"In Progress","#,
        r#""description":"","iconUrl":"","self":""}}}"#,
    ]
    .concat()
}

fn handle(text: &str) -> Result<IssueHandle, DecodeError> {
    IssueHandle::try_new(text.as_bytes().to_vec())
}

#[test]
fn an_issue_is_read() {
    let handle = handle(&issue_text()).expect("the issue decodes");
    let issue = handle.data();
    assert_eq!(issue.id, 10001);
    assert_eq!(issue.self_link, "http://h/issue/1");
    assert_eq!(issue.key, "PROJ-1");
    assert_eq!(issue.expand, "");
    assert_eq!(issue.summary(), Some("Fix bug".to_string()));
    assert_eq!(issue.status().map(|s| s.name), Some("In Progress".to_string()));
    assert_eq!(handle.into_inner(), issue_text().into_bytes());
}

#[test]
fn an_identifier_of_letters_is_rejected() {
    let text = issue_text().replace(r#""id":"10001""#, r#""id":"abc""#);
    let error = handle(&text).err().unwrap();
    assert_eq!(error, DecodeError::InvalidIdentifier(Some("id")));
    assert_eq!(error.field(), Some("id"));
}

#[test]
fn documents_that_are_not_issues_are_rejected() {
    let missing = r#"{"self":"x","id":"1","expand":"","fields":{}}"#;
    assert_eq!(handle(missing).err(), Some(DecodeError::MissingRequiredField("key")));
    let twice = r#"{"self":"x","id":"1","id":"2","key":"K","expand":"","fields":{}}"#;
    assert_eq!(handle(twice).err(), Some(DecodeError::DuplicateField("id")));
    assert_eq!(handle(r#"{"self":"x""#).err(), Some(DecodeError::MalformedDocument));
    assert_eq!(handle("").err(), Some(DecodeError::MalformedDocument));
    assert_eq!(handle("[1,2]").err(), Some(DecodeError::UnexpectedType(None)));
}

#[test]
fn paths_that_lead_nowhere() {
    let handle = handle(&issue_text()).unwrap();
    let issue = handle.data();
    assert!(issue.access::<String>("fields.nonexistent").is_none());
    let miss = issue.access::<String>("fields.status.bogus_subfield");
    assert!(matches!(miss, Some(Err(DecodeError::PathNotFound))));
    let name = issue.access::<String>("fields.status.name");
    assert!(matches!(name, Some(Ok(ref n)) if n == "In Progress"));
    assert!(issue.access::<String>("fields").is_none());
    assert!(issue.access::<String>("").is_none());
}

#[test]
fn status_is_the_same_by_either_accessor() {
    let handle = handle(&issue_text()).unwrap();
    let issue = handle.data();
    let direct: Status = issue.status().unwrap();
    let general: Status = issue.access::<Status>("fields.status").unwrap().unwrap();
    assert_eq!(direct.id, general.id);
    assert_eq!(direct.name, general.name);
    assert_eq!(direct.description, general.description);
    assert_eq!(direct.icon_url, general.icon_url);
    assert_eq!(direct.self_link, general.self_link);
    assert_eq!(direct.id, 3);
}

#[test]
fn members_that_the_shape_does_not_name_are_kept() {
    let text = [
        r#"{"self":"s","id":7,"nonstandard":"field","key":"K","expand":"e","#,
        r#""fields":{"a":1},"another": [1, {"b": "deep"}]}"#,
    ]
    .concat();
    let issue = Issue::decode(text.clone().into_bytes()).unwrap();
    assert_eq!(issue.id, 7);
    let found = issue.access::<String>("nonstandard");
    assert!(matches!(found, Some(Ok(ref v)) if v == "field"));
    assert!(issue.access::<String>("fields.nonstandard").is_none());
    assert_eq!(issue.document.other("nonstandard"), Some(&b"\"field\""[..]));
    assert_eq!(issue.document.field("a"), Some(&b"1"[..]));
    assert_eq!(issue.document.field("nonstandard"), None);
    let deep = issue.access::<String>("another.1.b");
    assert!(matches!(deep, Some(Ok(ref v)) if v == "deep"));
    assert!(matches!(issue.access::<String>("another.7"), Some(Err(DecodeError::PathNotFound))));
    assert!(matches!(issue.access::<u64>("fields.a"), Some(Ok(1))));
    let wrong = issue.access::<String>("fields.a");
    assert!(matches!(wrong, Some(Err(DecodeError::UnexpectedType(None)))));
}

#[test]
fn every_fixed_member_is_checked() {
    let text = |body: &str| format!("{{{}}}", body);
    let ok = r#""self":"s","id":"1","key":"K","expand":"e","fields":{}"#;
    assert!(handle(&text(ok)).is_ok());
    for (name, member) in [
        ("self", r#""self":"s""#),
        ("id", r#""id":"1""#),
        ("key", r#""key":"K""#),
        ("expand", r#""expand":"e""#),
        ("fields", r#""fields":{}"#),
    ] {
        let without = ok.replace(member, r#""other":0"#);
        assert_eq!(
            handle(&text(&without)).err(),
            Some(DecodeError::MissingRequiredField(name)),
            "without {}",
            name
        );
        let twice = format!("{},{}", ok, member);
        assert_eq!(
            handle(&text(&twice)).err(),
            Some(DecodeError::DuplicateField(name)),
            "with {} twice",
            name
        );
    }
    let wrong = ok.replace(r#""self":"s""#, r#""self":5"#);
    assert_eq!(handle(&text(&wrong)).err(), Some(DecodeError::UnexpectedType(Some("self"))));
    let wrong = ok.replace(r#""expand":"e""#, r#""expand":null"#);
    assert_eq!(handle(&text(&wrong)).err(), Some(DecodeError::UnexpectedType(Some("expand"))));
    let wrong = ok.replace(r#""fields":{}"#, r#""fields":[]"#);
    assert_eq!(handle(&text(&wrong)).err(), Some(DecodeError::UnexpectedType(Some("fields"))));
    let wrong = ok.replace(r#""id":"1""#, r#""id":-1"#);
    assert_eq!(handle(&text(&wrong)).err(), Some(DecodeError::InvalidIdentifier(Some("id"))));
    let number = ok.replace(r#""id":"1""#, r#""id":18446744073709551615"#);
    assert_eq!(handle(&text(&number)).map(|h| h.data().id).ok(), Some(u64::MAX));
}

#[test]
fn keys_are_compared_after_decoding() {
    let text = r#"{"se\u006cf":"s","id":"1","key":"K","expand":"e","fields":{"summ\u0061ry":"x"}}"#;
    let handle = handle(&text).unwrap();
    assert_eq!(handle.data().self_link, "s");
    assert_eq!(handle.data().summary(), Some("x".to_string()));
    let twice = r#"{"se\u006cf":"s","self":"t","id":"1","key":"K","expand":"e","fields":{}}"#;
    assert_eq!(self::handle(twice).err(), Some(DecodeError::DuplicateField("self")));
}

#[test]
fn the_last_of_repeated_members_counts() {
    let text = [
        r#"{"self":"s","id":"1","key":"K","expand":"e","x":1,"x":2,"#,
        r#""fields":{"a":"1","a":"2"}}"#,
    ]
    .concat();
    let handle = handle(&text).unwrap();
    let issue = handle.data();
    assert!(matches!(issue.access::<u64>("x"), Some(Ok(2))));
    assert!(matches!(issue.field::<String>("a"), Some(Ok(ref v)) if v == "2"));
    assert_eq!(issue.document.other("x"), Some(&b"2"[..]));
}

#[test]
fn a_value_that_does_not_decode_is_taken_for_absent() {
    let text = [
        r#"{"self":"s","id":"1","key":"K","expand":"e","#,
        r#""fields":{"summary":5,"status":{"id":"x"}}}"#,
    ]
    .concat();
    let handle = handle(&text).unwrap();
    let issue = handle.data();
    assert_eq!(issue.summary(), None);
    assert!(issue.status().is_none());
    let wrong = issue.field::<String>("summary");
    assert!(matches!(wrong, Some(Err(DecodeError::UnexpectedType(None)))));
    assert!(matches!(
        issue.field::<Status>("status"),
        Some(Err(DecodeError::MissingRequiredField("description")))
    ));
    let nested = br#"{"id":"1","self":"s","filename":"f","author":{"active":3}}"#;
    assert_eq!(
        Attachment::from_json(nested).err(),
        Some(DecodeError::UnexpectedType(Some("active")))
    );
    let nested = br#"{"id":"1","self":"s","filename":"f","author":[]}"#;
    assert_eq!(
        Attachment::from_json(nested).err(),
        Some(DecodeError::UnexpectedType(Some("author")))
    );
    assert!(issue.field::<String>("absent").is_none());
    // the rest of the issue is still there
    assert_eq!(issue.key, "K");
}

#[test]
fn errors_are_described() {
    assert_eq!(DecodeError::MissingRequiredField("key").describe(), "missing field `key`");
    assert_eq!(DecodeError::DuplicateField("id").describe(), "duplicate field `id`");
    assert_eq!(DecodeError::MalformedDocument.describe(), "the document is not valid JSON");
    assert_eq!(
        DecodeError::InvalidIdentifier(None).describe(),
        "an identifier is not an unsigned 64-bit number"
    );
    assert_eq!(DecodeError::UnexpectedType(None).describe(), "a value is not of the expected type");
    assert_eq!(
        DecodeError::UnexpectedType(Some("self")).describe(),
        "field `self` is not of the expected type"
    );
    assert_eq!(
        DecodeError::InvalidIdentifier(Some("id")).describe(),
        "field `id` is not an unsigned 64-bit number"
    );
    assert_eq!(DecodeError::MissingRequiredField("key").field(), Some("key"));
    assert_eq!(DecodeError::DuplicateField("id").field(), Some("id"));
    assert_eq!(DecodeError::MalformedDocument.field(), None);
    assert_eq!(
        DecodeError::UnexpectedType(None).named("a"),
        DecodeError::UnexpectedType(Some("a"))
    );
    assert_eq!(
        DecodeError::UnexpectedType(Some("inner")).named("outer"),
        DecodeError::UnexpectedType(Some("inner"))
    );
    assert_eq!(DecodeError::PathNotFound.named("a"), DecodeError::PathNotFound);
    assert_eq!(DecodeError::PathNotFound.describe(), "the path leads nowhere in the document");
}
