use jira_rs::cli::{
    get_level, parse_number, try_into_validate, IssueCreate, IssueMetadata, IssuesGet,
    IssuesSearch, MetaKind,
};
use jira_rs::client::{normalize_body, retrieve, status_is_fault, Authentication, ResponseError};
use jira_rs::error::DecodeError;
use jira_rs::models::cow::CowStr;
use jira_rs::models::empty::Empty;
use jira_rs::models::issue::IssueHandle;
use jira_rs::models::smol_cow::{SmolCow, ToSmol};
use jira_rs::object::Object;
use jira_rs::options::validate::ValidateQuery;
use std::borrow::Cow;

#[test]
fn credentials_are_split_at_the_colon() {
    let Authentication::Basic(user, password) = Authentication::basic("me", "secret");
    assert_eq!((user.as_str(), password.as_str()), ("me", "secret"));
    let Authentication::Basic(user, password) =
        Authentication::from_credentials("me:secret").expect("credentials");
    assert_eq!((user.as_str(), password.as_str()), ("me", "secret"));
    let Authentication::Basic(user, password) =
        Authentication::from_credentials(":a:b").expect("credentials");
    assert_eq!((user.as_str(), password.as_str()), ("", "a"));
    assert!(Authentication::from_credentials("nocolon").is_none());
    assert!(Authentication::from_credentials("").is_none());
}

#[test]
fn answers_are_read_by_status() {
    assert!(!status_is_fault(200));
    assert!(!status_is_fault(399));
    assert!(status_is_fault(400));
    assert!(status_is_fault(404));
    assert!(status_is_fault(599));
    assert!(!status_is_fault(600));

    let fault = br#"{"errorMessages": ["no such issue"], "errors": {"key": "unknown"}}"#;
    match retrieve::<Empty>(404, fault.to_vec()) {
        Err(ResponseError::Fault(fault)) => {
            assert_eq!(fault.code, 404);
            assert_eq!(fault.errors.messages, vec!["no such issue".to_string()]);
            assert_eq!(fault.errors.errors.get("key"), Some(&"unknown".to_string()));
        }
        other => panic!("expected a fault, got {:?}", other.map(|_| ())),
    }
    match retrieve::<Empty>(500, b"<html>".to_vec()) {
        Err(ResponseError::Decode(e)) => assert_eq!(e, DecodeError::MalformedDocument),
        other => panic!("expected a decode error, got {:?}", other.map(|_| ())),
    }
    assert!(retrieve::<Empty>(204, Vec::new()).is_ok());
    assert!(retrieve::<Empty>(200, b"null".to_vec()).is_ok());
    assert!(retrieve::<Empty>(200, b"{}".to_vec()).is_ok());
    match retrieve::<Empty>(200, br#"{"a": 1}"#.to_vec()) {
        Err(ResponseError::Decode(e)) => assert_eq!(e, DecodeError::UnexpectedType(None)),
        other => panic!("expected a decode error, got {:?}", other.map(|_| ())),
    }
    match retrieve::<IssueHandleData>(200, Vec::new()) {
        Err(ResponseError::Decode(e)) => assert_eq!(e, DecodeError::MissingRequiredField("self")),
        other => panic!("expected a decode error, got {:?}", other.map(|_| ())),
    }
    assert_eq!(normalize_body(Vec::new()), b"{}".to_vec());
    assert_eq!(normalize_body(b"null".to_vec()), b"{}".to_vec());
    assert_eq!(normalize_body(b"nul".to_vec()), b"nul".to_vec());
    assert_eq!(normalize_body(b" null".to_vec()), b" null".to_vec());
}

type IssueHandleData = jira_rs::models::issue::Issue;

#[test]
fn handles_are_made_from_answers() {
    let text = br#"{"self":"s","id":"1","key":"K","expand":"","fields":{}}"#;
    let handle = IssueHandle::try_new(text.to_vec()).unwrap();
    assert_eq!(handle.data().key, "K");
    assert_eq!(handle.data().document.raw(), text);
}

#[test]
fn log_levels_stop_at_five() {
    assert_eq!(get_level(0), 0);
    assert_eq!(get_level(4), 4);
    assert_eq!(get_level(5), 5);
    assert_eq!(get_level(u64::MAX), 5);
}

#[test]
fn validation_levels_are_read_from_the_command_line() {
    assert_eq!(try_into_validate("warn"), Ok(ValidateQuery::Warn));
    assert_eq!(
        try_into_validate("lax"),
        Err("expected one of [strict, warn, none], got 'lax'".to_string())
    );
}

#[test]
fn numbers_are_read_as_the_standard_library_reads_them() {
    for text in ["0", "42", "+42", "007", "18446744073709551615", "", "+", "-1", "4 2", "x1",
        "18446744073709551616", "++1", "1+"]
    {
        assert_eq!(parse_number(text), text.parse::<u64>().ok(), "for {:?}", text);
    }
}

#[test]
fn commands_become_options() {
    let get = IssuesGet {
        fields_by_key: true,
        update_history: false,
        fields: Some(vec!["a".to_string(), "-b".to_string()]),
        expand: None,
        properties: Some(vec![]),
    };
    assert_eq!(get.to_options().to_query(), Some("fields=a%2C-b&fieldsByKeys=true".to_string()));

    let create = IssueCreate { update_history: true };
    assert_eq!(create.to_options().to_query(), Some("updateHistory=true".to_string()));
    let create = IssueCreate { update_history: false };
    assert_eq!(create.to_options().to_query(), None);

    let search = IssuesSearch {
        fields_by_key: false,
        expand: Some(vec!["names".to_string()]),
        fields: None,
        max_results: Some(10),
        properties: None,
        start_at: None,
        validate: Some(ValidateQuery::Off),
    };
    let mut options = search.as_options();
    options.jql(Some("a=b"));
    assert_eq!(
        options.to_query(),
        Some("jql=a%3Db&maxResults=10&validateQuery=none&expand=names".to_string())
    );
}

#[test]
fn metadata_commands_sort_ids_from_keys() {
    let meta = IssueMetadata {
        projects: Some(vec!["10".to_string(), "KEY".to_string(), "+7".to_string()]),
        issue_types: Some(vec!["Story".to_string(), "3".to_string(), "Epic".to_string()]),
        edit: None,
        short: false,
    };
    assert_eq!(
        meta.to_options().to_query(),
        Some(
            "projectIds=10%2C7&projectKeys=KEY&issuetypeIds=3&issuetypeNames=Story%2CEpic\
             &expand=projects.issuetypes.fields"
                .to_string()
        )
    );
    match meta.kind() {
        MetaKind::Create(options) => assert_eq!(options.to_query(), meta.to_options().to_query()),
        MetaKind::Edit(key) => panic!("expected the metadata of creating issues, got {}", key),
    }
    let short = IssueMetadata { projects: None, issue_types: None, edit: None, short: true };
    assert_eq!(short.to_options().to_query(), None);
    let edit = IssueMetadata {
        projects: None,
        issue_types: None,
        edit: Some("PROJ-1".to_string()),
        short: false,
    };
    assert!(matches!(edit.kind(), MetaKind::Edit(ref key) if key == "PROJ-1"));
}

#[test]
fn small_strings_are_owned_on_demand() {
    let mut cow: SmolCow<str> = SmolCow::from_str("borrowed");
    assert!(cow.is_borrowed());
    assert!(!cow.is_owned());
    assert_eq!(cow.as_str(), "borrowed");
    let owned = cow.as_mut();
    assert_eq!(owned.as_str(), "borrowed");
    *owned = "changed".to_smol();
    assert!(cow.is_owned());
    assert_eq!(cow.as_str(), "changed");
    assert_eq!(cow.to_smol().as_str(), "changed");
    let again: SmolCow<str> = SmolCow::from_smol("x".to_smol());
    assert!(again.is_owned());
    assert_eq!(SmolCow::<str>::from_str("y").to_smol().as_str(), "y");
}

const INPUT: &'static str = r#"{"b": "I should be borrowed"}"#;

#[test]
fn deserialize_is_borrowed() {
    let object = Object::parse(INPUT.as_bytes()).unwrap();
    let test = CowStr::deserialize(object.value(0).unwrap()).unwrap();

    match test.0 {
        Cow::Borrowed(_) => {}
        Cow::Owned(_) => panic!("CowStr failed to deserialize a borrowed str"),
    }
}

#[test]
fn texts_with_escapes_are_owned() {
    let text = CowStr::deserialize(br#""a\tb""#).unwrap();
    assert!(!text.is_borrowed());
    assert_eq!(&*text.0, "a\tb");
    let text = CowStr::deserialize(br#""plain""#).unwrap();
    assert!(text.is_borrowed());
    assert_eq!(&*text.0, "plain");
    assert_eq!(CowStr::deserialize(b"5").err(), Some(DecodeError::UnexpectedType(None)));
    let text = CowStr::from_str("I should be borrowed");
    assert!(text.is_borrowed());
    assert_eq!(&*text.0, "I should be borrowed");
}
