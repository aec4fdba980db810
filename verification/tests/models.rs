use jira_rs::decode::FromJson;
use jira_rs::error::DecodeError;
use jira_rs::models::common::{
    Attachment, Comment, ErrorCollection, IssueLink, IssueType, LinkType, NestedResponse,
    Priority, Project, Resolution, Status, User, Version, Visibility,
};
use jira_rs::models::create::{Created, CreatedHandle};
use jira_rs::models::issue::{Issue, IssueHandle};
use jira_rs::models::metadata::{
    FieldSchema, IssueFieldsMeta, IssueTypeMeta, MetaCreate, MetaCreateHandle, MetaEdit,
    MetaEditHandle, Operations, ProjectMeta,
};
use jira_rs::models::search::{Search, SearchHandle};
use serde_json::Value as Json;

fn json(text: &str) -> Json {
    serde_json::from_str(text).expect("the test data is JSON")
}

fn jbytes(json: Json) -> Vec<u8> {
    serde_json::to_vec(&json).expect("the test data serializes")
}

fn object(pairs: Vec<(&str, Json)>) -> Json {
    let mut map = serde_json::Map::new();
    for (key, value) in pairs {
        map.insert(key.to_string(), value);
    }
    Json::Object(map)
}

fn merged(mut into: Json, mut from: Json) -> Json {
    let extra = from.as_object_mut().expect("an object");
    into.as_object_mut().expect("an object").append(extra);
    into
}

fn user() -> Json {
    json(
        r#"{"active": true, "avatarUrls": {"foo": "bar"}, "displayName": "foo",
            "emailAddress": "foo", "key": "foo", "name": "foo", "self": "foo",
            "timeZone": "foo"}"#,
    )
}

fn status() -> Json {
    json(r#"{"description": "foo", "iconUrl": "foo", "id": "42", "name": "foo", "self": "foo"}"#)
}

fn issuetype() -> Json {
    json(
        r#"{"description": "foo", "iconUrl": "foo", "id": "42", "name": "foo", "self": "foo",
            "subtask": true}"#,
    )
}

fn version() -> Json {
    json(r#"{"archived": true, "id": "42", "name": "foo", "released": true, "self": "foo"}"#)
}

fn comment() -> Json {
    json(
        r#"{"id": "42", "self": "foo", "author": null, "update_author": null,
            "created": "foo", "updated": "foo", "body": "foo", "visibility": null}"#,
    )
}

fn comments() -> Json {
    Json::Array(vec![comment(), comment()])
}

fn visibility() -> Json {
    json(r#"{"type": "foo", "value": "foo"}"#)
}

fn project() -> Json {
    json(r#"{"id": "42", "self": "foo", "key": "foo", "name": "foo"}"#)
}

fn linktype() -> Json {
    json(r#"{"id": "42", "self": "foo", "inward": "foo", "outward": "foo", "name": "foo"}"#)
}

fn issuelink() -> Json {
    merged(
        json(r#"{"id": "42", "self": "foo", "outwardIssue": null, "inwardIssue": null}"#),
        object(vec![("type", linktype())]),
    )
}

fn resolution() -> Json {
    json(r#"{"name": "foo"}"#)
}

fn attachment() -> Json {
    merged(
        json(
            r#"{"id": "42", "self": "foo", "filename": "foo", "created": "foo", "size": 42,
                "mimeType": "foo", "content": "foo", "thumbnail": "foo"}"#,
        ),
        object(vec![("author", user())]),
    )
}

fn priority() -> Json {
    json(r#"{"id": "42", "self": "foo", "iconUrl": "foo", "name": "foo"}"#)
}

fn error_collection() -> Json {
    json(r#"{"errorMessages": ["foo", "bar"], "errors": {"foo": "bar"}}"#)
}

fn nested_response() -> Json {
    merged(json(r#"{"status": 200}"#), object(vec![("errorCollection", error_collection())]))
}

fn issue() -> Json {
    let fields = object(vec![
        ("assignee", user()),
        ("creator", user()),
        ("reporter", user()),
        ("summary", json(r#""foo""#)),
        ("status", status()),
        ("description", json(r#""foo""#)),
        ("updated", json(r#""foo""#)),
        ("created", json(r#""foo""#)),
        ("resolutiondate", json(r#""foo""#)),
        ("issuetype", issuetype()),
        ("labels", json(r#"["foo", "bar"]"#)),
        ("fixVersions", Json::Array(vec![version()])),
        ("comment", object(vec![("comments", comments())])),
        ("issuelinks", Json::Array(vec![issuelink()])),
        ("priority", priority()),
        ("resolution", resolution()),
        ("attachment", attachment()),
    ]);
    merged(
        json(
            r#"{"self": "foo", "id": "42", "key": "foo", "expand": "foo",
                "nonstandard": "field", "another": "strange field"}"#,
        ),
        object(vec![("fields", fields)]),
    )
}

fn search() -> Json {
    merged(
        json(r#"{"expand": "foo", "maxResults": 42, "startAt": 42, "total": 42}"#),
        object(vec![("issues", Json::Array(vec![issue()]))]),
    )
}

fn created() -> Json {
    json(r#"{"id": "42", "self": "foo", "key": "foo", "transition": null}"#)
}

fn field_schema() -> Json {
    json(r#"{"type": "foo", "system": "foo"}"#)
}

fn issuefield_meta() -> Json {
    merged(
        json(
            r#"{"required": true, "name": "foo", "fieldId": "42", "defaultValue": null,
                "operations": ["set", "edit"], "allowedValues": null}"#,
        ),
        object(vec![("schema", field_schema())]),
    )
}

fn issuetype_meta() -> Json {
    merged(object(vec![("fields", object(vec![("foo", issuefield_meta())]))]), issuetype())
}

fn project_meta() -> Json {
    merged(object(vec![("issuetypes", Json::Array(vec![issuetype_meta()]))]), project())
}

fn meta_create() -> Json {
    merged(
        json(r#"{"expand": "foo"}"#),
        object(vec![("projects", Json::Array(vec![project_meta()]))]),
    )
}

fn meta_edit() -> Json {
    object(vec![("fields", object(vec![("foo", issuefield_meta())]))])
}

#[test]
fn common_deserialize_user() {
    let json = jbytes(user());
    let user: Result<User, _> = User::from_json(&json);
    assert!(user.is_ok())
}

#[test]
fn common_deserialize_status() {
    let json = jbytes(status());
    let status: Result<Status, _> = Status::from_json(&json);
    assert!(status.is_ok())
}

#[test]
fn common_deserialize_issuetype() {
    let json = jbytes(issuetype());
    let issuetype: Result<IssueType, _> = IssueType::from_json(&json);
    assert!(issuetype.is_ok())
}

#[test]
fn common_deserialize_version() {
    let json = jbytes(version());
    let version: Result<Version, _> = Version::from_json(&json);
    assert!(version.is_ok())
}

#[test]
fn common_deserialize_comment() {
    let json = jbytes(comment());
    let comment: Result<Comment, _> = Comment::from_json(&json);
    assert!(comment.is_ok())
}

#[test]
fn common_deserialize_comments() {
    let json = jbytes(comments());
    let comments: Result<Vec<Comment>, _> = Vec::<Comment>::from_json(&json);
    assert!(comments.is_ok())
}

#[test]
fn common_deserialize_visibility() {
    let json = jbytes(visibility());
    let viz: Result<Visibility, _> = Visibility::from_json(&json);
    assert!(viz.is_ok())
}

#[test]
fn common_deserialize_project() {
    let json = jbytes(project());
    let project: Result<Project, _> = Project::from_json(&json);
    assert!(project.is_ok())
}

#[test]
fn common_deserialize_issuelink() {
    let json = jbytes(issuelink());
    let issuelink: Result<IssueLink, _> = IssueLink::from_json(&json);
    assert!(issuelink.is_ok())
}

#[test]
fn common_deserialize_linktype() {
    let json = jbytes(linktype());
    let linktype: Result<LinkType, _> = LinkType::from_json(&json);
    assert!(linktype.is_ok())
}

#[test]
fn common_deserialize_resolution() {
    let json = jbytes(resolution());
    let resolution: Result<Resolution, _> = Resolution::from_json(&json);
    assert!(resolution.is_ok())
}

#[test]
fn common_deserialize_attachment() {
    let json = jbytes(attachment());
    let attachment: Result<Attachment, _> = Attachment::from_json(&json);
    assert!(attachment.is_ok())
}

#[test]
fn common_deserialize_priority() {
    let json = jbytes(priority());
    let priority: Result<Priority, _> = Priority::from_json(&json);
    assert!(priority.is_ok())
}

#[test]
fn common_deserialize_nested_response() {
    let json = jbytes(nested_response());
    let response: Result<NestedResponse, _> = NestedResponse::from_json(&json);
    assert!(response.is_ok())
}

#[test]
fn common_deserialize_error_collection() {
    let json = jbytes(error_collection());
    let collection: Result<ErrorCollection, _> = ErrorCollection::from_json(&json);
    assert!(collection.is_ok())
}

#[test]
fn deserialize_created_handle() {
    let json = jbytes(created());
    let handle: Result<CreatedHandle, _> = CreatedHandle::try_new(json);
    assert!(handle.is_ok())
}

#[test]
fn deserialize_created() {
    let json = jbytes(created());
    let created: Result<Created, _> = Created::from_json(&json);
    assert!(created.is_ok())
}

#[test]
fn deserialize_issue_handle() {
    let json = jbytes(issue());
    let handle: Result<IssueHandle, _> = IssueHandle::try_new(json);
    assert!(handle.is_ok())
}

#[test]
fn deserialize_issue() {
    let json = jbytes(issue());
    println!("{}", serde_json::to_string_pretty(&issue()).unwrap());
    let issue: Result<Issue, _> = Issue::from_json(&json);
    assert!(issue.is_ok())
}

#[test]
fn deserialize_meta_create() {
    let json = jbytes(meta_create());
    let create: Result<MetaCreate, _> = MetaCreate::from_json(&json);
    assert!(create.is_ok())
}

#[test]
fn deserialize_meta_edit() {
    let json = jbytes(meta_edit());
    let edit: Result<MetaEdit, _> = MetaEdit::from_json(&json);
    assert!(edit.is_ok())
}

#[test]
fn deserialize_project_meta() {
    let json = jbytes(project_meta());
    let project: Result<ProjectMeta, _> = ProjectMeta::from_json(&json);
    assert!(project.is_ok())
}

#[test]
fn deserialize_issuetype_meta() {
    let json = jbytes(issuetype_meta());
    let issuetype: Result<IssueTypeMeta, _> = IssueTypeMeta::from_json(&json);
    assert!(issuetype.is_ok())
}

#[test]
fn deserialize_issuefield_meta() {
    let json = jbytes(issuefield_meta());
    let issuefield: Result<IssueFieldsMeta, _> = IssueFieldsMeta::from_json(&json);
    assert!(issuefield.is_ok())
}

#[test]
fn deserialize_field_schema() {
    let json = jbytes(field_schema());
    let schema: Result<FieldSchema, _> = FieldSchema::from_json(&json);
    assert!(schema.is_ok())
}

#[test]
fn deserialize_search_handle() {
    let json = jbytes(search());
    let search: Result<SearchHandle, _> = SearchHandle::try_new(json);
    assert!(search.is_ok())
}

#[test]
fn deserialize_search() {
    let json = jbytes(search());
    let search: Result<Search, _> = Search::from_json(&json);
    assert!(search.is_ok())
}

#[test]
fn issue_accessors_read_the_fields() {
    let handle = IssueHandle::try_new(jbytes(issue())).unwrap();
    let issue = handle.data();
    assert_eq!(issue.id, 42);
    assert_eq!(issue.assignee().map(|u| u.display_name), Some("foo".to_string()));
    assert_eq!(issue.creator().map(|u| u.active), Some(true));
    assert_eq!(issue.reporter().and_then(|u| u.timezone), Some("foo".to_string()));
    assert_eq!(issue.summary(), Some("foo".to_string()));
    assert_eq!(issue.description(), Some("foo".to_string()));
    assert_eq!(issue.updated(), Some("foo".to_string()));
    assert_eq!(issue.created(), Some("foo".to_string()));
    assert_eq!(issue.resolution_date(), Some("foo".to_string()));
    assert_eq!(issue.status().map(|s| s.id), Some(42));
    assert_eq!(issue.issue_type().map(|t| t.subtask), Some(true));
    assert_eq!(issue.labels(), Some(vec!["foo".to_string(), "bar".to_string()]));
    assert_eq!(issue.fix_versions().map(|v| v.len()), Some(1));
    assert_eq!(issue.priority().map(|p| p.name), Some("foo".to_string()));
    assert_eq!(issue.issue_links().map(|l| l.len()), Some(1));
    assert_eq!(issue.resolution().map(|r| r.name), Some("foo".to_string()));
    assert!(issue.project().is_none());
    // `comment` holds an object here, not the list that the accessor reads
    assert!(issue.comments().is_none());
    // and `attachment` holds one object, not a list
    assert!(issue.attachment().is_none());
    let avatar = issue.assignee().unwrap().avatar_urls;
    assert_eq!(avatar.get("foo"), Some(&"bar".to_string()));
    assert_eq!(avatar.get("bar"), None);
    let inner: Result<u64, _> = issue.field::<u64>("attachment.size").unwrap();
    assert_eq!(inner, Ok(42));
    let first_label = issue.access::<String>("fields.labels.1").unwrap();
    assert_eq!(first_label, Ok("bar".to_string()));
}

#[test]
fn handles_give_the_text_back() {
    let text = jbytes(search());
    let handle = SearchHandle::try_new(text.clone()).unwrap();
    assert_eq!(handle.data().total, 42);
    assert_eq!(handle.data().issues.len(), 1);
    assert_eq!(handle.data().issues[0].key, "foo");
    assert_eq!(handle.data().issues[0].summary(), Some("foo".to_string()));
    assert_eq!(handle.into_inner(), text);

    let text = jbytes(meta_create());
    let handle = MetaCreateHandle::try_new(text.clone()).unwrap();
    let project = &handle.data().projects[0];
    assert_eq!(project.project.key, "foo");
    let fields = project.issue_types[0].fields.as_ref().unwrap();
    let field = fields.get("foo").unwrap();
    assert_eq!(field.operations, vec![Operations::Assign, Operations::Edit]);
    assert!(field.default.is_none());
    assert_eq!(field.schema.as_ref().map(|s| s.field_type.as_str()), Some("foo"));
    assert_eq!(handle.into_inner(), text);

    let text = jbytes(meta_edit());
    let handle = MetaEditHandle::try_new(text.clone()).unwrap();
    assert_eq!(handle.data().fields.len(), 1);
    assert_eq!(handle.into_inner(), text);

    let text = jbytes(created());
    let handle = CreatedHandle::try_new(text.clone()).unwrap();
    assert_eq!(handle.data().id, 42);
    assert!(handle.data().transition.is_none());
    assert_eq!(handle.into_inner(), text);
}

#[test]
fn nested_response_drops_a_silent_collection() {
    let silent = br#"{"status": 204, "errorCollection": {"errorMessages": [], "errors": {}}}"#;
    let response = NestedResponse::from_json(silent).unwrap();
    assert_eq!(response.status, 204);
    assert!(response.errors.is_none());
    let loud = NestedResponse::from_json(&jbytes(nested_response())).unwrap();
    let errors = loud.errors.unwrap();
    assert!(errors.is_error());
    assert_eq!(errors.messages, vec!["foo".to_string(), "bar".to_string()]);
    let absent = br#"{"status": 204}"#;
    assert_eq!(
        NestedResponse::from_json(absent).err(),
        Some(DecodeError::MissingRequiredField("errorCollection"))
    );
}

#[test]
fn operations_go_by_their_lower_case_names() {
    assert_eq!(Operations::from_json(br#""set""#), Ok(Operations::Assign));
    assert_eq!(Operations::from_json(br#""edit""#), Ok(Operations::Edit));
    assert_eq!(Operations::from_json(br#""add""#), Ok(Operations::Add));
    assert_eq!(Operations::from_json(br#""remove""#), Ok(Operations::Remove));
    assert_eq!(Operations::from_json(br#""Set""#), Err(DecodeError::UnexpectedType(None)));
    assert_eq!(Operations::from_json(b"1"), Err(DecodeError::UnexpectedType(None)));
    assert_eq!(Operations::Remove.as_str(), "remove");
}
