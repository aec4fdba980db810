//! The entities that occur inside issues.

use crate::decode::{list, FromJson, Reasons};
use crate::error::DecodeError;
use crate::id::Id;
use crate::json::json_null;
use crate::models::issue::Issue;
use crate::object::{
    id_holds, optional_holds, optional_rejects, record, required_holds, required_rejects, unique,
    Object, Table,
};
use vstd::prelude::*;

verus! {

/// The current status of an issue, such as "In Progress" or "Done".
#[derive(Debug, Clone)]
pub struct Status {
    pub description: String,
    pub icon_url: String,
    pub id: u64,
    pub name: String,
    pub self_link: String,
}

impl FromJson for Status {
    open spec fn rejects(raw: Seq<u8>) -> Option<DecodeError> {
        match record(raw) {
            Err(e) => Some(e),
            Ok(f) => required_rejects::<String>(raw, f, "description")
                .otherwise(required_rejects::<String>(raw, f, "iconUrl"))
                .otherwise(required_rejects::<Id>(raw, f, "id"))
                .otherwise(required_rejects::<String>(raw, f, "name"))
                .otherwise(required_rejects::<String>(raw, f, "self")),
        }
    }

    open spec fn holds(&self, raw: Seq<u8>) -> bool {
        match record(raw) {
            Err(_) => false,
            Ok(f) => {
                &&& required_holds(self.description, raw, f, "description")
                &&& required_holds(self.icon_url, raw, f, "iconUrl")
                &&& id_holds(self.id, raw, f, "id")
                &&& required_holds(self.name, raw, f, "name")
                &&& required_holds(self.self_link, raw, f, "self")
            },
        }
    }

    fn from_json(raw: &[u8]) -> (r: Result<Self, DecodeError>) {
        let object = Object::parse(raw)?;
        let description: String = object.required("description")?;
        let icon_url: String = object.required("iconUrl")?;
        let id = object.required_id("id")?;
        let name: String = object.required("name")?;
        let self_link: String = object.required("self")?;
        Ok(Status { description, icon_url, id, name, self_link })
    }
}

/// A user of the tracker.
#[derive(Debug, Clone)]
pub struct User {
    pub active: bool,
    pub avatar_urls: Table<String>,
    pub display_name: String,
    pub email_address: String,
    pub key: Option<String>,
    pub name: String,
    pub self_link: String,
    pub timezone: Option<String>,
}

impl FromJson for User {
    open spec fn rejects(raw: Seq<u8>) -> Option<DecodeError> {
        match record(raw) {
            Err(e) => Some(e),
            Ok(f) => required_rejects::<bool>(raw, f, "active")
                .otherwise(required_rejects::<Table<String>>(raw, f, "avatarUrls"))
                .otherwise(required_rejects::<String>(raw, f, "displayName"))
                .otherwise(required_rejects::<String>(raw, f, "emailAddress"))
                .otherwise(optional_rejects::<String>(raw, f, "key"))
                .otherwise(required_rejects::<String>(raw, f, "name"))
                .otherwise(required_rejects::<String>(raw, f, "self"))
                .otherwise(optional_rejects::<String>(raw, f, "timeZone")),
        }
    }

    open spec fn holds(&self, raw: Seq<u8>) -> bool {
        match record(raw) {
            Err(_) => false,
            Ok(f) => {
                &&& required_holds(self.active, raw, f, "active")
                &&& required_holds(self.avatar_urls, raw, f, "avatarUrls")
                &&& required_holds(self.display_name, raw, f, "displayName")
                &&& required_holds(self.email_address, raw, f, "emailAddress")
                &&& optional_holds(self.key, raw, f, "key")
                &&& required_holds(self.name, raw, f, "name")
                &&& required_holds(self.self_link, raw, f, "self")
                &&& optional_holds(self.timezone, raw, f, "timeZone")
            },
        }
    }

    fn from_json(raw: &[u8]) -> (r: Result<Self, DecodeError>) {
        let object = Object::parse(raw)?;
        let active: bool = object.required("active")?;
        let avatar_urls: Table<String> = object.required("avatarUrls")?;
        let display_name: String = object.required("displayName")?;
        let email_address: String = object.required("emailAddress")?;
        let key: Option<String> = object.optional("key")?;
        let name: String = object.required("name")?;
        let self_link: String = object.required("self")?;
        let timezone: Option<String> = object.optional("timeZone")?;
        Ok(User {
            active,
            avatar_urls,
            display_name,
            email_address,
            key,
            name,
            self_link,
            timezone,
        })
    }
}

/// The kind of an issue, such as "Story" or "Epic".
#[derive(Debug, Clone)]
pub struct IssueType {
    pub description: String,
    pub icon_url: String,
    pub id: u64,
    pub name: String,
    pub self_link: String,
    pub subtask: bool,
}

impl FromJson for IssueType {
    open spec fn rejects(raw: Seq<u8>) -> Option<DecodeError> {
        match record(raw) {
            Err(e) => Some(e),
            Ok(f) => required_rejects::<String>(raw, f, "description")
                .otherwise(required_rejects::<String>(raw, f, "iconUrl"))
                .otherwise(required_rejects::<Id>(raw, f, "id"))
                .otherwise(required_rejects::<String>(raw, f, "name"))
                .otherwise(required_rejects::<String>(raw, f, "self"))
                .otherwise(required_rejects::<bool>(raw, f, "subtask")),
        }
    }

    open spec fn holds(&self, raw: Seq<u8>) -> bool {
        match record(raw) {
            Err(_) => false,
            Ok(f) => {
                &&& required_holds(self.description, raw, f, "description")
                &&& required_holds(self.icon_url, raw, f, "iconUrl")
                &&& id_holds(self.id, raw, f, "id")
                &&& required_holds(self.name, raw, f, "name")
                &&& required_holds(self.self_link, raw, f, "self")
                &&& required_holds(self.subtask, raw, f, "subtask")
            },
        }
    }

    fn from_json(raw: &[u8]) -> (r: Result<Self, DecodeError>) {
        let object = Object::parse(raw)?;
        let description: String = object.required("description")?;
        let icon_url: String = object.required("iconUrl")?;
        let id = object.required_id("id")?;
        let name: String = object.required("name")?;
        let self_link: String = object.required("self")?;
        let subtask: bool = object.required("subtask")?;
        Ok(IssueType { description, icon_url, id, name, self_link, subtask })
    }
}

/// A release of a project.
#[derive(Debug, Clone)]
pub struct Version {
    pub archived: bool,
    pub id: u64,
    pub name: String,
    pub released: bool,
    pub self_link: String,
}

impl FromJson for Version {
    open spec fn rejects(raw: Seq<u8>) -> Option<DecodeError> {
        match record(raw) {
            Err(e) => Some(e),
            Ok(f) => required_rejects::<bool>(raw, f, "archived")
                .otherwise(required_rejects::<Id>(raw, f, "id"))
                .otherwise(required_rejects::<String>(raw, f, "name"))
                .otherwise(required_rejects::<bool>(raw, f, "released"))
                .otherwise(required_rejects::<String>(raw, f, "self")),
        }
    }

    open spec fn holds(&self, raw: Seq<u8>) -> bool {
        match record(raw) {
            Err(_) => false,
            Ok(f) => {
                &&& required_holds(self.archived, raw, f, "archived")
                &&& id_holds(self.id, raw, f, "id")
                &&& required_holds(self.name, raw, f, "name")
                &&& required_holds(self.released, raw, f, "released")
                &&& required_holds(self.self_link, raw, f, "self")
            },
        }
    }

    fn from_json(raw: &[u8]) -> (r: Result<Self, DecodeError>) {
        let object = Object::parse(raw)?;
        let archived: bool = object.required("archived")?;
        let id = object.required_id("id")?;
        let name: String = object.required("name")?;
        let released: bool = object.required("released")?;
        let self_link: String = object.required("self")?;
        Ok(Version { archived, id, name, released, self_link })
    }
}

/// Who may see the object that this belongs to.
#[derive(Debug, Clone)]
pub struct Visibility {
    pub visibility_type: String,
    pub value: String,
}

impl FromJson for Visibility {
    open spec fn rejects(raw: Seq<u8>) -> Option<DecodeError> {
        match record(raw) {
            Err(e) => Some(e),
            Ok(f) => required_rejects::<String>(raw, f, "type")
                .otherwise(required_rejects::<String>(raw, f, "value")),
        }
    }

    open spec fn holds(&self, raw: Seq<u8>) -> bool {
        match record(raw) {
            Err(_) => false,
            Ok(f) => {
                &&& required_holds(self.visibility_type, raw, f, "type")
                &&& required_holds(self.value, raw, f, "value")
            },
        }
    }

    fn from_json(raw: &[u8]) -> (r: Result<Self, DecodeError>) {
        let object = Object::parse(raw)?;
        let visibility_type: String = object.required("type")?;
        let value: String = object.required("value")?;
        Ok(Visibility { visibility_type, value })
    }
}

/// A comment on an issue.
#[derive(Debug, Clone)]
pub struct Comment {
    pub id: u64,
    pub self_link: String,
    pub author: Option<User>,
    pub update_author: Option<User>,
    pub created: String,
    pub updated: String,
    pub body: String,
    pub visibility: Option<Visibility>,
}

impl FromJson for Comment {
    open spec fn rejects(raw: Seq<u8>) -> Option<DecodeError> {
        match record(raw) {
            Err(e) => Some(e),
            Ok(f) => required_rejects::<Id>(raw, f, "id")
                .otherwise(required_rejects::<String>(raw, f, "self"))
                .otherwise(optional_rejects::<User>(raw, f, "author"))
                .otherwise(optional_rejects::<User>(raw, f, "updateAuthor"))
                .otherwise(required_rejects::<String>(raw, f, "created"))
                .otherwise(required_rejects::<String>(raw, f, "updated"))
                .otherwise(required_rejects::<String>(raw, f, "body"))
                .otherwise(optional_rejects::<Visibility>(raw, f, "visibility")),
        }
    }

    open spec fn holds(&self, raw: Seq<u8>) -> bool {
        match record(raw) {
            Err(_) => false,
            Ok(f) => {
                &&& id_holds(self.id, raw, f, "id")
                &&& required_holds(self.self_link, raw, f, "self")
                &&& optional_holds(self.author, raw, f, "author")
                &&& optional_holds(self.update_author, raw, f, "updateAuthor")
                &&& required_holds(self.created, raw, f, "created")
                &&& required_holds(self.updated, raw, f, "updated")
                &&& required_holds(self.body, raw, f, "body")
                &&& optional_holds(self.visibility, raw, f, "visibility")
            },
        }
    }

    fn from_json(raw: &[u8]) -> (r: Result<Self, DecodeError>) {
        let object = Object::parse(raw)?;
        let id = object.required_id("id")?;
        let self_link: String = object.required("self")?;
        let author: Option<User> = object.optional("author")?;
        let update_author: Option<User> = object.optional("updateAuthor")?;
        let created: String = object.required("created")?;
        let updated: String = object.required("updated")?;
        let body: String = object.required("body")?;
        let visibility: Option<Visibility> = object.optional("visibility")?;
        Ok(Comment { id, self_link, author, update_author, created, updated, body, visibility })
    }
}

/// The project that an issue belongs to.
#[derive(Debug, Clone)]
pub struct Project {
    pub id: u64,
    pub self_link: String,
    pub key: String,
    pub name: String,
}

impl FromJson for Project {
    open spec fn rejects(raw: Seq<u8>) -> Option<DecodeError> {
        match record(raw) {
            Err(e) => Some(e),
            Ok(f) => required_rejects::<Id>(raw, f, "id")
                .otherwise(required_rejects::<String>(raw, f, "self"))
                .otherwise(required_rejects::<String>(raw, f, "key"))
                .otherwise(required_rejects::<String>(raw, f, "name")),
        }
    }

    open spec fn holds(&self, raw: Seq<u8>) -> bool {
        match record(raw) {
            Err(_) => false,
            Ok(f) => {
                &&& id_holds(self.id, raw, f, "id")
                &&& required_holds(self.self_link, raw, f, "self")
                &&& required_holds(self.key, raw, f, "key")
                &&& required_holds(self.name, raw, f, "name")
            },
        }
    }

    fn from_json(raw: &[u8]) -> (r: Result<Self, DecodeError>) {
        let object = Object::parse(raw)?;
        let id = object.required_id("id")?;
        let self_link: String = object.required("self")?;
        let key: String = object.required("key")?;
        let name: String = object.required("name")?;
        Ok(Project { id, self_link, key, name })
    }
}

/// How two linked issues relate, told from either side.
#[derive(Debug, Clone)]
pub struct LinkType {
    pub id: u64,
    pub inward: String,
    pub name: String,
    pub outward: String,
    pub self_link: String,
}

impl FromJson for LinkType {
    open spec fn rejects(raw: Seq<u8>) -> Option<DecodeError> {
        match record(raw) {
            Err(e) => Some(e),
            Ok(f) => required_rejects::<Id>(raw, f, "id")
                .otherwise(required_rejects::<String>(raw, f, "inward"))
                .otherwise(required_rejects::<String>(raw, f, "name"))
                .otherwise(required_rejects::<String>(raw, f, "outward"))
                .otherwise(required_rejects::<String>(raw, f, "self")),
        }
    }

    open spec fn holds(&self, raw: Seq<u8>) -> bool {
        match record(raw) {
            Err(_) => false,
            Ok(f) => {
                &&& id_holds(self.id, raw, f, "id")
                &&& required_holds(self.inward, raw, f, "inward")
                &&& required_holds(self.name, raw, f, "name")
                &&& required_holds(self.outward, raw, f, "outward")
                &&& required_holds(self.self_link, raw, f, "self")
            },
        }
    }

    fn from_json(raw: &[u8]) -> (r: Result<Self, DecodeError>) {
        let object = Object::parse(raw)?;
        let id = object.required_id("id")?;
        let inward: String = object.required("inward")?;
        let name: String = object.required("name")?;
        let outward: String = object.required("outward")?;
        let self_link: String = object.required("self")?;
        Ok(LinkType { id, inward, name, outward, self_link })
    }
}

/// A link from one issue to another.
#[derive(Debug)]
pub struct IssueLink {
    pub id: u64,
    pub self_link: String,
    pub outward_issue: Option<Issue>,
    pub inward_issue: Option<Issue>,
    pub link_type: LinkType,
}

impl FromJson for IssueLink {
    open spec fn rejects(raw: Seq<u8>) -> Option<DecodeError> {
        match record(raw) {
            Err(e) => Some(e),
            Ok(f) => required_rejects::<Id>(raw, f, "id")
                .otherwise(required_rejects::<String>(raw, f, "self"))
                .otherwise(optional_rejects::<Issue>(raw, f, "outwardIssue"))
                .otherwise(optional_rejects::<Issue>(raw, f, "inwardIssue"))
                .otherwise(required_rejects::<LinkType>(raw, f, "type")),
        }
    }

    open spec fn holds(&self, raw: Seq<u8>) -> bool {
        match record(raw) {
            Err(_) => false,
            Ok(f) => {
                &&& id_holds(self.id, raw, f, "id")
                &&& required_holds(self.self_link, raw, f, "self")
                &&& optional_holds(self.outward_issue, raw, f, "outwardIssue")
                &&& optional_holds(self.inward_issue, raw, f, "inwardIssue")
                &&& required_holds(self.link_type, raw, f, "type")
            },
        }
    }

    fn from_json(raw: &[u8]) -> (r: Result<Self, DecodeError>) {
        let object = Object::parse(raw)?;
        let id = object.required_id("id")?;
        let self_link: String = object.required("self")?;
        let outward_issue: Option<Issue> = object.optional("outwardIssue")?;
        let inward_issue: Option<Issue> = object.optional("inwardIssue")?;
        let link_type: LinkType = object.required("type")?;
        Ok(IssueLink { id, self_link, outward_issue, inward_issue, link_type })
    }
}

/// How an issue was resolved.
#[derive(Debug, Clone)]
pub struct Resolution {
    pub name: String,
}

impl FromJson for Resolution {
    open spec fn rejects(raw: Seq<u8>) -> Option<DecodeError> {
        match record(raw) {
            Err(e) => Some(e),
            Ok(f) => required_rejects::<String>(raw, f, "name"),
        }
    }

    open spec fn holds(&self, raw: Seq<u8>) -> bool {
        match record(raw) {
            Err(_) => false,
            Ok(f) => {
                &&& required_holds(self.name, raw, f, "name")
            },
        }
    }

    fn from_json(raw: &[u8]) -> (r: Result<Self, DecodeError>) {
        let object = Object::parse(raw)?;
        let name: String = object.required("name")?;
        Ok(Resolution { name })
    }
}

/// A file attached to an issue.
#[derive(Debug, Clone)]
pub struct Attachment {
    pub id: u64,
    pub self_link: String,
    pub filename: String,
    pub author: User,
    pub created: String,
    pub size: u64,
    pub mime_type: String,
    pub content: String,
    pub thumbnail: Option<String>,
}

impl FromJson for Attachment {
    open spec fn rejects(raw: Seq<u8>) -> Option<DecodeError> {
        match record(raw) {
            Err(e) => Some(e),
            Ok(f) => required_rejects::<Id>(raw, f, "id")
                .otherwise(required_rejects::<String>(raw, f, "self"))
                .otherwise(required_rejects::<String>(raw, f, "filename"))
                .otherwise(required_rejects::<User>(raw, f, "author"))
                .otherwise(required_rejects::<String>(raw, f, "created"))
                .otherwise(required_rejects::<u64>(raw, f, "size"))
                .otherwise(required_rejects::<String>(raw, f, "mimeType"))
                .otherwise(required_rejects::<String>(raw, f, "content"))
                .otherwise(optional_rejects::<String>(raw, f, "thumbnail")),
        }
    }

    open spec fn holds(&self, raw: Seq<u8>) -> bool {
        match record(raw) {
            Err(_) => false,
            Ok(f) => {
                &&& id_holds(self.id, raw, f, "id")
                &&& required_holds(self.self_link, raw, f, "self")
                &&& required_holds(self.filename, raw, f, "filename")
                &&& required_holds(self.author, raw, f, "author")
                &&& required_holds(self.created, raw, f, "created")
                &&& required_holds(self.size, raw, f, "size")
                &&& required_holds(self.mime_type, raw, f, "mimeType")
                &&& required_holds(self.content, raw, f, "content")
                &&& optional_holds(self.thumbnail, raw, f, "thumbnail")
            },
        }
    }

    fn from_json(raw: &[u8]) -> (r: Result<Self, DecodeError>) {
        let object = Object::parse(raw)?;
        let id = object.required_id("id")?;
        let self_link: String = object.required("self")?;
        let filename: String = object.required("filename")?;
        let author: User = object.required("author")?;
        let created: String = object.required("created")?;
        let size: u64 = object.required("size")?;
        let mime_type: String = object.required("mimeType")?;
        let content: String = object.required("content")?;
        let thumbnail: Option<String> = object.optional("thumbnail")?;
        Ok(Attachment {
            id,
            self_link,
            filename,
            author,
            created,
            size,
            mime_type,
            content,
            thumbnail,
        })
    }
}

/// The priority of an issue.
#[derive(Debug, Clone)]
pub struct Priority {
    pub icon_url: String,
    pub id: u64,
    pub name: String,
    pub self_link: String,
}

impl FromJson for Priority {
    open spec fn rejects(raw: Seq<u8>) -> Option<DecodeError> {
        match record(raw) {
            Err(e) => Some(e),
            Ok(f) => required_rejects::<String>(raw, f, "iconUrl")
                .otherwise(required_rejects::<Id>(raw, f, "id"))
                .otherwise(required_rejects::<String>(raw, f, "name"))
                .otherwise(required_rejects::<String>(raw, f, "self")),
        }
    }

    open spec fn holds(&self, raw: Seq<u8>) -> bool {
        match record(raw) {
            Err(_) => false,
            Ok(f) => {
                &&& required_holds(self.icon_url, raw, f, "iconUrl")
                &&& id_holds(self.id, raw, f, "id")
                &&& required_holds(self.name, raw, f, "name")
                &&& required_holds(self.self_link, raw, f, "self")
            },
        }
    }

    fn from_json(raw: &[u8]) -> (r: Result<Self, DecodeError>) {
        let object = Object::parse(raw)?;
        let icon_url: String = object.required("iconUrl")?;
        let id = object.required_id("id")?;
        let name: String = object.required("name")?;
        let self_link: String = object.required("self")?;
        Ok(Priority { icon_url, id, name, self_link })
    }
}

/// The errors that the tracker reports for a request: free-text messages,
/// and messages by the name of the field that they are about.
#[derive(Debug, Clone)]
pub struct ErrorCollection {
    pub messages: Vec<String>,
    pub errors: Table<String>,
}

impl ErrorCollection {
    /// Whether the collection reports anything at all.
    pub fn is_error(&self) -> (r: bool)
        ensures
            r == !(self.errors.pairs@.len() == 0 && self.messages@.len() == 0),
    {
        !(self.errors.is_empty() && self.messages.len() == 0)
    }

    /// The collection that `raw` holds reports nothing: it has no message
    /// and no field error.
    pub open spec fn silent(raw: Seq<u8>) -> bool {
        match record(raw) {
            Err(_) => false,
            Ok(f) => {
                &&& match unique(f, "errorMessages") {
                    Ok(Some(span)) => list(span.of(raw)) matches Ok(messages) && messages.len()
                        == 0,
                    _ => false,
                }
                &&& match unique(f, "errors") {
                    Ok(Some(span)) => record(span.of(raw)) matches Ok(errors) && errors.len() == 0,
                    _ => false,
                }
            },
        }
    }
}

impl FromJson for ErrorCollection {
    open spec fn rejects(raw: Seq<u8>) -> Option<DecodeError> {
        match record(raw) {
            Err(e) => Some(e),
            Ok(f) => required_rejects::<Vec<String>>(raw, f, "errorMessages")
                .otherwise(required_rejects::<Table<String>>(raw, f, "errors")),
        }
    }

    open spec fn holds(&self, raw: Seq<u8>) -> bool {
        match record(raw) {
            Err(_) => false,
            Ok(f) => {
                &&& required_holds(self.messages, raw, f, "errorMessages")
                &&& required_holds(self.errors, raw, f, "errors")
            },
        }
    }

    fn from_json(raw: &[u8]) -> (r: Result<Self, DecodeError>) {
        let object = Object::parse(raw)?;
        let messages: Vec<String> = object.required("errorMessages")?;
        let errors: Table<String> = object.required("errors")?;
        Ok(ErrorCollection { messages, errors })
    }
}

/// The answer to a request that was nested in another: its HTTP status,
/// and the errors it reported, if it reported any.
#[derive(Debug, Clone)]
pub struct NestedResponse {
    pub status: u64,
    pub errors: Option<ErrorCollection>,
}

impl FromJson for NestedResponse {
    open spec fn rejects(raw: Seq<u8>) -> Option<DecodeError> {
        match record(raw) {
            Err(e) => Some(e),
            Ok(f) => required_rejects::<u64>(raw, f, "status")
                .otherwise(required_rejects::<Option<ErrorCollection>>(raw, f, "errorCollection")),
        }
    }

    /// A collection that reports nothing is dropped, as is `null`.
    open spec fn holds(&self, raw: Seq<u8>) -> bool {
        match record(raw) {
            Err(_) => false,
            Ok(f) => {
                &&& required_holds(self.status, raw, f, "status")
                &&& match unique(f, "errorCollection") {
                    Ok(Some(span)) => match self.errors {
                        Some(collection) => !json_null(span.of(raw)) && collection.holds(
                            span.of(raw),
                        ) && !ErrorCollection::silent(span.of(raw)),
                        None => json_null(span.of(raw)) || ErrorCollection::silent(span.of(raw)),
                    },
                    _ => false,
                }
            },
        }
    }

    fn from_json(raw: &[u8]) -> (r: Result<Self, DecodeError>) {
        let object = Object::parse(raw)?;
        let status: u64 = object.required("status")?;
        let collection: Option<ErrorCollection> = object.required("errorCollection")?;
        let errors = match collection {
            Some(collection) => if collection.is_error() {
                Some(collection)
            } else {
                None
            },
            None => None,
        };
        Ok(NestedResponse { status, errors })
    }
}

} // verus!
