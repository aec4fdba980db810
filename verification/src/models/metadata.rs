//! What the tracker says about creating and editing issues: which
//! projects and issue types there are, and which fields each takes.

use crate::decode::{FromJson, RawJson, Reasons};
use crate::error::DecodeError;
use crate::json::{decode_string, json_string};
use crate::models::common::{IssueType, Project};
use crate::object::{
    optional_holds, optional_rejects, record, required_holds, required_rejects, Object, Table,
};
use crate::text::same_text;
use vstd::prelude::*;

verus! {

/// The answer to a request for the metadata of creating issues: the text
/// of the response, and the `MetaCreate` that was read from it.
///
/// The text cannot be changed while the handle lives. A caller borrows
/// the decoded value, or gives the handle up to get the text back.
#[derive(Debug)]
pub struct MetaCreateHandle {
    store: Vec<u8>,
    meta: MetaCreate,
}

impl MetaCreateHandle {
    #[verifier::type_invariant]
    spec fn wf(self) -> bool {
        self.meta.holds(self.store@)
    }

    /// The text that the handle owns.
    pub closed spec fn store(&self) -> Seq<u8> {
        self.store@
    }

    /// The value that `data` lends.
    pub closed spec fn view(&self) -> MetaCreate {
        self.meta
    }

    /// Reads the response once. On any error there is no handle, and the
    /// text is dropped.
    pub fn try_new(store: Vec<u8>) -> (r: Result<Self, DecodeError>)
        ensures
            match r {
                Ok(h) => MetaCreate::rejects(store@) is None && h.store() == store@ && h@.holds(
                    store@,
                ),
                Err(e) => MetaCreate::rejects(store@) == Some(e),
            },
    {
        let meta = MetaCreate::from_json(store.as_slice())?;
        Ok(MetaCreateHandle { store, meta })
    }

    /// The decoded response.
    pub fn data(&self) -> (r: &MetaCreate)
        ensures
            *r == self@,
            r.holds(self.store()),
    {
        proof {
            use_type_invariant(self);
        }
        &self.meta
    }

    /// The text of the response.
    pub fn raw(&self) -> (r: &[u8])
        ensures
            r@ == self.store(),
    {
        self.store.as_slice()
    }

    /// Ends the handle and gives back the text it was made from,
    /// unchanged.
    pub fn into_inner(self) -> (r: Vec<u8>)
        ensures
            r@ == self.store(),
    {
        self.store
    }
}

/// The projects in which the caller may create issues.
#[derive(Debug, Clone)]
pub struct MetaCreate {
    pub expand: Option<String>,
    pub projects: Vec<ProjectMeta>,
}

impl FromJson for MetaCreate {
    open spec fn rejects(raw: Seq<u8>) -> Option<DecodeError> {
        match record(raw) {
            Err(e) => Some(e),
            Ok(f) => optional_rejects::<String>(raw, f, "expand")
                .otherwise(required_rejects::<Vec<ProjectMeta>>(raw, f, "projects")),
        }
    }

    open spec fn holds(&self, raw: Seq<u8>) -> bool {
        match record(raw) {
            Err(_) => false,
            Ok(f) => {
                &&& optional_holds(self.expand, raw, f, "expand")
                &&& required_holds(self.projects, raw, f, "projects")
            },
        }
    }

    fn from_json(raw: &[u8]) -> (r: Result<Self, DecodeError>) {
        let object = Object::parse(raw)?;
        let expand: Option<String> = object.optional("expand")?;
        let projects: Vec<ProjectMeta> = object.required("projects")?;
        Ok(MetaCreate { expand, projects })
    }
}

/// The answer to a request for the metadata of editing one issue: the
/// text of the response, and the `MetaEdit` that was read from it.
///
/// The text cannot be changed while the handle lives. A caller borrows
/// the decoded value, or gives the handle up to get the text back.
#[derive(Debug)]
pub struct MetaEditHandle {
    store: Vec<u8>,
    meta: MetaEdit,
}

impl MetaEditHandle {
    #[verifier::type_invariant]
    spec fn wf(self) -> bool {
        self.meta.holds(self.store@)
    }

    /// The text that the handle owns.
    pub closed spec fn store(&self) -> Seq<u8> {
        self.store@
    }

    /// The value that `data` lends.
    pub closed spec fn view(&self) -> MetaEdit {
        self.meta
    }

    /// Reads the response once. On any error there is no handle, and the
    /// text is dropped.
    pub fn try_new(store: Vec<u8>) -> (r: Result<Self, DecodeError>)
        ensures
            match r {
                Ok(h) => MetaEdit::rejects(store@) is None && h.store() == store@ && h@.holds(
                    store@,
                ),
                Err(e) => MetaEdit::rejects(store@) == Some(e),
            },
    {
        let meta = MetaEdit::from_json(store.as_slice())?;
        Ok(MetaEditHandle { store, meta })
    }

    /// The decoded response.
    pub fn data(&self) -> (r: &MetaEdit)
        ensures
            *r == self@,
            r.holds(self.store()),
    {
        proof {
            use_type_invariant(self);
        }
        &self.meta
    }

    /// The text of the response.
    pub fn raw(&self) -> (r: &[u8])
        ensures
            r@ == self.store(),
    {
        self.store.as_slice()
    }

    /// Ends the handle and gives back the text it was made from,
    /// unchanged.
    pub fn into_inner(self) -> (r: Vec<u8>)
        ensures
            r@ == self.store(),
    {
        self.store
    }
}

/// The fields of one issue that the caller may edit, by name.
#[derive(Debug, Clone)]
pub struct MetaEdit {
    pub fields: Table<IssueFieldsMeta>,
}

impl FromJson for MetaEdit {
    open spec fn rejects(raw: Seq<u8>) -> Option<DecodeError> {
        match record(raw) {
            Err(e) => Some(e),
            Ok(f) => required_rejects::<Table<IssueFieldsMeta>>(raw, f, "fields"),
        }
    }

    open spec fn holds(&self, raw: Seq<u8>) -> bool {
        match record(raw) {
            Err(_) => false,
            Ok(f) => {
                &&& required_holds(self.fields, raw, f, "fields")
            },
        }
    }

    fn from_json(raw: &[u8]) -> (r: Result<Self, DecodeError>) {
        let object = Object::parse(raw)?;
        let fields: Table<IssueFieldsMeta> = object.required("fields")?;
        Ok(MetaEdit { fields })
    }
}

/// A project, and the types of issue that can be created in it.
#[derive(Debug, Clone)]
pub struct ProjectMeta {
    pub project: Project,
    pub issue_types: Vec<IssueTypeMeta>,
}

/// The members of the project itself and the member `issuetypes` stand
/// side by side in one object.
impl FromJson for ProjectMeta {
    open spec fn rejects(raw: Seq<u8>) -> Option<DecodeError> {
        Project::rejects(raw).otherwise(
            match record(raw) {
                Err(e) => Some(e),
                Ok(f) => required_rejects::<Vec<IssueTypeMeta>>(raw, f, "issuetypes"),
            },
        )
    }

    open spec fn holds(&self, raw: Seq<u8>) -> bool {
        &&& self.project.holds(raw)
        &&& match record(raw) {
            Err(_) => false,
            Ok(f) => required_holds(self.issue_types, raw, f, "issuetypes"),
        }
    }

    fn from_json(raw: &[u8]) -> (r: Result<Self, DecodeError>) {
        let project = Project::from_json(raw)?;
        let object = Object::parse(raw)?;
        let issue_types: Vec<IssueTypeMeta> = object.required("issuetypes")?;
        Ok(ProjectMeta { project, issue_types })
    }
}

/// A type of issue, and the fields that an issue of this type takes.
/// The fields are there only where the request asked to expand them.
#[derive(Debug, Clone)]
pub struct IssueTypeMeta {
    pub issue_type: IssueType,
    pub fields: Option<Table<IssueFieldsMeta>>,
}

/// The members of the issue type itself and the member `fields` stand
/// side by side in one object.
impl FromJson for IssueTypeMeta {
    open spec fn rejects(raw: Seq<u8>) -> Option<DecodeError> {
        IssueType::rejects(raw).otherwise(
            match record(raw) {
                Err(e) => Some(e),
                Ok(f) => optional_rejects::<Table<IssueFieldsMeta>>(raw, f, "fields"),
            },
        )
    }

    open spec fn holds(&self, raw: Seq<u8>) -> bool {
        &&& self.issue_type.holds(raw)
        &&& match record(raw) {
            Err(_) => false,
            Ok(f) => optional_holds(self.fields, raw, f, "fields"),
        }
    }

    fn from_json(raw: &[u8]) -> (r: Result<Self, DecodeError>) {
        let issue_type = IssueType::from_json(raw)?;
        let object = Object::parse(raw)?;
        let fields: Option<Table<IssueFieldsMeta>> = object.optional("fields")?;
        Ok(IssueTypeMeta { issue_type, fields })
    }
}

/// One field of an issue: whether it must be set, what it holds, and what
/// can be done to it. The default and the allowed values depend on the
/// field's type and stay as raw JSON.
#[derive(Debug, Clone)]
pub struct IssueFieldsMeta {
    pub required: bool,
    pub name: String,
    pub field_id: String,
    pub default: Option<RawJson>,
    pub schema: Option<FieldSchema>,
    pub operations: Vec<Operations>,
    pub possible_values: Option<Vec<RawJson>>,
}

impl FromJson for IssueFieldsMeta {
    open spec fn rejects(raw: Seq<u8>) -> Option<DecodeError> {
        match record(raw) {
            Err(e) => Some(e),
            Ok(f) => required_rejects::<bool>(raw, f, "required")
                .otherwise(required_rejects::<String>(raw, f, "name"))
                .otherwise(required_rejects::<String>(raw, f, "fieldId"))
                .otherwise(optional_rejects::<RawJson>(raw, f, "defaultValue"))
                .otherwise(optional_rejects::<FieldSchema>(raw, f, "schema"))
                .otherwise(required_rejects::<Vec<Operations>>(raw, f, "operations"))
                .otherwise(optional_rejects::<Vec<RawJson>>(raw, f, "allowedValues")),
        }
    }

    open spec fn holds(&self, raw: Seq<u8>) -> bool {
        match record(raw) {
            Err(_) => false,
            Ok(f) => {
                &&& required_holds(self.required, raw, f, "required")
                &&& required_holds(self.name, raw, f, "name")
                &&& required_holds(self.field_id, raw, f, "fieldId")
                &&& optional_holds(self.default, raw, f, "defaultValue")
                &&& optional_holds(self.schema, raw, f, "schema")
                &&& required_holds(self.operations, raw, f, "operations")
                &&& optional_holds(self.possible_values, raw, f, "allowedValues")
            },
        }
    }

    fn from_json(raw: &[u8]) -> (r: Result<Self, DecodeError>) {
        let object = Object::parse(raw)?;
        let is_required: bool = object.required("required")?;
        let name: String = object.required("name")?;
        let field_id: String = object.required("fieldId")?;
        let default: Option<RawJson> = object.optional("defaultValue")?;
        let schema: Option<FieldSchema> = object.optional("schema")?;
        let operations: Vec<Operations> = object.required("operations")?;
        let possible_values: Option<Vec<RawJson>> = object.optional("allowedValues")?;
        Ok(IssueFieldsMeta {
            required: is_required,
            name,
            field_id,
            default,
            schema,
            operations,
            possible_values,
        })
    }
}

/// The type of a field. A field of the tracker itself names its `system`
/// field; a custom field names its `custom` type and has a `custom_id`.
/// `items` is there where the type is an array.
#[derive(Debug, Clone)]
pub struct FieldSchema {
    pub field_type: String,
    pub system: Option<String>,
    pub custom: Option<String>,
    pub custom_id: Option<u64>,
    pub items: Option<String>,
}

impl FromJson for FieldSchema {
    open spec fn rejects(raw: Seq<u8>) -> Option<DecodeError> {
        match record(raw) {
            Err(e) => Some(e),
            Ok(f) => required_rejects::<String>(raw, f, "type")
                .otherwise(optional_rejects::<String>(raw, f, "system"))
                .otherwise(optional_rejects::<String>(raw, f, "custom"))
                .otherwise(optional_rejects::<u64>(raw, f, "customId"))
                .otherwise(optional_rejects::<String>(raw, f, "items")),
        }
    }

    open spec fn holds(&self, raw: Seq<u8>) -> bool {
        match record(raw) {
            Err(_) => false,
            Ok(f) => {
                &&& required_holds(self.field_type, raw, f, "type")
                &&& optional_holds(self.system, raw, f, "system")
                &&& optional_holds(self.custom, raw, f, "custom")
                &&& optional_holds(self.custom_id, raw, f, "customId")
                &&& optional_holds(self.items, raw, f, "items")
            },
        }
    }

    fn from_json(raw: &[u8]) -> (r: Result<Self, DecodeError>) {
        let object = Object::parse(raw)?;
        let field_type: String = object.required("type")?;
        let system: Option<String> = object.optional("system")?;
        let custom: Option<String> = object.optional("custom")?;
        let custom_id: Option<u64> = object.optional("customId")?;
        let items: Option<String> = object.optional("items")?;
        Ok(FieldSchema { field_type, system, custom, custom_id, items })
    }
}

/// What can be done to a field.
#[derive(Debug, Clone, Copy, PartialEq, Eq)]
pub enum Operations {
    Assign,
    Edit,
    Add,
    Remove,
}

impl Operations {
    /// The name of the operation on the wire.
    pub open spec fn name(self) -> Seq<char> {
        match self {
            Operations::Assign => "set"@,
            Operations::Edit => "edit"@,
            Operations::Add => "add"@,
            Operations::Remove => "remove"@,
        }
    }

    /// The name of the operation on the wire.
    pub fn as_str(&self) -> (r: &'static str)
        ensures
            r@ == self.name(),
    {
        match self {
            Operations::Assign => "set",
            Operations::Edit => "edit",
            Operations::Add => "add",
            Operations::Remove => "remove",
        }
    }
}

/// An operation is sent as its name in lower case.
impl FromJson for Operations {
    open spec fn rejects(raw: Seq<u8>) -> Option<DecodeError> {
        match json_string(raw) {
            Some(s) => if s == "set"@ || s == "edit"@ || s == "add"@ || s == "remove"@ {
                None
            } else {
                Some(DecodeError::UnexpectedType(None))
            },
            None => Some(DecodeError::UnexpectedType(None)),
        }
    }

    open spec fn holds(&self, raw: Seq<u8>) -> bool {
        json_string(raw) == Some(self.name())
    }

    fn from_json(raw: &[u8]) -> (r: Result<Self, DecodeError>) {
        let text = match decode_string(raw) {
            Ok(text) => text,
            Err(_) => { return Err(DecodeError::UnexpectedType(None)); },
        };
        let name = text.as_str();
        if same_text(name, "set") {
            Ok(Operations::Assign)
        } else if same_text(name, "edit") {
            Ok(Operations::Edit)
        } else if same_text(name, "add") {
            Ok(Operations::Add)
        } else if same_text(name, "remove") {
            Ok(Operations::Remove)
        } else {
            Err(DecodeError::UnexpectedType(None))
        }
    }
}

} // verus!
