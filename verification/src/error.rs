//! The library's error type and how each error is reported to a client.

use vstd::prelude::*;
use crate::json::{JsonTree, JsonValue};
use crate::text::push_char;

verus! {

/// A validation failure at a location inside a JSON document.
#[derive(Debug, Clone)]
pub struct ValidationError {
    pub path: String,
    pub message: String,
}

/// Every failure the library reports.
#[derive(Debug)]
pub enum AppError {
    NotFound { what: String, identifier: String },
    AlreadyExists { kind: String, name: String },
    Conflict { expected: u64, actual: u64 },
    SchemaValidation(Vec<ValidationError>),
    /// The fieldSelector query parameter could not be parsed.
    InvalidFieldSelector(String),
    /// A label key or value is malformed.
    InvalidLabel(String),
    /// An annotation key is malformed or the annotations are too large.
    InvalidAnnotation(String),
    /// A finalizer is malformed or repeated.
    InvalidFinalizer(String),
    /// The labelSelector query parameter could not be parsed.
    InvalidLabelSelector(String),
    /// The request body is missing a field or has unknown ones.
    InvalidRequestBody(String),
    /// The request is inconsistent with the kind's scope.
    InvalidRequest(String),
    /// A Schema document is broken.
    InvalidSchema(String),
    /// A Schema cannot be deleted while objects of its kind exist.
    SchemaHasObjects { kind: String },
    /// The object is being deleted; only finalizer removals are accepted.
    ObjectBeingDeleted { name: String },
    /// The kind has no status schema.
    StatusSubresourceNotEnabled { kind: String },
    /// A stored Schema no longer compiles.
    StoredSchemaCompilationFailed { schema_name: String, reason: String },
    /// The namespace may never be deleted.
    ProtectedNamespace { name: String },
    /// The namespace still holds objects.
    NamespaceNotEmpty { namespace: String, object_count: usize },
    /// Anything else; the text is kept for logs and never shown to clients.
    Internal(String),
}

/// Decimal digits of `n`, most significant first.
pub open spec fn decimal(n: nat) -> Seq<char>
    decreases n,
{
    if n < 10 {
        seq![digit_char(n)]
    } else {
        decimal(n / 10).push(digit_char(n % 10))
    }
}

pub open spec fn digit_char(d: nat) -> char {
    if d == 0 { '0' }
    else if d == 1 { '1' }
    else if d == 2 { '2' }
    else if d == 3 { '3' }
    else if d == 4 { '4' }
    else if d == 5 { '5' }
    else if d == 6 { '6' }
    else if d == 7 { '7' }
    else if d == 8 { '8' }
    else { '9' }
}

fn digit(d: u64) -> (c: char)
    requires
        d < 10,
    ensures
        c == digit_char(d as nat),
{
    if d == 0 { '0' }
    else if d == 1 { '1' }
    else if d == 2 { '2' }
    else if d == 3 { '3' }
    else if d == 4 { '4' }
    else if d == 5 { '5' }
    else if d == 6 { '6' }
    else if d == 7 { '7' }
    else if d == 8 { '8' }
    else { '9' }
}

/// Appends the decimal digits of `n` to `s`.
pub fn push_decimal(s: &mut String, n: u64)
    ensures
        final(s)@ == old(s)@ + decimal(n as nat),
    decreases n,
{
    if n < 10 {
        push_char(s, digit(n));
    } else {
        push_decimal(s, n / 10);
        push_char(s, digit(n % 10));
    }
}

/// The HTTP status, the error code and the message that a client receives.
pub open spec fn response_status(e: AppError) -> u16 {
    match e {
        AppError::NotFound { .. } => 404,
        AppError::AlreadyExists { .. } => 409,
        AppError::Conflict { .. } => 409,
        AppError::SchemaValidation(_) => 422,
        AppError::InvalidFieldSelector(_) => 400,
        AppError::InvalidLabel(_) => 400,
        AppError::InvalidAnnotation(_) => 400,
        AppError::InvalidFinalizer(_) => 400,
        AppError::InvalidLabelSelector(_) => 400,
        AppError::InvalidRequestBody(_) => 400,
        AppError::InvalidRequest(_) => 400,
        AppError::InvalidSchema(_) => 422,
        AppError::SchemaHasObjects { .. } => 409,
        AppError::ObjectBeingDeleted { .. } => 409,
        AppError::StatusSubresourceNotEnabled { .. } => 404,
        AppError::StoredSchemaCompilationFailed { .. } => 500,
        AppError::ProtectedNamespace { .. } => 403,
        AppError::NamespaceNotEmpty { .. } => 409,
        AppError::Internal(_) => 500,
    }
}

pub open spec fn response_code(e: AppError) -> Seq<char> {
    match e {
        AppError::NotFound { .. } => "NotFound"@,
        AppError::AlreadyExists { .. } => "AlreadyExists"@,
        AppError::Conflict { .. } => "Conflict"@,
        AppError::SchemaValidation(_) => "SchemaValidation"@,
        AppError::InvalidFieldSelector(_) => "InvalidFieldSelector"@,
        AppError::InvalidLabel(_) => "InvalidLabel"@,
        AppError::InvalidAnnotation(_) => "InvalidAnnotation"@,
        AppError::InvalidFinalizer(_) => "InvalidFinalizer"@,
        AppError::InvalidLabelSelector(_) => "InvalidLabelSelector"@,
        AppError::InvalidRequestBody(_) => "InvalidRequestBody"@,
        AppError::InvalidRequest(_) => "InvalidRequest"@,
        AppError::InvalidSchema(_) => "InvalidSchema"@,
        AppError::SchemaHasObjects { .. } => "SchemaHasObjects"@,
        AppError::ObjectBeingDeleted { .. } => "ObjectBeingDeleted"@,
        AppError::StatusSubresourceNotEnabled { .. } => "StatusSubresourceNotEnabled"@,
        AppError::StoredSchemaCompilationFailed { .. } => "StoredSchemaCompilationFailed"@,
        AppError::ProtectedNamespace { .. } => "ProtectedNamespace"@,
        AppError::NamespaceNotEmpty { .. } => "NamespaceNotEmpty"@,
        AppError::Internal(_) => "Internal"@,
    }
}

pub open spec fn quoted(s: Seq<char>) -> Seq<char> {
    seq!['\''] + s + seq!['\'']
}

pub open spec fn response_message(e: AppError) -> Seq<char> {
    match e {
        AppError::NotFound { what, identifier } => what@ + seq![' '] + quoted(identifier@) + " not found"@,
        AppError::AlreadyExists { kind, name } => kind@ + seq![' '] + quoted(name@) + " already exists"@,
        AppError::Conflict { expected, actual } => "conflict: expected version "@ + decimal(expected as nat)
            + ", actual version "@ + decimal(actual as nat),
        AppError::SchemaValidation(_) => "schema validation failed"@,
        AppError::InvalidFieldSelector(m) => "invalid field selector: "@ + m@,
        AppError::InvalidLabel(m) => "invalid label: "@ + m@,
        AppError::InvalidAnnotation(m) => "invalid annotation: "@ + m@,
        AppError::InvalidFinalizer(m) => "invalid finalizer: "@ + m@,
        AppError::InvalidLabelSelector(m) => "invalid label selector: "@ + m@,
        AppError::InvalidRequestBody(m) => "invalid request body: "@ + m@,
        AppError::InvalidRequest(m) => "invalid request: "@ + m@,
        AppError::InvalidSchema(m) => "invalid schema: "@ + m@,
        AppError::SchemaHasObjects { kind } => "schema has objects: kind="@ + kind@,
        AppError::ObjectBeingDeleted { name } => "object "@ + quoted(name@)
            + " is being deleted; only finalizer modifications are allowed"@,
        AppError::StatusSubresourceNotEnabled { kind } => "status subresource not enabled for kind "@ + quoted(kind@),
        AppError::StoredSchemaCompilationFailed { schema_name, reason } => "stored schema "@ + quoted(schema_name@)
            + " compilation failed: "@ + reason@,
        AppError::ProtectedNamespace { name } => "namespace "@ + quoted(name@) + " is protected and cannot be deleted"@,
        AppError::NamespaceNotEmpty { namespace, object_count } => "namespace "@ + quoted(namespace@)
            + " is not empty: "@ + decimal(object_count as nat) + " object(s) remain"@,
        AppError::Internal(_) => "internal error"@,
    }
}

fn push_quoted(s: &mut String, t: &str)
    ensures
        final(s)@ == old(s)@ + quoted(t@),
{
    push_char(s, '\'');
    s.append(t);
    push_char(s, '\'');
}

impl AppError {
    /// The HTTP status code of the response that reports this error.
    pub fn status_code(&self) -> (c: u16)
        ensures
            c == response_status(*self),
    {
        match self {
            AppError::NotFound { .. } => 404,
            AppError::AlreadyExists { .. } => 409,
            AppError::Conflict { .. } => 409,
            AppError::SchemaValidation(_) => 422,
            AppError::InvalidFieldSelector(_) => 400,
            AppError::InvalidLabel(_) => 400,
            AppError::InvalidAnnotation(_) => 400,
            AppError::InvalidFinalizer(_) => 400,
            AppError::InvalidLabelSelector(_) => 400,
            AppError::InvalidRequestBody(_) => 400,
            AppError::InvalidRequest(_) => 400,
            AppError::InvalidSchema(_) => 422,
            AppError::SchemaHasObjects { .. } => 409,
            AppError::ObjectBeingDeleted { .. } => 409,
            AppError::StatusSubresourceNotEnabled { .. } => 404,
            AppError::StoredSchemaCompilationFailed { .. } => 500,
            AppError::ProtectedNamespace { .. } => 403,
            AppError::NamespaceNotEmpty { .. } => 409,
            AppError::Internal(_) => 500,
        }
    }

    /// The machine-readable error code of the response.
    pub fn code(&self) -> (c: &'static str)
        ensures
            c@ == response_code(*self),
    {
        match self {
            AppError::NotFound { .. } => "NotFound",
            AppError::AlreadyExists { .. } => "AlreadyExists",
            AppError::Conflict { .. } => "Conflict",
            AppError::SchemaValidation(_) => "SchemaValidation",
            AppError::InvalidFieldSelector(_) => "InvalidFieldSelector",
            AppError::InvalidLabel(_) => "InvalidLabel",
            AppError::InvalidAnnotation(_) => "InvalidAnnotation",
            AppError::InvalidFinalizer(_) => "InvalidFinalizer",
            AppError::InvalidLabelSelector(_) => "InvalidLabelSelector",
            AppError::InvalidRequestBody(_) => "InvalidRequestBody",
            AppError::InvalidRequest(_) => "InvalidRequest",
            AppError::InvalidSchema(_) => "InvalidSchema",
            AppError::SchemaHasObjects { .. } => "SchemaHasObjects",
            AppError::ObjectBeingDeleted { .. } => "ObjectBeingDeleted",
            AppError::StatusSubresourceNotEnabled { .. } => "StatusSubresourceNotEnabled",
            AppError::StoredSchemaCompilationFailed { .. } => "StoredSchemaCompilationFailed",
            AppError::ProtectedNamespace { .. } => "ProtectedNamespace",
            AppError::NamespaceNotEmpty { .. } => "NamespaceNotEmpty",
            AppError::Internal(_) => "Internal",
        }
    }

    /// The human-readable message of the response.
    pub fn message(&self) -> (m: String)
        ensures
            m@ == response_message(*self),
    {
        match self {
            AppError::NotFound { what, identifier } => {
                let mut s = what.clone();
                push_char(&mut s, ' ');
                push_quoted(&mut s, identifier.as_str());
                s.append(" not found");
                s
            },
            AppError::AlreadyExists { kind, name } => {
                let mut s = kind.clone();
                push_char(&mut s, ' ');
                push_quoted(&mut s, name.as_str());
                s.append(" already exists");
                s
            },
            AppError::Conflict { expected, actual } => {
                let mut s = String::from_str("conflict: expected version ");
                push_decimal(&mut s, *expected);
                s.append(", actual version ");
                push_decimal(&mut s, *actual);
                s
            },
            AppError::SchemaValidation(_) => String::from_str("schema validation failed"),
            AppError::InvalidFieldSelector(m) => String::from_str("invalid field selector: ").concat(m.as_str()),
            AppError::InvalidLabel(m) => String::from_str("invalid label: ").concat(m.as_str()),
            AppError::InvalidAnnotation(m) => String::from_str("invalid annotation: ").concat(m.as_str()),
            AppError::InvalidFinalizer(m) => String::from_str("invalid finalizer: ").concat(m.as_str()),
            AppError::InvalidLabelSelector(m) => String::from_str("invalid label selector: ").concat(m.as_str()),
            AppError::InvalidRequestBody(m) => String::from_str("invalid request body: ").concat(m.as_str()),
            AppError::InvalidRequest(m) => String::from_str("invalid request: ").concat(m.as_str()),
            AppError::InvalidSchema(m) => String::from_str("invalid schema: ").concat(m.as_str()),
            AppError::SchemaHasObjects { kind } => String::from_str("schema has objects: kind=").concat(kind.as_str()),
            AppError::ObjectBeingDeleted { name } => {
                let mut s = String::from_str("object ");
                push_quoted(&mut s, name.as_str());
                s.append(" is being deleted; only finalizer modifications are allowed");
                s
            },
            AppError::StatusSubresourceNotEnabled { kind } => {
                let mut s = String::from_str("status subresource not enabled for kind ");
                push_quoted(&mut s, kind.as_str());
                s
            },
            AppError::StoredSchemaCompilationFailed { schema_name, reason } => {
                let mut s = String::from_str("stored schema ");
                push_quoted(&mut s, schema_name.as_str());
                s.append(" compilation failed: ");
                s.append(reason.as_str());
                s
            },
            AppError::ProtectedNamespace { name } => {
                let mut s = String::from_str("namespace ");
                push_quoted(&mut s, name.as_str());
                s.append(" is protected and cannot be deleted");
                s
            },
            AppError::NamespaceNotEmpty { namespace, object_count } => {
                let mut s = String::from_str("namespace ");
                push_quoted(&mut s, namespace.as_str());
                s.append(" is not empty: ");
                push_decimal(&mut s, *object_count as u64);
                s.append(" object(s) remain");
                s
            },
            AppError::Internal(_) => String::from_str("internal error"),
        }
    }
}

/// A JSON object with one string member.
pub open spec fn obj1(k: Seq<char>, v: JsonTree) -> JsonTree {
    JsonTree::Object(seq![(k, v)])
}

/// A JSON object with two members.
pub open spec fn obj2(k1: Seq<char>, v1: JsonTree, k2: Seq<char>, v2: JsonTree) -> JsonTree {
    JsonTree::Object(seq![(k1, v1), (k2, v2)])
}

/// A validation error as a JSON object.
pub open spec fn validation_error_json(e: ValidationError) -> JsonTree {
    obj2("path"@, JsonTree::Str(e.path@), "message"@, JsonTree::Str(e.message@))
}

/// The structured details of an error's response.
pub open spec fn response_details(e: AppError) -> JsonTree {
    match e {
        AppError::NotFound { what, identifier } => obj2("what"@, JsonTree::Str(what@), "identifier"@, JsonTree::Str(identifier@)),
        AppError::AlreadyExists { kind, name } => obj2("kind"@, JsonTree::Str(kind@), "name"@, JsonTree::Str(name@)),
        AppError::Conflict { expected, actual } => obj2("expected"@, JsonTree::Number(decimal(expected as nat)),
            "actual"@, JsonTree::Number(decimal(actual as nat))),
        AppError::SchemaValidation(errors) => obj1("errors"@, JsonTree::Array(errors@.map_values(|x: ValidationError| validation_error_json(x)))),
        AppError::InvalidFieldSelector(m) => obj1("message"@, JsonTree::Str(m@)),
        AppError::InvalidLabel(m) => obj1("message"@, JsonTree::Str(m@)),
        AppError::InvalidAnnotation(m) => obj1("message"@, JsonTree::Str(m@)),
        AppError::InvalidFinalizer(m) => obj1("message"@, JsonTree::Str(m@)),
        AppError::InvalidLabelSelector(m) => obj1("message"@, JsonTree::Str(m@)),
        AppError::InvalidRequestBody(m) => obj1("message"@, JsonTree::Str(m@)),
        AppError::InvalidRequest(m) => obj1("message"@, JsonTree::Str(m@)),
        AppError::InvalidSchema(m) => obj1("message"@, JsonTree::Str(m@)),
        AppError::SchemaHasObjects { kind } => obj1("kind"@, JsonTree::Str(kind@)),
        AppError::ObjectBeingDeleted { name } => obj1("name"@, JsonTree::Str(name@)),
        AppError::StatusSubresourceNotEnabled { kind } => obj1("kind"@, JsonTree::Str(kind@)),
        AppError::StoredSchemaCompilationFailed { schema_name, reason } => obj2("schemaName"@, JsonTree::Str(schema_name@),
            "reason"@, JsonTree::Str(reason@)),
        AppError::ProtectedNamespace { name } => obj1("name"@, JsonTree::Str(name@)),
        AppError::NamespaceNotEmpty { namespace, object_count } => obj2("namespace"@, JsonTree::Str(namespace@),
            "objectCount"@, JsonTree::Number(decimal(object_count as nat))),
        AppError::Internal(_) => JsonTree::Null,
    }
}

/// The body of an error's response: `{"error": message, "code": code, "details": details}`.
pub open spec fn response_body(e: AppError) -> JsonTree {
    JsonTree::Object(seq![
        ("error"@, JsonTree::Str(response_message(e))),
        ("code"@, JsonTree::Str(response_code(e))),
        ("details"@, response_details(e)),
    ])
}

fn text(s: &str) -> (v: JsonValue)
    ensures
        v@ == JsonTree::Str(s@),
{
    JsonValue::String(String::from_str(s))
}

fn number(n: u64) -> (v: JsonValue)
    ensures
        v@ == JsonTree::Number(decimal(n as nat)),
{
    let mut s = String::new();
    push_decimal(&mut s, n);
    assert(s@ =~= decimal(n as nat));
    JsonValue::Number(s)
}

fn object1(k: &str, v: JsonValue) -> (r: JsonValue)
    ensures
        r@ == obj1(k@, v@),
{
    let r = JsonValue::Object(vec![(String::from_str(k), v)]);
    assert(r@->Object_0 =~= seq![(k@, v@)]);
    r
}

fn object2(k1: &str, v1: JsonValue, k2: &str, v2: JsonValue) -> (r: JsonValue)
    ensures
        r@ == obj2(k1@, v1@, k2@, v2@),
{
    let r = JsonValue::Object(vec![(String::from_str(k1), v1), (String::from_str(k2), v2)]);
    assert(r@->Object_0 =~= seq![(k1@, v1@), (k2@, v2@)]);
    r
}

impl ValidationError {
    /// This error as a JSON object `{"path": ..., "message": ...}`.
    pub fn to_json(&self) -> (v: JsonValue)
        ensures
            v@ == validation_error_json(*self),
    {
        object2("path", JsonValue::String(self.path.clone()), "message", JsonValue::String(self.message.clone()))
    }
}

impl AppError {
    /// The structured details of the response that reports this error.
    pub fn details(&self) -> (d: JsonValue)
        ensures
            d@ == response_details(*self),
    {
        match self {
            AppError::NotFound { what, identifier } => object2("what", text(what.as_str()), "identifier", text(identifier.as_str())),
            AppError::AlreadyExists { kind, name } => object2("kind", text(kind.as_str()), "name", text(name.as_str())),
            AppError::Conflict { expected, actual } => object2("expected", number(*expected), "actual", number(*actual)),
            AppError::SchemaValidation(errors) => {
                let mut items: Vec<JsonValue> = Vec::new();
                let mut i: usize = 0;
                while i < errors.len()
                    invariant
                        0 <= i <= errors.len(),
                        items@.len() == i,
                        forall|j: int| 0 <= j < i ==> (#[trigger] items@[j])@ == validation_error_json(errors@[j]),
                    decreases errors.len() - i,
                {
                    items.push(errors[i].to_json());
                    i = i + 1;
                }
                let arr = JsonValue::Array(items);
                assert(arr@->Array_0 =~= errors@.map_values(|x: ValidationError| validation_error_json(x)));
                object1("errors", arr)
            },
            AppError::InvalidFieldSelector(m) => object1("message", text(m.as_str())),
            AppError::InvalidLabel(m) => object1("message", text(m.as_str())),
            AppError::InvalidAnnotation(m) => object1("message", text(m.as_str())),
            AppError::InvalidFinalizer(m) => object1("message", text(m.as_str())),
            AppError::InvalidLabelSelector(m) => object1("message", text(m.as_str())),
            AppError::InvalidRequestBody(m) => object1("message", text(m.as_str())),
            AppError::InvalidRequest(m) => object1("message", text(m.as_str())),
            AppError::InvalidSchema(m) => object1("message", text(m.as_str())),
            AppError::SchemaHasObjects { kind } => object1("kind", text(kind.as_str())),
            AppError::ObjectBeingDeleted { name } => object1("name", text(name.as_str())),
            AppError::StatusSubresourceNotEnabled { kind } => object1("kind", text(kind.as_str())),
            AppError::StoredSchemaCompilationFailed { schema_name, reason } => object2("schemaName", text(schema_name.as_str()),
                "reason", text(reason.as_str())),
            AppError::ProtectedNamespace { name } => object1("name", text(name.as_str())),
            AppError::NamespaceNotEmpty { namespace, object_count } => object2("namespace", text(namespace.as_str()),
                "objectCount", number(*object_count as u64)),
            AppError::Internal(_) => JsonValue::Null,
        }
    }

    /// The JSON body of the response that reports this error.
    pub fn response_body(&self) -> (b: JsonValue)
        ensures
            b@ == response_body(*self),
    {
        let message = JsonValue::String(self.message());
        let code = JsonValue::String(String::from_str(self.code()));
        let details = self.details();
        let fields = vec![
            (String::from_str("error"), message),
            (String::from_str("code"), code),
            (String::from_str("details"), details),
        ];
        assert(fields@[0].1@ == JsonTree::Str(response_message(*self)));
        assert(fields@[1].1@ == JsonTree::Str(response_code(*self)));
        assert(fields@[2].1@ == response_details(*self));
        let b = JsonValue::Object(fields);
        assert(b@->Object_0 =~= response_body(*self)->Object_0);
        b
    }
}

} // verus!
