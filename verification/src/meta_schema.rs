//! Compiled JSON Schemas and the meta-schema that Schema registrations obey.
//!
//! Schemas are compiled and applied by the `jsonschema` crate (draft
//! 2020-12). Documents cross into it as their compact JSON text, so what it
//! decides is stated over texts.

use vstd::prelude::*;
use crate::json::JsonValue;
use crate::jsontext::json_text;
use crate::text::push_char;

verus! {

/// Whether `jsonschema` (draft 2020-12, no remote resolution) compiles the
/// schema with this JSON text.
pub uninterp spec fn schema_compiles(schema: Seq<char>) -> bool;

/// What `jsonschema` reports when the schema with this text does not compile.
pub uninterp spec fn compile_failure(schema: Seq<char>) -> Seq<char>;

/// Whether the instance with JSON text `instance` is valid against the
/// compiled schema with JSON text `schema` (`Validator::is_valid`).
pub uninterp spec fn schema_accepts(schema: Seq<char>, instance: Seq<char>) -> bool;

/// The errors `Validator::iter_errors` yields for the instance: for each, the
/// segments of its instance location and its message.
pub uninterp spec fn schema_errors(schema: Seq<char>, instance: Seq<char>) -> Seq<(Seq<Seq<char>>, Seq<char>)>;

/// A compiled `jsonschema::Validator`, held opaquely: what it decides is
/// stated through the names above, never read from its fields.
#[verifier::external_body]
pub struct CompiledSchema {
    inner: jsonschema::Validator,
}

/// A compiled JSON Schema, remembering the text it was compiled from.
pub struct JsonSchemaValidator {
    compiled: CompiledSchema,
    source: Ghost<Seq<char>>,
}

/// A structured validation failure: where in the instance, and why.
pub struct SchemaValidationError {
    pub instance_path: String,
    pub message: String,
}

impl View for JsonSchemaValidator {
    type V = Seq<char>;

    /// The JSON text of the schema this validator was compiled from.
    closed spec fn view(&self) -> Seq<char> {
        self.source@
    }
}

/// `serde_json::from_str` of the schema text, then
/// `jsonschema::draft202012::options().build`; the error's text otherwise.
#[verifier::external_body]
fn build_validator(schema: &str) -> (r: Result<JsonSchemaValidator, String>)
    ensures
        r is Ok <==> schema_compiles(schema@),
        r matches Ok(v) ==> v@ == schema@,
        r matches Err(m) ==> m@ == compile_failure(schema@),
{
    let value: serde_json::Value = match serde_json::from_str(schema) {
        Ok(v) => v,
        Err(e) => return Err(e.to_string()),
    };
    match jsonschema::draft202012::options().build(&value) {
        Ok(v) => Ok(JsonSchemaValidator { compiled: CompiledSchema { inner: v }, source: Ghost(schema@) }),
        Err(e) => Err(e.to_string()),
    }
}

/// `Validator::is_valid` on the instance parsed from its text.
#[verifier::external_body]
fn run_is_valid(v: &JsonSchemaValidator, instance: &str) -> (r: bool)
    ensures
        r == schema_accepts(v@, instance@),
{
    match serde_json::from_str::<serde_json::Value>(instance) {
        Ok(value) => v.compiled.inner.is_valid(&value),
        Err(_) => false,
    }
}

/// `Validator::iter_errors` on the instance parsed from its text: each
/// error's instance location segments and its message.
#[verifier::external_body]
fn run_iter_errors(v: &JsonSchemaValidator, instance: &str) -> (r: Vec<(Vec<String>, String)>)
    ensures
        r@.map_values(|e: (Vec<String>, String)| (e.0@.map_values(|s: String| s@), e.1@)) == schema_errors(v@, instance@),
{
    match serde_json::from_str::<serde_json::Value>(instance) {
        Ok(value) => v.compiled.inner.iter_errors(&value)
            .map(|e| (e.instance_path().iter().map(|s| s.to_string()).collect(), e.to_string()))
            .collect(),
        Err(_) => Vec::new(),
    }
}

/// Segments joined with `/`.
pub open spec fn joined_path(segs: Seq<Seq<char>>) -> Seq<char>
    decreases segs.len(),
{
    if segs.len() == 0 {
        Seq::empty()
    } else if segs.len() == 1 {
        segs[0]
    } else {
        joined_path(segs.drop_last()) + seq!['/'] + segs.last()
    }
}

/// The structured errors for an instance: each location joined with `/`.
pub open spec fn validation_errors(schema: Seq<char>, instance: Seq<char>) -> Seq<(Seq<char>, Seq<char>)> {
    schema_errors(schema, instance).map_values(|e: (Seq<Seq<char>>, Seq<char>)| (joined_path(e.0), e.1))
}

fn join_path(segs: &Vec<String>) -> (r: String)
    ensures
        r@ == joined_path(segs@.map_values(|s: String| s@)),
{
    let ghost all = segs@.map_values(|s: String| s@);
    let mut r = String::new();
    let mut i: usize = 0;
    while i < segs.len()
        invariant
            0 <= i <= segs.len(),
            all == segs@.map_values(|s: String| s@),
            r@ == joined_path(all.take(i as int)),
        decreases segs.len() - i,
    {
        proof {
            assert(all.take(i + 1).drop_last() =~= all.take(i as int));
            assert(all.take(i + 1).last() == segs@[i as int]@);
        }
        if i > 0 {
            push_char(&mut r, '/');
        }
        r.append(segs[i].as_str());
        proof {
            if i == 0 {
                assert(r@ =~= joined_path(all.take(1)));
            }
        }
        i = i + 1;
    }
    assert(all.take(segs.len() as int) =~= all);
    r
}

impl JsonSchemaValidator {
    /// Compiles a JSON Schema (draft 2020-12) into a validator.
    ///
    /// Fails with `failed to compile schema: {reason}`.
    pub fn compile(schema_json: &JsonValue) -> (r: Result<JsonSchemaValidator, String>)
        ensures
            r is Ok <==> schema_compiles(json_text(schema_json@)),
            r matches Ok(v) ==> v@ == json_text(schema_json@),
            r matches Err(m) ==> m@ == "failed to compile schema: "@ + compile_failure(json_text(schema_json@)),
    {
        let text = schema_json.to_text();
        match build_validator(text.as_str()) {
            Ok(v) => Ok(v),
            Err(e) => {
                let mut m = String::from_str("failed to compile schema: ");
                m.append(e.as_str());
                Err(m)
            },
        }
    }

    /// Whether `instance` validates against this schema.
    pub fn is_valid(&self, instance: &JsonValue) -> (r: bool)
        ensures
            r == schema_accepts(self@, json_text(instance@)),
    {
        let text = instance.to_text();
        run_is_valid(self, text.as_str())
    }

    /// The validation errors of `instance`, each with its location joined by `/`.
    pub fn validate(&self, instance: &JsonValue) -> (r: Vec<SchemaValidationError>)
        ensures
            r@.len() == validation_errors(self@, json_text(instance@)).len(),
            forall|i: int| 0 <= i < r@.len() ==> (#[trigger] r@[i]).instance_path@ == validation_errors(self@, json_text(instance@))[i].0
                && r@[i].message@ == validation_errors(self@, json_text(instance@))[i].1,
    {
        let text = instance.to_text();
        let raw = run_iter_errors(self, text.as_str());
        let ghost named = schema_errors(self@, text@);
        let mut out: Vec<SchemaValidationError> = Vec::new();
        let mut i: usize = 0;
        while i < raw.len()
            invariant
                0 <= i <= raw.len(),
                raw@.map_values(|e: (Vec<String>, String)| (e.0@.map_values(|s: String| s@), e.1@)) == named,
                out@.len() == i,
                forall|j: int| 0 <= j < i ==> (#[trigger] out@[j]).instance_path@ == joined_path(named[j].0)
                    && out@[j].message@ == named[j].1,
            decreases raw.len() - i,
        {
            let path = join_path(&raw[i].0);
            proof {
                assert(named[i as int] == (raw@[i as int].0@.map_values(|s: String| s@), raw@[i as int].1@));
            }
            out.push(SchemaValidationError { instance_path: path, message: raw[i].1.clone() });
            i = i + 1;
        }
        out
    }
}

/// The meta-schema (draft 2020-12) that every Schema registration payload
/// must satisfy: string `targetGroup`, `targetVersion` and `targetKind`, an
/// object `specSchema` (or, under its earlier name, `jsonSchema`), an
/// optional object `statusSchema`, an optional `scope` of `Namespaced` or
/// `Cluster`, and nothing else.
pub const META_SCHEMA_JSON: &'static str = r#"{
  "$schema": "https://json-schema.org/draft/2020-12/schema",
  "type": "object",
  "required": ["targetGroup", "targetVersion", "targetKind"],
  "anyOf": [
    { "required": ["specSchema"] },
    { "required": ["jsonSchema"] }
  ],
  "properties": {
    "targetGroup": { "type": "string", "minLength": 1 },
    "targetVersion": { "type": "string", "minLength": 1 },
    "targetKind": { "type": "string", "minLength": 1 },
    "specSchema": { "type": "object" },
    "jsonSchema": { "type": "object" },
    "statusSchema": { "type": "object" },
    "scope": { "type": "string", "enum": ["Namespaced", "Cluster"] }
  },
  "unevaluatedProperties": false
}"#;

/// Compiles the meta-schema into a validator for registration payloads.
///
/// Fails with `failed to compile meta-schema: {reason}`.
pub fn compile_meta_schema() -> (r: Result<JsonSchemaValidator, String>)
    ensures
        r is Ok <==> schema_compiles(META_SCHEMA_JSON@),
        r matches Ok(v) ==> v@ == META_SCHEMA_JSON@,
        r matches Err(m) ==> m@ == "failed to compile meta-schema: "@ + compile_failure(META_SCHEMA_JSON@),
{
    match build_validator(META_SCHEMA_JSON) {
        Ok(v) => Ok(v),
        Err(e) => {
            let mut m = String::from_str("failed to compile meta-schema: ");
            m.append(e.as_str());
            Err(m)
        },
    }
}

} // verus!
