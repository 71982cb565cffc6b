//! The payload of a Schema registration: which kind it defines, the JSON
//! Schemas of the kind's spec and status, and the kind's scope.

use vstd::prelude::*;
use crate::json::{JsonTree, JsonValue};
use crate::types::{copy_opt_json, opt_json};

verus! {

/// A Schema registration payload, read from a Schema object's spec.
#[derive(Debug)]
pub struct SchemaData {
    pub target_group: String,
    pub target_version: String,
    pub target_kind: String,
    pub spec_schema: JsonValue,
    /// Present when the kind has a status subresource.
    pub status_schema: Option<JsonValue>,
    /// `"Namespaced"` (the default) or `"Cluster"`.
    pub scope: String,
}

/// Mathematical form of a [`SchemaData`].
pub struct SchemaDataView {
    pub group: Seq<char>,
    pub version: Seq<char>,
    pub kind: Seq<char>,
    pub spec_schema: JsonTree,
    pub status_schema: Option<JsonTree>,
    pub scope: Seq<char>,
}

impl View for SchemaData {
    type V = SchemaDataView;

    open spec fn view(&self) -> SchemaDataView {
        SchemaDataView {
            group: self.target_group@,
            version: self.target_version@,
            kind: self.target_kind@,
            spec_schema: self.spec_schema@,
            status_schema: opt_json(self.status_schema),
            scope: self.scope@,
        }
    }
}

/// The text of member `key`, which must be present and a string.
pub open spec fn required_text(j: JsonTree, key: Seq<char>, missing: Seq<char>, wrong: Seq<char>) -> Result<Seq<char>, Seq<char>> {
    match j.get(key) {
        None => Err(missing),
        Some(JsonTree::Str(s)) => Ok(s),
        Some(_) => Err(wrong),
    }
}

/// The spec schema of a payload: `specSchema`, or else `jsonSchema`, the
/// member's earlier name.
pub open spec fn spec_schema_member(j: JsonTree) -> Option<JsonTree> {
    match j.get("specSchema"@) {
        Some(s) => Some(s),
        None => j.get("jsonSchema"@),
    }
}

/// Reads a registration payload: an object with the string members
/// `targetGroup`, `targetVersion` and `targetKind`, a `specSchema` (or
/// `jsonSchema`), an
/// optional `statusSchema` (absent or null for none) and an optional string
/// `scope` that defaults to `"Namespaced"`. Other members are ignored. The
/// error names the first problem, in that order.
pub open spec fn parse_schema_data(j: JsonTree) -> Result<SchemaDataView, Seq<char>> {
    if !(j is Object) {
        Err("invalid type: expected an object"@)
    } else {
        match required_text(j, "targetGroup"@, "missing field `targetGroup`"@, "invalid type: expected a string for `targetGroup`"@) {
            Err(e) => Err(e),
            Ok(group) => match required_text(j, "targetVersion"@, "missing field `targetVersion`"@, "invalid type: expected a string for `targetVersion`"@) {
                Err(e) => Err(e),
                Ok(version) => match required_text(j, "targetKind"@, "missing field `targetKind`"@, "invalid type: expected a string for `targetKind`"@) {
                    Err(e) => Err(e),
                    Ok(kind) => match spec_schema_member(j) {
                        None => Err("missing field `specSchema`"@),
                        Some(spec_schema) => {
                            let status_schema = match j.get("statusSchema"@) {
                                None => None,
                                Some(JsonTree::Null) => None,
                                Some(s) => Some(s),
                            };
                            match j.get("scope"@) {
                                None => Ok(SchemaDataView { group, version, kind, spec_schema, status_schema, scope: "Namespaced"@ }),
                                Some(JsonTree::Str(scope)) => Ok(SchemaDataView { group, version, kind, spec_schema, status_schema, scope }),
                                Some(_) => Err("invalid type: expected a string for `scope`"@),
                            }
                        },
                    },
                },
            },
        }
    }
}

fn read_text(v: &JsonValue, key: &str, missing: &str, wrong: &str) -> (r: Result<String, String>)
    ensures
        match required_text(v@, key@, missing@, wrong@) {
            Ok(s) => r matches Ok(x) && x@ == s,
            Err(e) => r matches Err(x) && x@ == e,
        },
{
    match v.get(key) {
        None => Err(String::from_str(missing)),
        Some(m) => match m.as_str() {
            Some(s) => Ok(s.clone()),
            None => Err(String::from_str(wrong)),
        },
    }
}

impl SchemaData {
    /// Reads a registration payload from a Schema object's spec.
    pub fn from_json(v: &JsonValue) -> (r: Result<SchemaData, String>)
        ensures
            match parse_schema_data(v@) {
                Ok(d) => r matches Ok(x) && x@ == d,
                Err(e) => r matches Err(x) && x@ == e,
            },
    {
        if !v.is_object() {
            return Err(String::from_str("invalid type: expected an object"));
        }
        let group = match read_text(v, "targetGroup", "missing field `targetGroup`", "invalid type: expected a string for `targetGroup`") {
            Ok(s) => s,
            Err(e) => return Err(e),
        };
        let version = match read_text(v, "targetVersion", "missing field `targetVersion`", "invalid type: expected a string for `targetVersion`") {
            Ok(s) => s,
            Err(e) => return Err(e),
        };
        let kind = match read_text(v, "targetKind", "missing field `targetKind`", "invalid type: expected a string for `targetKind`") {
            Ok(s) => s,
            Err(e) => return Err(e),
        };
        let spec_schema = match v.get("specSchema") {
            Some(s) => s.duplicate(),
            None => match v.get("jsonSchema") {
                Some(s) => s.duplicate(),
                None => return Err(String::from_str("missing field `specSchema`")),
            },
        };
        let status_schema = match v.get("statusSchema") {
            None => None,
            Some(JsonValue::Null) => None,
            Some(s) => Some(s.duplicate()),
        };
        let scope = match v.get("scope") {
            None => String::from_str("Namespaced"),
            Some(s) => match s.as_str() {
                Some(t) => t.clone(),
                None => return Err(String::from_str("invalid type: expected a string for `scope`")),
            },
        };
        Ok(SchemaData { target_group: group, target_version: version, target_kind: kind, spec_schema, status_schema, scope })
    }

    /// A copy of `self`.
    pub fn duplicate(&self) -> (r: SchemaData)
        ensures
            r@ == self@,
    {
        SchemaData {
            target_group: self.target_group.clone(),
            target_version: self.target_version.clone(),
            target_kind: self.target_kind.clone(),
            spec_schema: self.spec_schema.duplicate(),
            status_schema: copy_opt_json(&self.status_schema),
            scope: self.scope.clone(),
        }
    }
}

} // verus!
