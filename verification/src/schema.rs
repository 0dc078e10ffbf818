//! Schema versioning of persisted documents: every document carries
//! `schemaVersion`, and migrations run only towards a supported version.

use vstd::prelude::*;

verus! {

#[verifier::external_type_specification]
#[verifier::external_body]
pub struct ExJsonValue(serde_json::Value);

/// The member `key` of a JSON value as an unsigned integer, as serde_json
/// reads it: `None` when the value is not an object, has no such member, or
/// the member is not a non-negative integer that fits 64 bits.
pub uninterp spec fn json_u64_member(raw: serde_json::Value, key: Seq<char>) -> Option<u64>;

/// `Value::get` of serde_json with `key`, then `Value::as_u64`. The result
/// depends on the value and the key alone and is named `json_u64_member`;
/// serde_json's lookup rules are not restated.
#[verifier::external_body]
fn member_as_u64(raw: &serde_json::Value, key: &str) -> (member: Option<u64>)
    ensures
        member == json_u64_member(*raw, key@),
{
    raw.get(key).and_then(serde_json::Value::as_u64)
}

/// Declared version given the `schemaVersion` member: documents without a
/// usable version, or with one beyond 32 bits, are version zero.
pub open spec fn spec_version_from_member(member: Option<u64>) -> u32 {
    match member {
        Some(version) => if version <= u32::MAX {
            version as u32
        } else {
            0
        },
        None => 0,
    }
}

/// Declared version given the `schemaVersion` member.
pub fn version_from_member(member: Option<u64>) -> (version: u32)
    ensures
        version == spec_version_from_member(member),
{
    match member {
        Some(version) => if version <= u32::MAX as u64 {
            version as u32
        } else {
            0
        },
        None => 0,
    }
}

/// Name of the member every persisted document declares its version in.
pub open spec fn schema_key() -> Seq<char> {
    "schemaVersion"@
}

/// The version a JSON document declares.
pub open spec fn spec_declared_version(raw: serde_json::Value) -> u32 {
    spec_version_from_member(json_u64_member(raw, schema_key()))
}

/// Read the declared schema version of a raw JSON document.
pub fn declared_version(raw: &serde_json::Value) -> (version: u32)
    ensures
        version == spec_declared_version(*raw),
{
    let member = member_as_u64(raw, "schemaVersion");
    version_from_member(member)
}

/// What migrating a document of one version to a target version takes.
#[derive(PartialEq, Eq, Structural, Clone, Copy, Debug)]
pub enum MigrationPlan {
    /// The document is newer than this build understands.
    Reject { found: u32, supported: u32 },
    /// The document already has the target version.
    UpToDate,
    /// Back up the document, then rewrite it at the target version.
    Migrate { from: u32, to: u32 },
}

/// How a document of `version` is brought to `target`.
pub open spec fn spec_plan_migration(version: u32, target: u32) -> MigrationPlan {
    if version > target {
        MigrationPlan::Reject { found: version, supported: target }
    } else if version == target {
        MigrationPlan::UpToDate
    } else {
        MigrationPlan::Migrate { from: version, to: target }
    }
}

/// Decide how to bring a document of `version` to `target`.
pub fn plan_migration(version: u32, target: u32) -> (plan: MigrationPlan)
    ensures
        plan == spec_plan_migration(version, target),
{
    if version > target {
        MigrationPlan::Reject { found: version, supported: target }
    } else if version == target {
        MigrationPlan::UpToDate
    } else {
        MigrationPlan::Migrate { from: version, to: target }
    }
}

/// Migrations only ever move a document forward: a planned migration
/// starts below its target, and a document is never rewritten to a version
/// older than the one it declares.
pub proof fn lemma_migrations_only_move_forward(version: u32, target: u32)
    ensures
        spec_plan_migration(version, target) matches MigrationPlan::Migrate { from, to } ==> from < to,
{
}

#[verifier::external_type_specification]
#[verifier::external_body]
pub struct ExJsonError(serde_json::Error);

/// The JSON value serde_json parses `text` to, or nothing when the text is
/// not JSON.
pub uninterp spec fn json_parse(text: Seq<char>) -> Option<serde_json::Value>;

/// `serde_json::from_str` into a `Value`. The outcome depends on the text
/// alone and is named `json_parse`; JSON's grammar is not restated.
#[verifier::external_body]
fn parse_json_value(text: &str) -> (parsed: Result<serde_json::Value, serde_json::Error>)
    ensures
        match parsed {
            Ok(value) => json_parse(text@) == Some(value),
            Err(_) => json_parse(text@) is None,
        },
{
    serde_json::from_str(text)
}

/// Whether a JSON value is an object (`Value::Object`).
pub uninterp spec fn json_is_object(raw: serde_json::Value) -> bool;

/// The members of a JSON object, by key; what serde_json's object map holds.
pub uninterp spec fn json_members(raw: serde_json::Value) -> Map<Seq<char>, serde_json::Value>;

/// `Value::as_object_mut` of serde_json, then `Map::insert` of `key` with
/// `Value::from(value)`. `None` exactly when the document is not an object,
/// and a value that is not an object has no member for `get` to find.
/// Otherwise the result is an object whose members are the old ones with
/// only `key` set: the inserted unsigned integer reads back through `get`
/// and `as_u64` as itself, and every other member is as it was.
#[verifier::external_body]
fn set_u64_member(document: serde_json::Value, key: &str, value: u64) -> (updated: Option<serde_json::Value>)
    ensures
        updated is None <==> !json_is_object(document),
        updated is None ==> json_u64_member(document, key@) is None,
        updated matches Some(written) ==> {
            &&& json_is_object(written)
            &&& json_u64_member(written, key@) == Some(value)
            &&& json_members(written).dom() == json_members(document).dom().insert(key@)
            &&& json_members(written).remove(key@) == json_members(document).remove(key@)
        },
{
    let mut document = document;
    let object = document.as_object_mut()?;
    object.insert(key.to_string(), serde_json::Value::from(value));
    Some(document)
}

/// What migrating a stored document did.
pub enum DocumentMigration {
    /// The document already has the target version; nothing to write.
    UpToDate,
    /// Back up the file, then write `document` in its place.
    Migrated { from: u32, to: u32, document: serde_json::Value },
}

/// Why a stored document cannot be migrated.
#[derive(PartialEq, Eq, Structural, Clone, Copy, Debug)]
pub enum MigrationError {
    /// The text is not JSON.
    Malformed,
    /// The document is newer than this build understands.
    UnsupportedSchema { found: u32, supported: u32 },
    /// A versioned document must be a JSON object.
    NotAnObject,
}

/// Bring the text of a stored document to schema `target`: malformed text
/// and documents newer than `target` are refused, a current one is left as
/// it is, and an older object is rewritten with `schemaVersion` set to
/// `target` and every other member kept; an older document that is not an
/// object cannot carry a version and is refused.
pub fn migrated_document(raw_text: &str, target: u32) -> (result: Result<DocumentMigration, MigrationError>)
    ensures
        match json_parse(raw_text@) {
            None => result == Err::<DocumentMigration, MigrationError>(MigrationError::Malformed),
            Some(raw) => match spec_plan_migration(spec_declared_version(raw), target) {
                MigrationPlan::Reject { found, supported } => result == Err::<DocumentMigration, MigrationError>(
                    MigrationError::UnsupportedSchema { found, supported },
                ),
                MigrationPlan::UpToDate => result matches Ok(DocumentMigration::UpToDate),
                MigrationPlan::Migrate { from, to } => if json_is_object(raw) {
                    result matches Ok(DocumentMigration::Migrated { from: f, to: t, document }) && f == from
                        && t == to && spec_declared_version(document) == to && json_is_object(document)
                        && json_members(document).dom() == json_members(raw).dom().insert(schema_key())
                        && json_members(document).remove(schema_key()) == json_members(raw).remove(
                        schema_key(),
                    )
                } else {
                    &&& result == Err::<DocumentMigration, MigrationError>(MigrationError::NotAnObject)
                    &&& json_u64_member(raw, schema_key()) is None
                },
            },
        },
{
    proof {
        reveal_strlit("schemaVersion");
    }
    let raw = match parse_json_value(raw_text) {
        Ok(raw) => raw,
        Err(_) => return Err(MigrationError::Malformed),
    };
    match plan_migration(declared_version(&raw), target) {
        MigrationPlan::Reject { found, supported } => Err(MigrationError::UnsupportedSchema { found, supported }),
        MigrationPlan::UpToDate => Ok(DocumentMigration::UpToDate),
        MigrationPlan::Migrate { from, to } => match set_u64_member(raw, "schemaVersion", to as u64) {
            Some(document) => {
                assert(spec_version_from_member(Some(to as u64)) == to);
                Ok(DocumentMigration::Migrated { from, to, document })
            },
            None => Err(MigrationError::NotAnObject),
        },
    }
}

} // verus!
