use ratatube::schema::{
    declared_version, migrated_document, plan_migration, version_from_member, DocumentMigration, MigrationError,
    MigrationPlan,
};

#[test]
fn newer_schema_is_rejected() {
    assert_eq!(plan_migration(99, 1), MigrationPlan::Reject { found: 99, supported: 1 });
}

#[test]
fn current_schema_is_untouched() {
    assert_eq!(plan_migration(1, 1), MigrationPlan::UpToDate);
}

#[test]
fn version_zero_is_backed_up_and_updated_to_target() {
    assert_eq!(plan_migration(0, 1), MigrationPlan::Migrate { from: 0, to: 1 });
}

#[test]
fn a_missing_or_oversized_version_reads_as_zero() {
    assert_eq!(version_from_member(None), 0);
    assert_eq!(version_from_member(Some(3)), 3);
    assert_eq!(version_from_member(Some(u64::from(u32::MAX) + 1)), 0);
}

#[test]
fn declared_version_reads_the_schema_member() {
    let versioned: serde_json::Value = serde_json::from_str(r#"{"schemaVersion": 2}"#).unwrap();
    assert_eq!(declared_version(&versioned), 2);
    let unversioned: serde_json::Value = serde_json::from_str(r#"{"tracks": []}"#).unwrap();
    assert_eq!(declared_version(&unversioned), 0);
    let textual: serde_json::Value = serde_json::from_str(r#"{"schemaVersion": "2"}"#).unwrap();
    assert_eq!(declared_version(&textual), 0);
    let huge: serde_json::Value =
        serde_json::from_str(r#"{"schemaVersion": 4294967296}"#).unwrap();
    assert_eq!(declared_version(&huge), 0);
}

#[test]
fn stored_documents_migrate_forward_only() {
    assert_eq!(
        migrated_document("{\"schemaVersion\": 5}", 1).err(),
        Some(MigrationError::UnsupportedSchema { found: 5, supported: 1 })
    );
    assert!(matches!(migrated_document("{\"schemaVersion\": 1, \"x\": 2}", 1), Ok(DocumentMigration::UpToDate)));
    match migrated_document("{\"tracks\": []}", 1) {
        Ok(DocumentMigration::Migrated { from, to, document }) => {
            assert_eq!((from, to), (0, 1));
            assert_eq!(declared_version(&document), 1);
            assert!(document.get("tracks").is_some());
        }
        _ => panic!("expected a migration"),
    }
    assert_eq!(migrated_document("not json", 1).err(), Some(MigrationError::Malformed));
    assert_eq!(migrated_document("[1, 2]", 1).err(), Some(MigrationError::NotAnObject));
}

#[test]
fn a_version_zero_object_is_migrated_with_its_members_kept() {
    match migrated_document("{\"entries\": [], \"name\": \"x\"}", 1) {
        Ok(DocumentMigration::Migrated { from, to, document }) => {
            assert_eq!((from, to), (0, 1));
            assert_eq!(declared_version(&document), 1);
            let object = document.as_object().expect("object");
            assert_eq!(object.len(), 3);
            assert_eq!(object.get("entries"), Some(&serde_json::Value::Array(Vec::new())));
            assert_eq!(object.get("name").and_then(|name| name.as_str()), Some("x"));
        }
        _ => panic!("expected a migration"),
    }
}
