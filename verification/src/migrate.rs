//! Schema-evolution decisions for the persisted history. On open, the
//! store's version record and the presence of a legacy table determine one
//! additive upgrade path; this module decides it, and the persistence layer
//! executes it. Migrations only ever add columns and backfill — the legacy
//! column is never dropped, so a failed migration loses no data.

use vstd::prelude::*;

verus! {

/// The schema version this library writes.
pub const CURRENT_SCHEMA_VERSION: i64 = 1;

/// What the persistence layer must do to bring a database to the current
/// schema. Every step is additive; no step removes a column or a row.
#[derive(Debug, Clone)]
pub struct MigrationPlan {
    /// Create the current schema from scratch (fresh installation).
    pub create_fresh_schema: bool,
    /// Add the split payload columns the current schema requires.
    pub add_payload_columns: bool,
    /// Copy the legacy single content column into the new text column for
    /// every existing row.
    pub backfill_legacy_content: bool,
    /// Create the indexes the current schema requires.
    pub create_indexes: bool,
    /// Record this schema version once the steps above are done.
    pub record_version: Option<i64>,
}

/// The plan for a store whose recorded version is `current_version`:
/// version zero with no data table is a fresh installation; version zero
/// with a data table is a pre-upgrade installation that gets the additive
/// columns (and a backfill when the legacy content column is present);
/// any recorded version at or above the current one needs nothing.
pub open spec fn migration_plan_spec(
    current_version: int,
    table_exists: bool,
    has_legacy_content: bool,
) -> MigrationPlan {
    if current_version == 0 && !table_exists {
        MigrationPlan {
            create_fresh_schema: true,
            add_payload_columns: false,
            backfill_legacy_content: false,
            create_indexes: true,
            record_version: Option::Some(CURRENT_SCHEMA_VERSION),
        }
    } else if current_version == 0 && table_exists {
        MigrationPlan {
            create_fresh_schema: false,
            add_payload_columns: has_legacy_content,
            backfill_legacy_content: has_legacy_content,
            create_indexes: true,
            record_version: Option::Some(CURRENT_SCHEMA_VERSION),
        }
    } else {
        MigrationPlan {
            create_fresh_schema: false,
            add_payload_columns: false,
            backfill_legacy_content: false,
            create_indexes: false,
            record_version: Option::None,
        }
    }
}

/// Decide the upgrade path for a just-opened database.
pub fn plan_migration(current_version: i64, table_exists: bool, has_legacy_content: bool) -> (p:
    MigrationPlan)
    ensures
        p == migration_plan_spec(current_version as int, table_exists, has_legacy_content),
        !p.backfill_legacy_content || p.add_payload_columns,
{
    if current_version == 0 && !table_exists {
        MigrationPlan {
            create_fresh_schema: true,
            add_payload_columns: false,
            backfill_legacy_content: false,
            create_indexes: true,
            record_version: Some(CURRENT_SCHEMA_VERSION),
        }
    } else if current_version == 0 && table_exists {
        MigrationPlan {
            create_fresh_schema: false,
            add_payload_columns: has_legacy_content,
            backfill_legacy_content: has_legacy_content,
            create_indexes: true,
            record_version: Some(CURRENT_SCHEMA_VERSION),
        }
    } else {
        MigrationPlan {
            create_fresh_schema: false,
            add_payload_columns: false,
            backfill_legacy_content: false,
            create_indexes: false,
            record_version: None,
        }
    }
}

} // verus!
