use solostack_core::migration::{MigrationEngine, MigrationStep, SizeProbeOutcome};
use solostack_core::report::StartupMigrationReport;

const NEW_DIR: &str = "/data/com.solutionsstudio.solostack";
const NEW_DB: &str = "/data/com.solutionsstudio.solostack/solostack.db";
const MARKER: &str = "/data/com.solutionsstudio.solostack/startup-migration-v1.json";
const LEGACY_DB: &str = "/data/com.antigravity.solostack/solostack.db";

fn engine_through_probes(
    marker_present: bool,
    legacy_exists: bool,
) -> MigrationEngine {
    let mut engine = MigrationEngine::new();
    assert!(matches!(engine.next_step(), MigrationStep::ResolveDataDir));
    engine.data_dir_resolved(Ok(NEW_DIR.to_owned()));
    match engine.next_step() {
        MigrationStep::CreateDataDir { dir } => assert_eq!(dir.as_str(), NEW_DIR),
        other => panic!("expected CreateDataDir, got {other:?}"),
    }
    engine.data_dir_created(Ok(()));
    match engine.next_step() {
        MigrationStep::ProbeMarker { path } => assert_eq!(path.as_str(), MARKER),
        other => panic!("expected ProbeMarker, got {other:?}"),
    }
    engine.marker_probed(marker_present);
    match engine.next_step() {
        MigrationStep::ProbeLegacyDatabase { path } => assert_eq!(path.as_str(), LEGACY_DB),
        other => panic!("expected ProbeLegacyDatabase, got {other:?}"),
    }
    engine.legacy_probed(legacy_exists);
    engine
}

fn finish(engine: MigrationEngine) -> StartupMigrationReport {
    assert!(engine.is_finished());
    assert!(matches!(engine.next_step(), MigrationStep::Finished));
    engine.into_report()
}

#[test]
fn first_run_copies_verifies_and_writes_marker() {
    let mut engine = engine_through_probes(false, true);
    match engine.next_step() {
        MigrationStep::ProbeDestinationDatabase { path } => assert_eq!(path.as_str(), NEW_DB),
        other => panic!("expected ProbeDestinationDatabase, got {other:?}"),
    }
    engine.destination_probed(false);
    match engine.next_step() {
        MigrationStep::CopyDatabase { source, destination } => {
            assert_eq!(source.as_str(), LEGACY_DB);
            assert_eq!(destination.as_str(), NEW_DB);
        },
        other => panic!("expected CopyDatabase, got {other:?}"),
    }
    engine.database_copied(Ok(()));
    match engine.next_step() {
        MigrationStep::ProbeSidecar { path } => {
            assert_eq!(path, format!("{LEGACY_DB}-wal"));
        },
        other => panic!("expected ProbeSidecar, got {other:?}"),
    }
    engine.sidecar_probed(true);
    match engine.next_step() {
        MigrationStep::CopySidecar { source, destination } => {
            assert_eq!(source, format!("{LEGACY_DB}-wal"));
            assert_eq!(destination, format!("{NEW_DB}-wal"));
        },
        other => panic!("expected CopySidecar, got {other:?}"),
    }
    engine.sidecar_copied(Ok(()));
    match engine.next_step() {
        MigrationStep::ProbeSidecar { path } => {
            assert_eq!(path, format!("{LEGACY_DB}-shm"));
        },
        other => panic!("expected ProbeSidecar, got {other:?}"),
    }
    engine.sidecar_probed(false);
    match engine.next_step() {
        MigrationStep::CompareSizes { source, destination } => {
            assert_eq!(source.as_str(), LEGACY_DB);
            assert_eq!(destination.as_str(), NEW_DB);
        },
        other => panic!("expected CompareSizes, got {other:?}"),
    }
    engine.sizes_compared(SizeProbeOutcome::Sizes(4096, 4096));
    match engine.next_step() {
        MigrationStep::WriteMarker { path, contents } => {
            assert_eq!(path.as_str(), MARKER);
            assert_eq!(
                contents.as_str(),
                "{\"version\":1,\"source_db_path\":\"/data/com.antigravity.solostack/solostack.db\",\"destination_db_path\":\"/data/com.solutionsstudio.solostack/solostack.db\"}"
            );
        },
        other => panic!("expected WriteMarker, got {other:?}"),
    }
    engine.marker_written(Ok(()));
    let report = finish(engine);
    assert!(report.migration_attempted);
    assert!(report.migration_completed);
    assert!(report.marker_present);
    assert!(report.legacy_path_detected);
    assert!(report.migration_error.is_none());
    assert_eq!(report.legacy_db_path.as_deref(), Some(LEGACY_DB));
    assert_eq!(report.new_db_path.as_deref(), Some(NEW_DB));
}

#[test]
fn second_run_with_marker_is_idempotent() {
    let mut engine = engine_through_probes(true, true);
    engine.destination_probed(true);
    let report = finish(engine);
    assert!(!report.migration_attempted);
    assert!(report.migration_completed);
    assert!(report.marker_present);
    assert!(report.migration_error.is_none());
}

#[test]
fn existing_destination_without_marker_counts_as_migrated() {
    let mut engine = engine_through_probes(false, true);
    engine.destination_probed(true);
    let report = finish(engine);
    assert!(!report.migration_attempted);
    assert!(report.migration_completed);
    assert!(!report.marker_present);
    assert!(report.migration_error.is_none());
}

#[test]
fn size_mismatch_is_an_error_and_stays_incomplete() {
    let mut engine = engine_through_probes(false, true);
    engine.destination_probed(false);
    engine.database_copied(Ok(()));
    engine.sidecar_probed(false);
    engine.sidecar_probed(false);
    engine.sizes_compared(SizeProbeOutcome::Sizes(4096, 1024));
    let report = finish(engine);
    assert!(report.migration_attempted);
    assert!(!report.migration_completed);
    assert_eq!(report.migration_error.as_deref(), Some("copied database size mismatch"));
}

#[test]
fn no_legacy_database_means_nothing_to_do() {
    let engine = engine_through_probes(false, false);
    let report = finish(engine);
    assert!(!report.legacy_path_detected);
    assert!(!report.migration_attempted);
    assert!(!report.migration_completed);
    assert!(report.migration_error.is_none());
}

#[test]
fn unrelated_data_dir_yields_clean_report() {
    let mut engine = MigrationEngine::new();
    engine.data_dir_resolved(Ok("/data/some.other.app".to_owned()));
    engine.data_dir_created(Ok(()));
    engine.marker_probed(false);
    let report = finish(engine);
    assert!(!report.legacy_path_detected);
    assert!(!report.migration_attempted);
    assert!(!report.migration_completed);
    assert!(report.migration_error.is_none());
    assert_eq!(report.new_db_path.as_deref(), Some("/data/some.other.app/solostack.db"));
    assert!(report.legacy_db_path.is_none());
}

#[test]
fn resolve_failure_aborts_with_error_only() {
    let mut engine = MigrationEngine::new();
    engine.data_dir_resolved(Err("permission denied".to_owned()));
    let report = finish(engine);
    assert_eq!(
        report.migration_error.as_deref(),
        Some("resolve app data dir failed: permission denied")
    );
    assert!(!report.legacy_path_detected);
    assert!(!report.migration_attempted);
    assert!(!report.migration_completed);
}

#[test]
fn create_failure_aborts_with_error() {
    let mut engine = MigrationEngine::new();
    engine.data_dir_resolved(Ok(NEW_DIR.to_owned()));
    engine.data_dir_created(Err("disk full".to_owned()));
    let report = finish(engine);
    assert_eq!(report.migration_error.as_deref(), Some("create app data dir failed: disk full"));
    assert!(!report.migration_completed);
}

#[test]
fn copy_failure_reports_and_leaves_no_marker() {
    let mut engine = engine_through_probes(false, true);
    engine.destination_probed(false);
    engine.database_copied(Err("read-only filesystem".to_owned()));
    let report = finish(engine);
    assert!(report.migration_attempted);
    assert!(!report.migration_completed);
    assert!(!report.marker_present);
    assert_eq!(
        report.migration_error.as_deref(),
        Some("copy legacy database failed: read-only filesystem")
    );
}

#[test]
fn sidecar_copy_failure_is_fatal() {
    let mut engine = engine_through_probes(false, true);
    engine.destination_probed(false);
    engine.database_copied(Ok(()));
    engine.sidecar_probed(true);
    engine.sidecar_copied(Err("interrupted".to_owned()));
    let report = finish(engine);
    assert!(report.migration_attempted);
    assert!(!report.migration_completed);
    assert_eq!(report.migration_error.as_deref(), Some("copy sidecar -wal failed: interrupted"));
}

#[test]
fn metadata_failure_reports_which_side() {
    let mut engine = engine_through_probes(false, true);
    engine.destination_probed(false);
    engine.database_copied(Ok(()));
    engine.sidecar_probed(false);
    engine.sidecar_probed(false);
    engine.sizes_compared(SizeProbeOutcome::DestinationUnreadable("gone".to_owned()));
    let report = finish(engine);
    assert_eq!(report.migration_error.as_deref(), Some("read destination metadata failed: gone"));
    assert!(!report.migration_completed);
}

#[test]
fn marker_write_failure_is_an_error_despite_good_copy() {
    let mut engine = engine_through_probes(false, true);
    engine.destination_probed(false);
    engine.database_copied(Ok(()));
    engine.sidecar_probed(false);
    engine.sidecar_probed(false);
    engine.sizes_compared(SizeProbeOutcome::Sizes(10, 10));
    engine.marker_written(Err("no space".to_owned()));
    let report = finish(engine);
    assert!(report.migration_attempted);
    assert!(!report.migration_completed);
    assert!(!report.marker_present);
    assert_eq!(report.migration_error.as_deref(), Some("write migration marker failed: no space"));
}

#[test]
fn default_report_is_not_yet_evaluated() {
    let report = StartupMigrationReport::default();
    assert!(!report.legacy_path_detected);
    assert!(!report.marker_present);
    assert!(!report.migration_attempted);
    assert!(!report.migration_completed);
    assert!(report.migration_error.is_none());
    assert!(report.legacy_db_path.is_none());
    assert!(report.new_db_path.is_none());
}
