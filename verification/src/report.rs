//! The startup-migration report: an immutable-after-construction record of
//! what the migration engine found and did, read later by the shell.

use vstd::prelude::*;

use crate::text::opt_text;

verus! {

/// What one process start's migration run found and did.  All flags false
/// and all paths absent means "not yet evaluated", which is also the safe
/// fallback when the shared holder is unreachable.
#[derive(Clone, Debug)]
pub struct StartupMigrationReport {
    pub legacy_path_detected: bool,
    pub marker_present: bool,
    pub migration_attempted: bool,
    pub migration_completed: bool,
    pub migration_error: Option<String>,
    pub legacy_db_path: Option<String>,
    pub new_db_path: Option<String>,
}

/// The report's mathematical value: the same record over sequences of
/// characters.
#[verifier::ext_equal]
pub ghost struct ReportModel {
    pub legacy_path_detected: bool,
    pub marker_present: bool,
    pub migration_attempted: bool,
    pub migration_completed: bool,
    pub migration_error: Option<Seq<char>>,
    pub legacy_db_path: Option<Seq<char>>,
    pub new_db_path: Option<Seq<char>>,
}

impl View for StartupMigrationReport {
    type V = ReportModel;

    open spec fn view(&self) -> ReportModel {
        ReportModel {
            legacy_path_detected: self.legacy_path_detected,
            marker_present: self.marker_present,
            migration_attempted: self.migration_attempted,
            migration_completed: self.migration_completed,
            migration_error: opt_text(self.migration_error),
            legacy_db_path: opt_text(self.legacy_db_path),
            new_db_path: opt_text(self.new_db_path),
        }
    }
}

impl ReportModel {
    /// The not-yet-evaluated report: all flags false, all paths absent.
    pub open spec fn initial() -> ReportModel {
        ReportModel {
            legacy_path_detected: false,
            marker_present: false,
            migration_attempted: false,
            migration_completed: false,
            migration_error: None,
            legacy_db_path: None,
            new_db_path: None,
        }
    }
}

impl Default for StartupMigrationReport {
    /// The not-yet-evaluated report.
    fn default() -> (r: StartupMigrationReport)
        ensures
            r@ == ReportModel::initial(),
    {
        StartupMigrationReport {
            legacy_path_detected: false,
            marker_present: false,
            migration_attempted: false,
            migration_completed: false,
            migration_error: None,
            legacy_db_path: None,
            new_db_path: None,
        }
    }
}

} // verus!
