//! The one-time startup migration engine.
//!
//! The engine is a state machine: `next_step` names the file operation the
//! shell must perform, the shell performs it and reports the outcome through
//! the matching event method, and the engine decides what happens next.  The
//! shell does only I/O; detection, the idempotency gate, verification policy
//! and the report all live here, and every transition is proved equal to the
//! spec-level transition function it is named after.

use vstd::prelude::*;
use vstd::string::*;

use crate::marker::{marker_text_spec, render_migration_marker};
use crate::paths::{
    database_filename, database_filename_str, derive_legacy_app_data_dir, join_path, joined,
    legacy_dir_spec, migration_marker_filename, migration_marker_filename_str,
};
use crate::report::{ReportModel, StartupMigrationReport};
use crate::text::{concat2, concat3};

verus! {

/// Where the engine stands: each phase names the operation awaited next.
#[derive(Clone, Copy, Debug, PartialEq, Eq)]
pub enum MigrationPhase {
    AwaitResolve,
    AwaitCreate,
    AwaitMarkerProbe,
    AwaitLegacyProbe,
    AwaitDestinationProbe,
    AwaitCopy,
    AwaitSidecarProbe,
    AwaitSidecarCopy,
    AwaitSizes,
    AwaitMarkerWrite,
    Done,
}

/// The file operation the shell must perform next.
#[derive(Clone, Debug)]
pub enum MigrationStep {
    ResolveDataDir,
    CreateDataDir { dir: String },
    ProbeMarker { path: String },
    ProbeLegacyDatabase { path: String },
    ProbeDestinationDatabase { path: String },
    CopyDatabase { source: String, destination: String },
    ProbeSidecar { path: String },
    CopySidecar { source: String, destination: String },
    CompareSizes { source: String, destination: String },
    WriteMarker { path: String, contents: String },
    Finished,
}

/// How the shell answers a `CompareSizes` step: one of the two files could
/// not be read, or both sizes in bytes.
#[derive(Debug)]
pub enum SizeProbeOutcome {
    SourceUnreadable(String),
    DestinationUnreadable(String),
    Sizes(u64, u64),
}

/// The sidecar suffixes copied alongside the database, in order.
pub open spec fn sidecar_suffix(i: int) -> Seq<char> {
    if i == 0 {
        "-wal"@
    } else {
        "-shm"@
    }
}

pub fn sidecar_suffix_str(i: usize) -> (r: &'static str)
    ensures
        r@ == sidecar_suffix(i as int),
{
    if i == 0 {
        "-wal"
    } else {
        "-shm"
    }
}

/// The engine's mathematical state.
#[verifier::ext_equal]
pub ghost struct EngineModel {
    pub phase: MigrationPhase,
    pub report: ReportModel,
    pub dir: Seq<char>,
    pub new_db: Seq<char>,
    pub marker_path: Seq<char>,
    pub legacy_db: Seq<char>,
    pub sidecar_index: int,
    pub dest_existed: bool,
}

/// A freshly started engine: nothing resolved, the report not yet evaluated.
pub open spec fn initial_model() -> EngineModel {
    EngineModel {
        phase: MigrationPhase::AwaitResolve,
        report: ReportModel::initial(),
        dir: Seq::empty(),
        new_db: Seq::empty(),
        marker_path: Seq::empty(),
        legacy_db: Seq::empty(),
        sidecar_index: 0,
        dest_existed: false,
    }
}

/// Resolving the data directory: failure aborts with an error and all other
/// flags still false — the application must be able to start with no data.
pub open spec fn on_dir_resolved(m: EngineModel, outcome: Result<String, String>) -> EngineModel {
    match outcome {
        Ok(dir) => EngineModel { phase: MigrationPhase::AwaitCreate, dir: dir@, ..m },
        Err(e) => EngineModel {
            phase: MigrationPhase::Done,
            report: ReportModel {
                migration_error: Some("resolve app data dir failed: "@ + e@),
                ..m.report
            },
            ..m
        },
    }
}

/// Creating the data directory: on success the destination database path and
/// the marker path are fixed and the former is recorded in the report.
pub open spec fn on_dir_created(m: EngineModel, outcome: Result<(), String>) -> EngineModel {
    match outcome {
        Ok(_) => EngineModel {
            phase: MigrationPhase::AwaitMarkerProbe,
            new_db: joined(m.dir, database_filename()),
            marker_path: joined(m.dir, migration_marker_filename()),
            report: ReportModel {
                new_db_path: Some(joined(m.dir, database_filename())),
                ..m.report
            },
            ..m
        },
        Err(e) => EngineModel {
            phase: MigrationPhase::Done,
            report: ReportModel {
                migration_error: Some("create app data dir failed: "@ + e@),
                ..m.report
            },
            ..m
        },
    }
}

/// Probing the marker: its presence is recorded, and the legacy directory is
/// derived — with none inferable, the run ends here, the common steady
/// state once migration is complete.
pub open spec fn on_marker_probed(m: EngineModel, present: bool) -> EngineModel {
    let probed = ReportModel { marker_present: present, ..m.report };
    match legacy_dir_spec(m.dir) {
        Some(legacy_dir) => EngineModel {
            phase: MigrationPhase::AwaitLegacyProbe,
            legacy_db: joined(legacy_dir, database_filename()),
            report: ReportModel {
                legacy_db_path: Some(joined(legacy_dir, database_filename())),
                ..probed
            },
            ..m
        },
        None => EngineModel { phase: MigrationPhase::Done, report: probed, ..m },
    }
}

/// Probing the legacy database: without it there is nothing to migrate.
pub open spec fn on_legacy_probed(m: EngineModel, exists: bool) -> EngineModel {
    let probed = ReportModel { legacy_path_detected: exists, ..m.report };
    if exists {
        EngineModel { phase: MigrationPhase::AwaitDestinationProbe, report: probed, ..m }
    } else {
        EngineModel { phase: MigrationPhase::Done, report: probed, ..m }
    }
}

/// The idempotency gate: an existing marker or an existing destination
/// database means the migration already happened — it is marked completed
/// and no file is touched.  Otherwise the attempt begins.
pub open spec fn on_destination_probed(m: EngineModel, exists: bool) -> EngineModel {
    if m.report.marker_present || exists {
        EngineModel {
            phase: MigrationPhase::Done,
            dest_existed: exists,
            report: ReportModel { migration_completed: true, ..m.report },
            ..m
        }
    } else {
        EngineModel {
            phase: MigrationPhase::AwaitCopy,
            dest_existed: exists,
            report: ReportModel { migration_attempted: true, ..m.report },
            ..m
        }
    }
}

/// Copying the database: an I/O failure ends the run with an error and no
/// marker, so the migration is retried on the next start.
pub open spec fn on_database_copied(m: EngineModel, outcome: Result<(), String>) -> EngineModel {
    match outcome {
        Ok(_) => EngineModel { phase: MigrationPhase::AwaitSidecarProbe, sidecar_index: 0, ..m },
        Err(e) => EngineModel {
            phase: MigrationPhase::Done,
            report: ReportModel {
                migration_error: Some("copy legacy database failed: "@ + e@),
                ..m.report
            },
            ..m
        },
    }
}

/// Moving to the next sidecar suffix, or on to verification after the last.
pub open spec fn advance_sidecar(m: EngineModel) -> EngineModel {
    if m.sidecar_index + 1 < 2 {
        EngineModel {
            phase: MigrationPhase::AwaitSidecarProbe,
            sidecar_index: m.sidecar_index + 1,
            ..m
        }
    } else {
        EngineModel { phase: MigrationPhase::AwaitSizes, ..m }
    }
}

/// Probing one sidecar: an absent sidecar is simply skipped.
pub open spec fn on_sidecar_probed(m: EngineModel, exists: bool) -> EngineModel {
    if exists {
        EngineModel { phase: MigrationPhase::AwaitSidecarCopy, ..m }
    } else {
        advance_sidecar(m)
    }
}

/// Copying one sidecar: a failure is fatal to the migration — a copied
/// database without its in-flight journal files is unsafe to treat as
/// migrated.
pub open spec fn on_sidecar_copied(m: EngineModel, outcome: Result<(), String>) -> EngineModel {
    match outcome {
        Ok(_) => advance_sidecar(m),
        Err(e) => EngineModel {
            phase: MigrationPhase::Done,
            report: ReportModel {
                migration_error: Some(
                    "copy sidecar "@ + sidecar_suffix(m.sidecar_index) + " failed: "@ + e@,
                ),
                ..m.report
            },
            ..m
        },
    }
}

/// Verifying the copy by file size: a mismatch is a migration error and the
/// run stays incomplete.  A deliberate lightweight check — equal sizes do
/// not rule out a corrupted copy.
pub open spec fn on_sizes_compared(m: EngineModel, outcome: SizeProbeOutcome) -> EngineModel {
    match outcome {
        SizeProbeOutcome::SourceUnreadable(e) => EngineModel {
            phase: MigrationPhase::Done,
            report: ReportModel {
                migration_error: Some("read source metadata failed: "@ + e@),
                ..m.report
            },
            ..m
        },
        SizeProbeOutcome::DestinationUnreadable(e) => EngineModel {
            phase: MigrationPhase::Done,
            report: ReportModel {
                migration_error: Some("read destination metadata failed: "@ + e@),
                ..m.report
            },
            ..m
        },
        SizeProbeOutcome::Sizes(src, dst) => if src != dst {
            EngineModel {
                phase: MigrationPhase::Done,
                report: ReportModel {
                    migration_error: Some("copied database size mismatch"@),
                    ..m.report
                },
                ..m
            }
        } else {
            EngineModel { phase: MigrationPhase::AwaitMarkerWrite, ..m }
        },
    }
}

/// Writing the marker: only now is the migration complete.  A write failure
/// is an error even though the copy succeeded — without the marker the
/// caller must not assume migration correctness.
pub open spec fn on_marker_written(m: EngineModel, outcome: Result<(), String>) -> EngineModel {
    match outcome {
        Ok(_) => EngineModel {
            phase: MigrationPhase::Done,
            report: ReportModel { marker_present: true, migration_completed: true, ..m.report },
            ..m
        },
        Err(e) => EngineModel {
            phase: MigrationPhase::Done,
            report: ReportModel {
                migration_error: Some("write migration marker failed: "@ + e@),
                ..m.report
            },
            ..m
        },
    }
}

/// The startup migration engine.  The shell drives it: perform the step
/// `next_step` names, answer through the matching event method, repeat until
/// `Finished`, then take the report.
pub struct MigrationEngine {
    pub phase: MigrationPhase,
    pub report: StartupMigrationReport,
    pub new_data_dir: String,
    pub new_db_path: String,
    pub marker_path: String,
    pub legacy_db_path: String,
    pub sidecar_index: usize,
    pub dest_existed: bool,
}

impl View for MigrationEngine {
    type V = EngineModel;

    open spec fn view(&self) -> EngineModel {
        EngineModel {
            phase: self.phase,
            report: self.report@,
            dir: self.new_data_dir@,
            new_db: self.new_db_path@,
            marker_path: self.marker_path@,
            legacy_db: self.legacy_db_path@,
            sidecar_index: self.sidecar_index as int,
            dest_existed: self.dest_existed,
        }
    }
}

impl MigrationEngine {
    /// Starts a migration run.
    pub fn new() -> (e: MigrationEngine)
        ensures
            e@ == initial_model(),
    {
        let e = MigrationEngine {
            phase: MigrationPhase::AwaitResolve,
            report: StartupMigrationReport::default(),
            new_data_dir: String::new(),
            new_db_path: String::new(),
            marker_path: String::new(),
            legacy_db_path: String::new(),
            sidecar_index: 0,
            dest_existed: false,
        };
        proof {
            assert(e@ =~= initial_model());
        }
        e
    }

    /// The file operation the shell must perform next.
    pub fn next_step(&self) -> (s: MigrationStep)
        ensures
            self@.phase is AwaitResolve ==> s is ResolveDataDir,
            self@.phase is AwaitCreate ==> (s matches MigrationStep::CreateDataDir { dir } && dir@
                == self@.dir),
            self@.phase is AwaitMarkerProbe ==> (s matches MigrationStep::ProbeMarker { path }
                && path@ == self@.marker_path),
            self@.phase is AwaitLegacyProbe ==> (s matches MigrationStep::ProbeLegacyDatabase {
                path,
            } && path@ == self@.legacy_db),
            self@.phase is AwaitDestinationProbe ==> (s
                matches MigrationStep::ProbeDestinationDatabase { path } && path@ == self@.new_db),
            self@.phase is AwaitCopy ==> (s matches MigrationStep::CopyDatabase {
                source,
                destination,
            } && source@ == self@.legacy_db && destination@ == self@.new_db),
            self@.phase is AwaitSidecarProbe ==> (s matches MigrationStep::ProbeSidecar { path }
                && path@ == self@.legacy_db + sidecar_suffix(self@.sidecar_index)),
            self@.phase is AwaitSidecarCopy ==> (s matches MigrationStep::CopySidecar {
                source,
                destination,
            } && source@ == self@.legacy_db + sidecar_suffix(self@.sidecar_index) && destination@
                == self@.new_db + sidecar_suffix(self@.sidecar_index)),
            self@.phase is AwaitSizes ==> (s matches MigrationStep::CompareSizes {
                source,
                destination,
            } && source@ == self@.legacy_db && destination@ == self@.new_db),
            self@.phase is AwaitMarkerWrite ==> (s matches MigrationStep::WriteMarker {
                path,
                contents,
            } && path@ == self@.marker_path && contents@ == marker_text_spec(
                self@.legacy_db,
                self@.new_db,
            )),
            self@.phase is Done ==> s is Finished,
    {
        match self.phase {
            MigrationPhase::AwaitResolve => MigrationStep::ResolveDataDir,
            MigrationPhase::AwaitCreate => MigrationStep::CreateDataDir {
                dir: self.new_data_dir.clone(),
            },
            MigrationPhase::AwaitMarkerProbe => MigrationStep::ProbeMarker {
                path: self.marker_path.clone(),
            },
            MigrationPhase::AwaitLegacyProbe => MigrationStep::ProbeLegacyDatabase {
                path: self.legacy_db_path.clone(),
            },
            MigrationPhase::AwaitDestinationProbe => MigrationStep::ProbeDestinationDatabase {
                path: self.new_db_path.clone(),
            },
            MigrationPhase::AwaitCopy => MigrationStep::CopyDatabase {
                source: self.legacy_db_path.clone(),
                destination: self.new_db_path.clone(),
            },
            MigrationPhase::AwaitSidecarProbe => MigrationStep::ProbeSidecar {
                path: concat2(self.legacy_db_path.as_str(), sidecar_suffix_str(self.sidecar_index)),
            },
            MigrationPhase::AwaitSidecarCopy => MigrationStep::CopySidecar {
                source: concat2(
                    self.legacy_db_path.as_str(),
                    sidecar_suffix_str(self.sidecar_index),
                ),
                destination: concat2(
                    self.new_db_path.as_str(),
                    sidecar_suffix_str(self.sidecar_index),
                ),
            },
            MigrationPhase::AwaitSizes => MigrationStep::CompareSizes {
                source: self.legacy_db_path.clone(),
                destination: self.new_db_path.clone(),
            },
            MigrationPhase::AwaitMarkerWrite => MigrationStep::WriteMarker {
                path: self.marker_path.clone(),
                contents: render_migration_marker(
                    self.legacy_db_path.as_str(),
                    self.new_db_path.as_str(),
                ),
            },
            MigrationPhase::Done => MigrationStep::Finished,
        }
    }

    /// Whether the run is over and the report final.
    pub fn is_finished(&self) -> (r: bool)
        ensures
            r == (self@.phase is Done),
    {
        match self.phase {
            MigrationPhase::Done => true,
            _ => false,
        }
    }

    /// The final report.
    pub fn into_report(self) -> (r: StartupMigrationReport)
        ensures
            r@ == self@.report,
    {
        self.report
    }

    /// Answers `ResolveDataDir`.
    pub fn data_dir_resolved(&mut self, outcome: Result<String, String>)
        requires
            old(self)@.phase is AwaitResolve,
        ensures
            final(self)@ == on_dir_resolved(old(self)@, outcome),
    {
        let ghost pre = *self;
        match outcome {
            Ok(dir) => {
                self.new_data_dir = dir;
                self.phase = MigrationPhase::AwaitCreate;
            },
            Err(e) => {
                self.report.migration_error = Some(
                    concat2("resolve app data dir failed: ", e.as_str()),
                );
                self.phase = MigrationPhase::Done;
            },
        }
        proof {
            assert(self@ =~= on_dir_resolved(pre@, outcome));
        }
    }

    /// Answers `CreateDataDir`.
    pub fn data_dir_created(&mut self, outcome: Result<(), String>)
        requires
            old(self)@.phase is AwaitCreate,
        ensures
            final(self)@ == on_dir_created(old(self)@, outcome),
    {
        let ghost pre = *self;
        match outcome {
            Ok(_) => {
                let new_db = join_path(self.new_data_dir.as_str(), database_filename_str());
                self.report.new_db_path = Some(new_db.clone());
                self.new_db_path = new_db;
                self.marker_path = join_path(
                    self.new_data_dir.as_str(),
                    migration_marker_filename_str(),
                );
                self.phase = MigrationPhase::AwaitMarkerProbe;
            },
            Err(e) => {
                self.report.migration_error = Some(
                    concat2("create app data dir failed: ", e.as_str()),
                );
                self.phase = MigrationPhase::Done;
            },
        }
        proof {
            assert(self@ =~= on_dir_created(pre@, outcome));
        }
    }

    /// Answers `ProbeMarker`; the legacy directory is derived here.
    pub fn marker_probed(&mut self, present: bool)
        requires
            old(self)@.phase is AwaitMarkerProbe,
        ensures
            final(self)@ == on_marker_probed(old(self)@, present),
    {
        let ghost pre = *self;
        self.report.marker_present = present;
        match derive_legacy_app_data_dir(self.new_data_dir.as_str()) {
            Some(legacy_dir) => {
                let legacy_db = join_path(legacy_dir.as_str(), database_filename_str());
                self.report.legacy_db_path = Some(legacy_db.clone());
                self.legacy_db_path = legacy_db;
                self.phase = MigrationPhase::AwaitLegacyProbe;
            },
            None => {
                self.phase = MigrationPhase::Done;
            },
        }
        proof {
            assert(self@ =~= on_marker_probed(pre@, present));
        }
    }

    /// Answers `ProbeLegacyDatabase`.
    pub fn legacy_probed(&mut self, exists: bool)
        requires
            old(self)@.phase is AwaitLegacyProbe,
        ensures
            final(self)@ == on_legacy_probed(old(self)@, exists),
    {
        let ghost pre = *self;
        self.report.legacy_path_detected = exists;
        if exists {
            self.phase = MigrationPhase::AwaitDestinationProbe;
        } else {
            self.phase = MigrationPhase::Done;
        }
        proof {
            assert(self@ =~= on_legacy_probed(pre@, exists));
        }
    }

    /// Answers `ProbeDestinationDatabase`: the idempotency gate.
    pub fn destination_probed(&mut self, exists: bool)
        requires
            old(self)@.phase is AwaitDestinationProbe,
        ensures
            final(self)@ == on_destination_probed(old(self)@, exists),
    {
        let ghost pre = *self;
        self.dest_existed = exists;
        if self.report.marker_present || exists {
            self.report.migration_completed = true;
            self.phase = MigrationPhase::Done;
        } else {
            self.report.migration_attempted = true;
            self.phase = MigrationPhase::AwaitCopy;
        }
        proof {
            assert(self@ =~= on_destination_probed(pre@, exists));
        }
    }

    /// Answers `CopyDatabase`.
    pub fn database_copied(&mut self, outcome: Result<(), String>)
        requires
            old(self)@.phase is AwaitCopy,
        ensures
            final(self)@ == on_database_copied(old(self)@, outcome),
    {
        let ghost pre = *self;
        match outcome {
            Ok(_) => {
                self.sidecar_index = 0;
                self.phase = MigrationPhase::AwaitSidecarProbe;
            },
            Err(e) => {
                self.report.migration_error = Some(
                    concat2("copy legacy database failed: ", e.as_str()),
                );
                self.phase = MigrationPhase::Done;
            },
        }
        proof {
            assert(self@ =~= on_database_copied(pre@, outcome));
        }
    }

    fn advance_sidecar_state(&mut self)
        ensures
            final(self)@ == advance_sidecar(old(self)@),
    {
        let ghost pre = *self;
        if self.sidecar_index < 1 {
            self.sidecar_index = self.sidecar_index + 1;
            self.phase = MigrationPhase::AwaitSidecarProbe;
        } else {
            self.phase = MigrationPhase::AwaitSizes;
        }
        proof {
            assert(self@ =~= advance_sidecar(pre@));
        }
    }

    /// Answers `ProbeSidecar`.
    pub fn sidecar_probed(&mut self, exists: bool)
        requires
            old(self)@.phase is AwaitSidecarProbe,
        ensures
            final(self)@ == on_sidecar_probed(old(self)@, exists),
    {
        let ghost pre = *self;
        if exists {
            self.phase = MigrationPhase::AwaitSidecarCopy;
            proof {
                assert(self@ =~= on_sidecar_probed(pre@, exists));
            }
        } else {
            self.advance_sidecar_state();
        }
    }

    /// Answers `CopySidecar`.
    pub fn sidecar_copied(&mut self, outcome: Result<(), String>)
        requires
            old(self)@.phase is AwaitSidecarCopy,
        ensures
            final(self)@ == on_sidecar_copied(old(self)@, outcome),
    {
        let ghost pre = *self;
        match outcome {
            Ok(_) => {
                self.advance_sidecar_state();
            },
            Err(e) => {
                let prefix = concat3(
                    "copy sidecar ",
                    sidecar_suffix_str(self.sidecar_index),
                    " failed: ",
                );
                self.report.migration_error = Some(concat2(prefix.as_str(), e.as_str()));
                self.phase = MigrationPhase::Done;
                proof {
                    assert(self@ =~= on_sidecar_copied(pre@, outcome));
                }
            },
        }
    }

    /// Answers `CompareSizes`.
    pub fn sizes_compared(&mut self, outcome: SizeProbeOutcome)
        requires
            old(self)@.phase is AwaitSizes,
        ensures
            final(self)@ == on_sizes_compared(old(self)@, outcome),
    {
        let ghost pre = *self;
        match outcome {
            SizeProbeOutcome::SourceUnreadable(e) => {
                self.report.migration_error = Some(
                    concat2("read source metadata failed: ", e.as_str()),
                );
                self.phase = MigrationPhase::Done;
            },
            SizeProbeOutcome::DestinationUnreadable(e) => {
                self.report.migration_error = Some(
                    concat2("read destination metadata failed: ", e.as_str()),
                );
                self.phase = MigrationPhase::Done;
            },
            SizeProbeOutcome::Sizes(src, dst) => {
                if src != dst {
                    self.report.migration_error = Some(
                        String::from_str("copied database size mismatch"),
                    );
                    self.phase = MigrationPhase::Done;
                } else {
                    self.phase = MigrationPhase::AwaitMarkerWrite;
                }
            },
        }
        proof {
            assert(self@ =~= on_sizes_compared(pre@, outcome));
        }
    }

    /// Answers `WriteMarker`.
    pub fn marker_written(&mut self, outcome: Result<(), String>)
        requires
            old(self)@.phase is AwaitMarkerWrite,
        ensures
            final(self)@ == on_marker_written(old(self)@, outcome),
    {
        let ghost pre = *self;
        match outcome {
            Ok(_) => {
                self.report.marker_present = true;
                self.report.migration_completed = true;
                self.phase = MigrationPhase::Done;
            },
            Err(e) => {
                self.report.migration_error = Some(
                    concat2("write migration marker failed: ", e.as_str()),
                );
                self.phase = MigrationPhase::Done;
            },
        }
        proof {
            assert(self@ =~= on_marker_written(pre@, outcome));
        }
    }
}

/// One sidecar handled end to end: probed, and copied cleanly if present.
pub open spec fn run_sidecar_round(m: EngineModel, present: bool) -> EngineModel {
    if present {
        on_sidecar_copied(on_sidecar_probed(m, true), Result::<(), String>::Ok(()))
    } else {
        on_sidecar_probed(m, false)
    }
}

/// With no legacy directory inferable, a run over an existing data directory
/// ends at the marker probe with nothing detected, nothing attempted,
/// nothing completed and no error.
pub proof fn lemma_migration_no_legacy(dir: String, marker_present: bool)
    requires
        legacy_dir_spec(dir@) is None,
    ensures
        ({
            let m = on_marker_probed(
                on_dir_created(
                    on_dir_resolved(initial_model(), Result::<String, String>::Ok(dir)),
                    Result::<(), String>::Ok(()),
                ),
                marker_present,
            );
            &&& m.phase is Done
            &&& !m.report.legacy_path_detected
            &&& !m.report.migration_attempted
            &&& !m.report.migration_completed
            &&& m.report.migration_error is None
        }),
{
}

/// Given a legacy database, no marker and no destination database, a run
/// whose copies succeed and whose sizes agree attempts and completes the
/// migration, records the marker as present, and writes the marker with the
/// resolved source and destination paths.
pub proof fn lemma_migration_first_run(
    dir: String,
    wal_present: bool,
    shm_present: bool,
    src_size: u64,
    dst_size: u64,
)
    requires
        legacy_dir_spec(dir@) is Some,
        src_size == dst_size,
    ensures
        ({
            let m0 = on_dir_resolved(initial_model(), Result::<String, String>::Ok(dir));
            let m1 = on_dir_created(m0, Result::<(), String>::Ok(()));
            let m2 = on_marker_probed(m1, false);
            let m3 = on_legacy_probed(m2, true);
            let m4 = on_destination_probed(m3, false);
            let m5 = on_database_copied(m4, Result::<(), String>::Ok(()));
            let m6 = run_sidecar_round(m5, wal_present);
            let m7 = run_sidecar_round(m6, shm_present);
            let m8 = on_sizes_compared(m7, SizeProbeOutcome::Sizes(src_size, dst_size));
            let m9 = on_marker_written(m8, Result::<(), String>::Ok(()));
            &&& m8.phase is AwaitMarkerWrite
            &&& m8.legacy_db == joined(legacy_dir_spec(dir@)->Some_0, database_filename())
            &&& m8.new_db == joined(dir@, database_filename())
            &&& m8.marker_path == joined(dir@, migration_marker_filename())
            &&& m9.phase is Done
            &&& m9.report.migration_attempted
            &&& m9.report.migration_completed
            &&& m9.report.marker_present
            &&& m9.report.migration_error is None
            &&& m9.report.legacy_db_path == Some(m8.legacy_db)
            &&& m9.report.new_db_path == Some(m8.new_db)
        }),
{
}

/// With the marker already present, a second run under the same conditions
/// ends right at the idempotency gate: completed but not attempted, and the
/// engine is done, so no copy or write step is ever issued.
pub proof fn lemma_migration_marker_short_circuit(dir: String, dest_exists: bool)
    requires
        legacy_dir_spec(dir@) is Some,
    ensures
        ({
            let m = on_destination_probed(
                on_legacy_probed(
                    on_marker_probed(
                        on_dir_created(
                            on_dir_resolved(initial_model(), Result::<String, String>::Ok(dir)),
                            Result::<(), String>::Ok(()),
                        ),
                        true,
                    ),
                    true,
                ),
                dest_exists,
            );
            &&& m.phase is Done
            &&& !m.report.migration_attempted
            &&& m.report.migration_completed
            &&& m.report.marker_present
            &&& m.report.migration_error is None
        }),
{
}

/// With the destination database already present but no marker, the run is
/// treated as already migrated: completed without an attempt, no re-copy.
pub proof fn lemma_migration_destination_short_circuit(dir: String)
    requires
        legacy_dir_spec(dir@) is Some,
    ensures
        ({
            let m = on_destination_probed(
                on_legacy_probed(
                    on_marker_probed(
                        on_dir_created(
                            on_dir_resolved(initial_model(), Result::<String, String>::Ok(dir)),
                            Result::<(), String>::Ok(()),
                        ),
                        false,
                    ),
                    true,
                ),
                true,
            );
            &&& m.phase is Done
            &&& !m.report.migration_attempted
            &&& m.report.migration_completed
            &&& !m.report.marker_present
            &&& m.report.migration_error is None
        }),
{
}

/// When the source and destination sizes disagree after the copy, the run
/// ends with the size-mismatch error and the migration stays incomplete.
pub proof fn lemma_migration_size_mismatch(
    dir: String,
    wal_present: bool,
    shm_present: bool,
    src_size: u64,
    dst_size: u64,
)
    requires
        legacy_dir_spec(dir@) is Some,
        src_size != dst_size,
    ensures
        ({
            let m0 = on_dir_resolved(initial_model(), Result::<String, String>::Ok(dir));
            let m1 = on_dir_created(m0, Result::<(), String>::Ok(()));
            let m2 = on_marker_probed(m1, false);
            let m3 = on_legacy_probed(m2, true);
            let m4 = on_destination_probed(m3, false);
            let m5 = on_database_copied(m4, Result::<(), String>::Ok(()));
            let m6 = run_sidecar_round(m5, wal_present);
            let m7 = run_sidecar_round(m6, shm_present);
            let m8 = on_sizes_compared(m7, SizeProbeOutcome::Sizes(src_size, dst_size));
            &&& m8.phase is Done
            &&& m8.report.migration_error == Some("copied database size mismatch"@)
            &&& !m8.report.migration_completed
            &&& m8.report.migration_attempted
        }),
{
}

/// The report's consistency: a completed migration rests on a marker or on
/// a destination that already existed, and an attempt requires a detected
/// legacy database with neither marker nor destination at probe time.
pub open spec fn report_consistent(m: EngineModel) -> bool {
    &&& (m.report.migration_completed ==> m.report.marker_present || m.dest_existed)
    &&& (m.report.migration_attempted ==> m.report.legacy_path_detected && !m.dest_existed && (
    m.report.marker_present ==> m.report.migration_completed))
}

/// What holds of the engine at each phase, strong enough to carry the
/// report's consistency through every transition.
pub open spec fn engine_wf(m: EngineModel) -> bool {
    &&& report_consistent(m)
    &&& ((m.phase is AwaitResolve || m.phase is AwaitCreate || m.phase is AwaitMarkerProbe
        || m.phase is AwaitLegacyProbe || m.phase is AwaitDestinationProbe)
        ==> !m.report.migration_attempted && !m.report.migration_completed)
    &&& (m.phase is AwaitDestinationProbe ==> m.report.legacy_path_detected)
    &&& ((m.phase is AwaitCopy || m.phase is AwaitSidecarProbe || m.phase is AwaitSidecarCopy
        || m.phase is AwaitSizes || m.phase is AwaitMarkerWrite)
        ==> m.report.migration_attempted && !m.report.marker_present
        && !m.report.migration_completed && m.report.legacy_path_detected && !m.dest_existed)
}

/// A freshly started engine is well formed, and every transition, taken at
/// its phase, preserves well-formedness — so the report's consistency holds
/// whenever a run ends.
pub proof fn lemma_engine_preserves_consistency(
    m: EngineModel,
    resolve: Result<String, String>,
    create: Result<(), String>,
    probe: bool,
    copy: Result<(), String>,
    sizes: SizeProbeOutcome,
    written: Result<(), String>,
)
    requires
        engine_wf(m),
    ensures
        engine_wf(initial_model()),
        m.phase is AwaitResolve ==> engine_wf(on_dir_resolved(m, resolve)),
        m.phase is AwaitCreate ==> engine_wf(on_dir_created(m, create)),
        m.phase is AwaitMarkerProbe ==> engine_wf(on_marker_probed(m, probe)),
        m.phase is AwaitLegacyProbe ==> engine_wf(on_legacy_probed(m, probe)),
        m.phase is AwaitDestinationProbe ==> engine_wf(on_destination_probed(m, probe)),
        m.phase is AwaitCopy ==> engine_wf(on_database_copied(m, copy)),
        m.phase is AwaitSidecarProbe ==> engine_wf(on_sidecar_probed(m, probe)),
        m.phase is AwaitSidecarCopy ==> engine_wf(on_sidecar_copied(m, copy)),
        m.phase is AwaitSizes ==> engine_wf(on_sizes_compared(m, sizes)),
        m.phase is AwaitMarkerWrite ==> engine_wf(on_marker_written(m, written)),
{
}

} // verus!
