use crate::clock::Timestamp;
use crate::layout::{
    automatic_dir, automatic_snapshot, automatic_snapshot_path, live_path, manual_dir,
    manual_snapshot, manual_snapshot_path, safeguard_path, shm_path, wal_path, AUTOMATIC_DIR,
    LIVE_DB, MANUAL_DIR, SAFEGUARD_DB, SHM_SIDECAR, WAL_SIDECAR,
};
use vstd::prelude::*;

verus! {

/// What a copy does when its destination is already there.
#[derive(Clone, Copy, Debug, PartialEq, Eq, Structural)]
pub enum CollisionPolicy {
    /// Leave the destination alone and report success.
    SkipIfPresent,
    /// Replace the destination.
    Overwrite,
}

/// How a failure of a step is reported to the caller.
#[derive(Clone, Copy, Debug, PartialEq, Eq, Structural)]
pub enum Report {
    /// The underlying error text, as it is.
    Verbatim,
    /// The error text behind a note that a snapshot copy failed.
    CopyFailed,
    /// The error text behind a note that restoring a snapshot failed.
    RestoreFailed,
}

/// What the operation does when a step fails.
#[derive(Clone, Copy, Debug, PartialEq, Eq, Structural)]
pub enum OnFailure {
    /// Best effort: carry on with the next step.
    Ignore,
    /// Stop the operation and report the failure.
    Stop(Report),
}

/// One file-system operation, on paths relative to the data directory.
#[derive(Clone, Debug)]
pub enum FileOp {
    /// Create the directory and every missing parent; success if present.
    CreateDirAll { dir: String },
    /// Copy the bytes of `from` to `to`, as `policy` says.
    Copy { from: String, to: String, policy: CollisionPolicy },
    /// Move `from` to `to`, replacing whatever `to` held.
    Rename { from: String, to: String },
    /// Delete the file.
    Remove { path: String },
}

/// One operation and what to do if it fails.
#[derive(Clone, Debug)]
pub struct Step {
    pub op: FileOp,
    pub on_failure: OnFailure,
}

/// The meaning of a `FileOp`.
pub enum OpModel {
    CreateDirAll(Seq<char>),
    Copy(Seq<char>, Seq<char>, CollisionPolicy),
    Rename(Seq<char>, Seq<char>),
    Remove(Seq<char>),
}

/// The meaning of a `Step`.
pub struct StepModel {
    pub op: OpModel,
    pub on_failure: OnFailure,
}

impl View for FileOp {
    type V = OpModel;

    open spec fn view(&self) -> OpModel {
        match self {
            FileOp::CreateDirAll { dir } => OpModel::CreateDirAll(dir@),
            FileOp::Copy { from, to, policy } => OpModel::Copy(from@, to@, *policy),
            FileOp::Rename { from, to } => OpModel::Rename(from@, to@),
            FileOp::Remove { path } => OpModel::Remove(path@),
        }
    }
}

impl View for Step {
    type V = StepModel;

    open spec fn view(&self) -> StepModel {
        StepModel { op: self.op@, on_failure: self.on_failure }
    }
}

pub open spec fn steps_view(s: Seq<Step>) -> Seq<StepModel> {
    s.map_values(|x: Step| x@)
}

/// The data directory: the bytes of each file, and the directories, by path.
pub struct DataDir {
    pub files: Map<Seq<char>, Seq<u8>>,
    pub dirs: Set<Seq<char>>,
}

/// The effect of an operation that succeeds. A copy from a missing file is a
/// failure and changes nothing.
pub open spec fn apply_op(d: DataDir, op: OpModel) -> DataDir {
    match op {
        OpModel::CreateDirAll(p) => DataDir { dirs: d.dirs.insert(p), ..d },
        OpModel::Copy(from, to, policy) => {
            if !d.files.contains_key(from) || (policy == CollisionPolicy::SkipIfPresent
                && d.files.contains_key(to)) {
                d
            } else {
                DataDir { files: d.files.insert(to, d.files[from]), ..d }
            }
        },
        OpModel::Rename(from, to) => {
            if d.files.contains_key(from) {
                DataDir { files: d.files.remove(from).insert(to, d.files[from]), ..d }
            } else {
                d
            }
        },
        OpModel::Remove(p) => DataDir { files: d.files.remove(p), ..d },
    }
}

/// The data directory after every step has succeeded, in order.
pub open spec fn run_steps(d: DataDir, steps: Seq<StepModel>) -> DataDir
    decreases steps.len(),
{
    if steps.len() == 0 {
        d
    } else {
        run_steps(apply_op(d, steps[0].op), steps.drop_first())
    }
}

pub open spec fn stop(op: OpModel, report: Report) -> StepModel {
    StepModel { op, on_failure: OnFailure::Stop(report) }
}

pub open spec fn ignore(op: OpModel) -> StepModel {
    StepModel { op, on_failure: OnFailure::Ignore }
}

/// The startup backup: nothing when there is no live file; else make sure the
/// automatic directory exists and copy the live file to the day's snapshot,
/// unless that snapshot is already there.
pub open spec fn startup_steps(live_exists: bool, t: Timestamp) -> Seq<StepModel> {
    if !live_exists {
        seq![]
    } else {
        seq![
            stop(OpModel::CreateDirAll(automatic_dir()), Report::Verbatim),
            stop(
                OpModel::Copy(live_path(), automatic_snapshot(t), CollisionPolicy::SkipIfPresent),
                Report::Verbatim,
            ),
        ]
    }
}

/// The manual backup of a present live file: make sure the manual directory
/// exists, then copy the live file to the snapshot named by `t`.
pub open spec fn manual_steps(t: Timestamp) -> Seq<StepModel> {
    seq![
        stop(OpModel::CreateDirAll(manual_dir()), Report::Verbatim),
        stop(
            OpModel::Copy(live_path(), manual_snapshot(t), CollisionPolicy::Overwrite),
            Report::CopyFailed,
        ),
    ]
}

/// The restore from `chosen`: set a present live file aside, delete both
/// sidecars, all three at best effort, then copy the snapshot over the live
/// path.
pub open spec fn restore_steps(live_exists: bool, chosen: Seq<char>) -> Seq<StepModel> {
    let tail = seq![
        ignore(OpModel::Remove(wal_path())),
        ignore(OpModel::Remove(shm_path())),
        stop(
            OpModel::Copy(chosen, live_path(), CollisionPolicy::Overwrite),
            Report::RestoreFailed,
        ),
    ];
    if live_exists {
        seq![ignore(OpModel::Rename(live_path(), safeguard_path()))] + tail
    } else {
        tail
    }
}

fn owned(s: &str) -> (r: String)
    ensures
        r@ == s@,
{
    String::from_str(s)
}

/// The steps of the startup backup, given whether the live file exists and
/// the local time.
pub fn plan_startup_backup(live_exists: bool, now: &Timestamp) -> (r: Vec<Step>)
    requires
        now.wf(),
    ensures
        steps_view(r@) == startup_steps(live_exists, *now),
{
    let mut r: Vec<Step> = Vec::new();
    if live_exists {
        r.push(
            Step {
                op: FileOp::CreateDirAll { dir: owned(AUTOMATIC_DIR) },
                on_failure: OnFailure::Stop(Report::Verbatim),
            },
        );
        r.push(
            Step {
                op: FileOp::Copy {
                    from: owned(LIVE_DB),
                    to: automatic_snapshot_path(now),
                    policy: CollisionPolicy::SkipIfPresent,
                },
                on_failure: OnFailure::Stop(Report::Verbatim),
            },
        );
    }
    assert(steps_view(r@) =~= startup_steps(live_exists, *now));
    r
}

/// Why a manual backup could not be planned.
#[derive(Clone, Copy, Debug, PartialEq, Eq, Structural)]
pub enum BackupError {
    /// There is no live database file to copy.
    DatabaseNotFound,
}

/// The steps of a manual backup taken at `now`; `DatabaseNotFound`, and no
/// step at all, when the live file is absent.
pub fn plan_manual_backup(live_exists: bool, now: &Timestamp) -> (r: Result<
    Vec<Step>,
    BackupError,
>)
    requires
        now.wf(),
    ensures
        r is Err <==> !live_exists,
        r matches Err(e) ==> e == BackupError::DatabaseNotFound,
        r matches Ok(steps) ==> steps_view(steps@) == manual_steps(*now),
{
    if !live_exists {
        return Err(BackupError::DatabaseNotFound);
    }
    let mut r: Vec<Step> = Vec::new();
    r.push(
        Step {
            op: FileOp::CreateDirAll { dir: owned(MANUAL_DIR) },
            on_failure: OnFailure::Stop(Report::Verbatim),
        },
    );
    r.push(
        Step {
            op: FileOp::Copy {
                from: owned(LIVE_DB),
                to: manual_snapshot_path(now),
                policy: CollisionPolicy::Overwrite,
            },
            on_failure: OnFailure::Stop(Report::CopyFailed),
        },
    );
    assert(steps_view(r@) =~= manual_steps(*now));
    Ok(r)
}

/// The steps of a restore from the snapshot at `chosen`, given whether the
/// live file exists.
pub fn plan_restore(live_exists: bool, chosen: &str) -> (r: Vec<Step>)
    ensures
        steps_view(r@) == restore_steps(live_exists, chosen@),
{
    let mut r: Vec<Step> = Vec::new();
    if live_exists {
        r.push(
            Step {
                op: FileOp::Rename { from: owned(LIVE_DB), to: owned(SAFEGUARD_DB) },
                on_failure: OnFailure::Ignore,
            },
        );
    }
    r.push(Step { op: FileOp::Remove { path: owned(WAL_SIDECAR) }, on_failure: OnFailure::Ignore });
    r.push(Step { op: FileOp::Remove { path: owned(SHM_SIDECAR) }, on_failure: OnFailure::Ignore });
    r.push(
        Step {
            op: FileOp::Copy {
                from: owned(chosen),
                to: owned(LIVE_DB),
                policy: CollisionPolicy::Overwrite,
            },
            on_failure: OnFailure::Stop(Report::RestoreFailed),
        },
    );
    assert(steps_view(r@) =~= restore_steps(live_exists, chosen@));
    r
}

/// Whether a copy under `policy` writes, given whether its destination is
/// already there.
pub fn copy_needed(policy: CollisionPolicy, destination_exists: bool) -> (r: bool)
    ensures
        r == (policy == CollisionPolicy::Overwrite || !destination_exists),
{
    match policy {
        CollisionPolicy::Overwrite => true,
        CollisionPolicy::SkipIfPresent => !destination_exists,
    }
}

/// Whether the operation goes on after `step` succeeded or failed.
pub fn continues_after(step: &Step, succeeded: bool) -> (r: bool)
    ensures
        r == (succeeded || step.on_failure == OnFailure::Ignore),
{
    succeeded || matches!(step.on_failure, OnFailure::Ignore)
}

/// The text a caller shows for a step that failed with `io_message`.
pub open spec fn failure_text(report: Report, io_message: Seq<char>) -> Seq<char> {
    match report {
        Report::Verbatim => io_message,
        Report::CopyFailed => "Kopyalama hatası: "@ + io_message,
        Report::RestoreFailed => "Yedek geri yüklenirken hata oluştu: "@ + io_message,
    }
}

/// The text shown when a manual backup finds no live file.
pub open spec fn not_found_text() -> Seq<char> {
    "Veritabanı bulunamadı."@
}

/// The confirmation of a manual backup that wrote `file_name`.
pub open spec fn manual_backup_text(file_name: Seq<char>) -> Seq<char> {
    "Yedek başarıyla alındı: "@ + file_name
}

/// The message for a step that stopped the operation with `io_message`.
pub fn failure_message(report: Report, io_message: &str) -> (r: String)
    ensures
        r@ == failure_text(report, io_message@),
{
    match report {
        Report::Verbatim => owned(io_message),
        Report::CopyFailed => {
            let mut s = owned("Kopyalama hatası: ");
            s.append(io_message);
            s
        },
        Report::RestoreFailed => {
            let mut s = owned("Yedek geri yüklenirken hata oluştu: ");
            s.append(io_message);
            s
        },
    }
}

impl BackupError {
    /// The message shown to the user.
    pub fn message(&self) -> (r: String)
        ensures
            r@ == not_found_text(),
    {
        owned("Veritabanı bulunamadı.")
    }
}

/// The confirmation of a manual backup that wrote `file_name`.
pub fn manual_backup_message(file_name: &str) -> (r: String)
    ensures
        r@ == manual_backup_text(file_name@),
{
    let mut s = owned("Yedek başarıyla alındı: ");
    s.append(file_name);
    s
}

} // verus!
