use market_backup::migrations::get_migrations;
use market_backup::{
    automatic_snapshot_path, continues_after, copy_needed, failure_message, local_now,
    manual_backup_message, manual_snapshot_file_name, manual_snapshot_path, plan_manual_backup,
    plan_restore, plan_startup_backup, BackupError, CollisionPolicy, FileOp, OnFailure, Report,
    Step, Timestamp,
};
use std::collections::{HashMap, HashSet};

#[derive(Default)]
struct MemDir {
    files: HashMap<String, Vec<u8>>,
    dirs: HashSet<String>,
}

impl MemDir {
    fn parent_present(&self, path: &str) -> bool {
        match path.rfind('/') {
            Some(i) => self.dirs.contains(&path[..i]),
            None => true,
        }
    }

    fn perform(&mut self, op: &FileOp) -> Result<(), String> {
        match op {
            FileOp::CreateDirAll { dir } => {
                self.dirs.insert(dir.clone());
                Ok(())
            }
            FileOp::Copy { from, to, policy } => {
                let bytes = self.files.get(from).cloned().ok_or("no such file")?;
                if !self.parent_present(to) {
                    return Err("no such directory".to_string());
                }
                if copy_needed(*policy, self.files.contains_key(to)) {
                    self.files.insert(to.clone(), bytes);
                }
                Ok(())
            }
            FileOp::Rename { from, to } => {
                let bytes = self.files.remove(from).ok_or("no such file")?;
                self.files.insert(to.clone(), bytes);
                Ok(())
            }
            FileOp::Remove { path } => {
                self.files.remove(path).map(|_| ()).ok_or("no such file".to_string())
            }
        }
    }

    fn run(&mut self, steps: &[Step]) -> Result<(), String> {
        for step in steps {
            let outcome = self.perform(&step.op);
            if !continues_after(step, outcome.is_ok()) {
                if let (Err(e), OnFailure::Stop(report)) = (&outcome, step.on_failure) {
                    return Err(failure_message(report, e));
                }
            }
        }
        Ok(())
    }

    fn live_exists(&self) -> bool {
        self.files.contains_key("market.db")
    }
}

fn at(y: i32, mo: u32, d: u32, h: u32, mi: u32, s: u32) -> Timestamp {
    Timestamp::new(y, mo, d, h, mi, s).unwrap()
}

#[test]
fn timestamp_keys_are_zero_padded() {
    let t = at(2024, 1, 2, 3, 4, 5);
    assert_eq!(t.date_key(), "2024-01-02");
    assert_eq!(t.stamp_key(), "2024-01-02-03-04-05");
    let t = at(987, 12, 31, 23, 59, 59);
    assert_eq!(t.date_key(), "0987-12-31");
    assert_eq!(t.stamp_key(), "0987-12-31-23-59-59");
}

#[test]
fn timestamp_rejects_out_of_range_fields() {
    assert!(Timestamp::new(10000, 1, 1, 0, 0, 0).is_none());
    assert!(Timestamp::new(-1, 1, 1, 0, 0, 0).is_none());
    assert!(Timestamp::new(2024, 0, 1, 0, 0, 0).is_none());
    assert!(Timestamp::new(2024, 13, 1, 0, 0, 0).is_none());
    assert!(Timestamp::new(2024, 1, 0, 0, 0, 0).is_none());
    assert!(Timestamp::new(2024, 1, 32, 0, 0, 0).is_none());
    assert!(Timestamp::new(2024, 1, 1, 24, 0, 0).is_none());
    assert!(Timestamp::new(2024, 1, 1, 0, 60, 0).is_none());
    assert!(Timestamp::new(2024, 1, 1, 0, 0, 60).is_none());
    assert!(Timestamp::new(9999, 12, 31, 23, 59, 59).is_some());
    assert!(Timestamp::new(0, 1, 1, 0, 0, 0).is_some());
}

#[test]
fn local_clock_reads_a_valid_time() {
    let t = local_now().expect("the clock reads a four-digit year");
    assert!(t.year >= 2000 && t.year <= 9999);
    assert!((1..=12).contains(&t.month));
    assert!((1..=31).contains(&t.day));
    assert!(t.hour < 24 && t.minute < 60 && t.second < 60);
    assert_eq!(t.date_key().len(), 10);
}

#[test]
fn snapshot_paths() {
    let t = at(2024, 1, 1, 10, 0, 0);
    assert_eq!(automatic_snapshot_path(&t), "backups/market_2024-01-01.db");
    assert_eq!(manual_snapshot_file_name(&t), "manuel-2024-01-01-10-00-00.db");
    assert_eq!(manual_snapshot_path(&t), "manualbackups/manuel-2024-01-01-10-00-00.db");
}

#[test]
fn startup_backup_twice_same_day_keeps_first_copy() {
    let day = at(2024, 1, 1, 9, 0, 0);
    let mut dir = MemDir::default();
    dir.files.insert("market.db".to_string(), b"B1".to_vec());
    dir.run(&plan_startup_backup(dir.live_exists(), &day)).unwrap();
    assert_eq!(dir.files["backups/market_2024-01-01.db"], b"B1".to_vec());

    dir.files.insert("market.db".to_string(), b"B2".to_vec());
    let later = at(2024, 1, 1, 18, 30, 0);
    dir.run(&plan_startup_backup(dir.live_exists(), &later)).unwrap();
    assert_eq!(dir.files["backups/market_2024-01-01.db"], b"B1".to_vec());
    let snapshots = dir.files.keys().filter(|k| k.starts_with("backups/")).count();
    assert_eq!(snapshots, 1);
}

#[test]
fn startup_backup_next_day_makes_a_second_snapshot() {
    let mut dir = MemDir::default();
    dir.files.insert("market.db".to_string(), b"B1".to_vec());
    dir.run(&plan_startup_backup(true, &at(2024, 1, 1, 9, 0, 0))).unwrap();
    dir.files.insert("market.db".to_string(), b"B2".to_vec());
    dir.run(&plan_startup_backup(true, &at(2024, 1, 2, 9, 0, 0))).unwrap();
    assert_eq!(dir.files["backups/market_2024-01-01.db"], b"B1".to_vec());
    assert_eq!(dir.files["backups/market_2024-01-02.db"], b"B2".to_vec());
}

#[test]
fn startup_backup_without_live_file_does_nothing() {
    let steps = plan_startup_backup(false, &at(2024, 1, 1, 9, 0, 0));
    assert!(steps.is_empty());
}

#[test]
fn manual_backup_names_the_written_file() {
    let t = at(2024, 1, 1, 10, 0, 0);
    let mut dir = MemDir::default();
    dir.files.insert("market.db".to_string(), b"B2".to_vec());
    let steps = plan_manual_backup(dir.live_exists(), &t).unwrap();
    dir.run(&steps).unwrap();
    assert_eq!(dir.files["manualbackups/manuel-2024-01-01-10-00-00.db"], b"B2".to_vec());
    let message = manual_backup_message(&manual_snapshot_file_name(&t));
    assert_eq!(message, "Yedek başarıyla alındı: manuel-2024-01-01-10-00-00.db");
}

#[test]
fn manual_backups_a_second_apart_do_not_overwrite() {
    let mut dir = MemDir::default();
    dir.files.insert("market.db".to_string(), b"one".to_vec());
    let a = at(2024, 1, 1, 10, 0, 0);
    let b = at(2024, 1, 1, 10, 0, 1);
    dir.run(&plan_manual_backup(true, &a).unwrap()).unwrap();
    dir.files.insert("market.db".to_string(), b"two".to_vec());
    dir.run(&plan_manual_backup(true, &b).unwrap()).unwrap();
    assert_ne!(manual_snapshot_path(&a), manual_snapshot_path(&b));
    assert_eq!(dir.files[&manual_snapshot_path(&a)], b"one".to_vec());
    assert_eq!(dir.files[&manual_snapshot_path(&b)], b"two".to_vec());
}

#[test]
fn manual_backup_without_live_file_is_not_found() {
    let r = plan_manual_backup(false, &at(2024, 1, 1, 10, 0, 0));
    assert_eq!(r.as_ref().err(), Some(&BackupError::DatabaseNotFound));
    assert_eq!(BackupError::DatabaseNotFound.message(), "Veritabanı bulunamadı.");
}

#[test]
fn manual_backup_copy_failure_is_described() {
    let steps = plan_manual_backup(true, &at(2024, 1, 1, 10, 0, 0)).unwrap();
    let mut dir = MemDir::default();
    // the live file vanished between the check and the copy
    let e = dir.run(&steps).unwrap_err();
    assert_eq!(e, "Kopyalama hatası: no such file");
    assert!(dir.dirs.contains("manualbackups"));
}

#[test]
fn restore_replaces_live_file_and_clears_sidecars() {
    let snapshot = "manualbackups/manuel-2024-01-01-10-00-00.db";
    let mut dir = MemDir::default();
    dir.dirs.insert("manualbackups".to_string());
    dir.files.insert(snapshot.to_string(), b"B2".to_vec());
    dir.files.insert("market.db".to_string(), b"B3".to_vec());
    dir.files.insert("market.db-wal".to_string(), b"w".to_vec());
    dir.files.insert("market.db-shm".to_string(), b"s".to_vec());
    dir.run(&plan_restore(dir.live_exists(), snapshot)).unwrap();
    assert_eq!(dir.files["market.db.old"], b"B3".to_vec());
    assert!(!dir.files.contains_key("market.db-wal"));
    assert!(!dir.files.contains_key("market.db-shm"));
    assert_eq!(dir.files["market.db"], b"B2".to_vec());
    assert_eq!(dir.files[snapshot], b"B2".to_vec());
}

#[test]
fn restore_without_live_file_or_sidecars() {
    let mut dir = MemDir::default();
    dir.files.insert("/home/me/copy.db".to_string(), b"B2".to_vec());
    let steps = plan_restore(dir.live_exists(), "/home/me/copy.db");
    assert_eq!(steps.len(), 3);
    dir.run(&steps).unwrap();
    assert_eq!(dir.files["market.db"], b"B2".to_vec());
    assert!(!dir.files.contains_key("market.db.old"));
}

#[test]
fn restore_from_missing_snapshot_fails_after_safeguarding() {
    let mut dir = MemDir::default();
    dir.files.insert("market.db".to_string(), b"B3".to_vec());
    let e = dir.run(&plan_restore(true, "gone.db")).unwrap_err();
    assert_eq!(e, "Yedek geri yüklenirken hata oluştu: no such file");
    assert!(!dir.files.contains_key("market.db"));
    assert_eq!(dir.files["market.db.old"], b"B3".to_vec());
}

#[test]
fn restore_plan_marks_best_effort_steps() {
    let steps = plan_restore(true, "x.db");
    assert_eq!(steps.len(), 4);
    assert!(matches!(&steps[0].op, FileOp::Rename { from, to } if from == "market.db" && to == "market.db.old"));
    assert!(matches!(&steps[1].op, FileOp::Remove { path } if path == "market.db-wal"));
    assert!(matches!(&steps[2].op, FileOp::Remove { path } if path == "market.db-shm"));
    assert!(matches!(&steps[3].op, FileOp::Copy { from, to, policy: CollisionPolicy::Overwrite } if from == "x.db" && to == "market.db"));
    for s in &steps[..3] {
        assert_eq!(s.on_failure, OnFailure::Ignore);
        assert!(continues_after(s, false));
    }
    assert_eq!(steps[3].on_failure, OnFailure::Stop(Report::RestoreFailed));
    assert!(!continues_after(&steps[3], false));
    assert!(continues_after(&steps[3], true));
}

#[test]
fn copy_policy_decisions() {
    assert!(copy_needed(CollisionPolicy::Overwrite, true));
    assert!(copy_needed(CollisionPolicy::Overwrite, false));
    assert!(!copy_needed(CollisionPolicy::SkipIfPresent, true));
    assert!(copy_needed(CollisionPolicy::SkipIfPresent, false));
}

#[test]
fn failure_messages() {
    assert_eq!(failure_message(Report::Verbatim, "denied"), "denied");
    assert_eq!(failure_message(Report::CopyFailed, "denied"), "Kopyalama hatası: denied");
    assert_eq!(
        failure_message(Report::RestoreFailed, "denied"),
        "Yedek geri yüklenirken hata oluştu: denied"
    );
}

#[test]
fn migration_registry() {
    let r = get_migrations();
    assert_eq!(r.len(), 1);
    assert_eq!(r[0].version, 1);
    assert_eq!(r[0].description, "create_initial_tables");
    assert!(r[0].sql.contains("CREATE TABLE IF NOT EXISTS daily_records"));
    assert!(r[0].sql.contains("CREATE TABLE IF NOT EXISTS expenses"));
    assert!(r[0].sql.contains("CREATE TABLE IF NOT EXISTS period_status"));
    assert_eq!(r[0].sql.matches("CREATE TABLE").count(), r[0].sql.matches("IF NOT EXISTS").count());
}
