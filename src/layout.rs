use crate::clock::{lemma_stamp_text_injective, Timestamp};
use vstd::prelude::*;

verus! {

// Every path below is relative to the application's private data directory.

/// The live database file.
pub const LIVE_DB: &'static str = "market.db";

/// The write-ahead-log sidecar of the live file.
pub const WAL_SIDECAR: &'static str = "market.db-wal";

/// The shared-memory sidecar of the live file.
pub const SHM_SIDECAR: &'static str = "market.db-shm";

/// Where the live file is set aside before a restore replaces it.
pub const SAFEGUARD_DB: &'static str = "market.db.old";

/// The directory of the automatic, one-per-day snapshots.
pub const AUTOMATIC_DIR: &'static str = "backups";

/// The directory of the manual snapshots.
pub const MANUAL_DIR: &'static str = "manualbackups";

pub open spec fn live_path() -> Seq<char> {
    "market.db"@
}

pub open spec fn wal_path() -> Seq<char> {
    "market.db-wal"@
}

pub open spec fn shm_path() -> Seq<char> {
    "market.db-shm"@
}

pub open spec fn safeguard_path() -> Seq<char> {
    "market.db.old"@
}

pub open spec fn automatic_dir() -> Seq<char> {
    "backups"@
}

pub open spec fn manual_dir() -> Seq<char> {
    "manualbackups"@
}

/// `backups/market_<YYYY-MM-DD>.db`: the day's automatic snapshot.
pub open spec fn automatic_snapshot(t: Timestamp) -> Seq<char> {
    automatic_dir() + "/market_"@ + t.date_text() + ".db"@
}

/// `manuel-<YYYY-MM-DD-HH-MM-SS>.db`: the file name of a manual snapshot.
pub open spec fn manual_snapshot_name(t: Timestamp) -> Seq<char> {
    "manuel-"@ + t.stamp_text() + ".db"@
}

/// `manualbackups/manuel-<YYYY-MM-DD-HH-MM-SS>.db`.
pub open spec fn manual_snapshot(t: Timestamp) -> Seq<char> {
    manual_dir() + "/"@ + manual_snapshot_name(t)
}

/// The fixed paths are five distinct files.
pub proof fn lemma_fixed_paths_distinct()
    ensures
        live_path() != wal_path(),
        live_path() != shm_path(),
        live_path() != safeguard_path(),
        wal_path() != shm_path(),
        wal_path() != safeguard_path(),
        shm_path() != safeguard_path(),
{
    reveal_strlit("market.db");
    reveal_strlit("market.db-wal");
    reveal_strlit("market.db-shm");
    reveal_strlit("market.db.old");
    assert(live_path().len() != wal_path().len());
    assert(live_path().len() != shm_path().len());
    assert(live_path().len() != safeguard_path().len());
    assert(wal_path()[11] != shm_path()[11]);
    assert(wal_path()[9] != safeguard_path()[9]);
    assert(shm_path()[9] != safeguard_path()[9]);
}

/// The path of the automatic snapshot of the day of `t`.
pub fn automatic_snapshot_path(t: &Timestamp) -> (r: String)
    requires
        t.wf(),
    ensures
        r@ == automatic_snapshot(*t),
{
    let mut s = String::from_str(AUTOMATIC_DIR);
    s.append("/market_");
    let date = t.date_key();
    s.append(date.as_str());
    s.append(".db");
    proof {
        assert(s@ =~= automatic_snapshot(*t));
    }
    s
}

/// The file name of the manual snapshot taken at `t`.
pub fn manual_snapshot_file_name(t: &Timestamp) -> (r: String)
    requires
        t.wf(),
    ensures
        r@ == manual_snapshot_name(*t),
{
    let mut s = String::from_str("manuel-");
    let stamp = t.stamp_key();
    s.append(stamp.as_str());
    s.append(".db");
    proof {
        assert(s@ =~= manual_snapshot_name(*t));
    }
    s
}

/// The path of the manual snapshot taken at `t`.
pub fn manual_snapshot_path(t: &Timestamp) -> (r: String)
    requires
        t.wf(),
    ensures
        r@ == manual_snapshot(*t),
{
    let mut s = String::from_str(MANUAL_DIR);
    s.append("/");
    let name = manual_snapshot_file_name(t);
    s.append(name.as_str());
    proof {
        assert(s@ =~= manual_snapshot(*t));
    }
    s
}

/// Manual snapshots taken at readings that differ, down to the second, get
/// distinct names, so none overwrites another.
pub proof fn lemma_manual_snapshot_names_distinct(a: Timestamp, b: Timestamp)
    requires
        a.wf(),
        b.wf(),
        a != b,
    ensures
        manual_snapshot_name(a) != manual_snapshot_name(b),
        manual_snapshot(a) != manual_snapshot(b),
{
    reveal_strlit("manuel-");
    reveal_strlit(".db");
    reveal_strlit("/");
    if manual_snapshot(a) == manual_snapshot(b) {
        let k = manual_dir().len() + 1int;
        assert(manual_snapshot(a).subrange(k, manual_snapshot(a).len() as int)
            =~= manual_snapshot_name(a));
        assert(manual_snapshot(b).subrange(k, manual_snapshot(b).len() as int)
            =~= manual_snapshot_name(b));
    }
    if manual_snapshot_name(a) == manual_snapshot_name(b) {
        assert(manual_snapshot_name(a).subrange(7, 26) =~= a.stamp_text());
        assert(manual_snapshot_name(b).subrange(7, 26) =~= b.stamp_text());
        lemma_stamp_text_injective(a, b);
    }
}

} // verus!
