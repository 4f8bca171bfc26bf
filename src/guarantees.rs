//! What the planned operations do to the data directory when their steps
//! succeed.
use crate::clock::Timestamp;
use crate::layout::{
    automatic_dir, automatic_snapshot, lemma_fixed_paths_distinct, live_path, manual_dir,
    manual_snapshot, safeguard_path, shm_path, wal_path,
};
use crate::plan::{
    apply_op, manual_steps, restore_steps, run_steps, startup_steps, DataDir, StepModel,
};
use vstd::prelude::*;

verus! {

proof fn lemma_run_one(d: DataDir, a: StepModel)
    ensures
        run_steps(d, seq![a]) == apply_op(d, a.op),
{
    reveal_with_fuel(run_steps, 2);
    assert(seq![a].drop_first() =~= Seq::<StepModel>::empty());
}

proof fn lemma_run_two(d: DataDir, a: StepModel, b: StepModel)
    ensures
        run_steps(d, seq![a, b]) == apply_op(apply_op(d, a.op), b.op),
{
    assert(seq![a, b].drop_first() =~= seq![b]);
    lemma_run_one(apply_op(d, a.op), b);
}

proof fn lemma_run_three(d: DataDir, a: StepModel, b: StepModel, c: StepModel)
    ensures
        run_steps(d, seq![a, b, c]) == apply_op(apply_op(apply_op(d, a.op), b.op), c.op),
{
    assert(seq![a, b, c].drop_first() =~= seq![b, c]);
    lemma_run_two(apply_op(d, a.op), b, c);
}

proof fn lemma_run_four(d: DataDir, a: StepModel, b: StepModel, c: StepModel, e: StepModel)
    ensures
        run_steps(d, seq![a, b, c, e]) == apply_op(
            apply_op(apply_op(apply_op(d, a.op), b.op), c.op),
            e.op,
        ),
{
    assert(seq![a, b, c, e].drop_first() =~= seq![b, c, e]);
    lemma_run_three(apply_op(d, a.op), b, c, e);
}

proof fn lemma_snapshots_are_not_live(t: Timestamp)
    ensures
        automatic_snapshot(t) != live_path(),
        manual_snapshot(t) != live_path(),
{
    reveal_strlit("market.db");
    reveal_strlit("backups");
    reveal_strlit("/market_");
    reveal_strlit(".db");
    reveal_strlit("manualbackups");
    reveal_strlit("/");
    reveal_strlit("manuel-");
    assert(automatic_snapshot(t).len() != live_path().len());
    assert(manual_snapshot(t).len() != live_path().len());
}

/// A startup backup with the live file present leaves the automatic
/// directory in place and the day's snapshot holding the live bytes, or what
/// it held already; no other file changes.
pub proof fn lemma_startup_backup_effect(d: DataDir, t: Timestamp)
    requires
        t.wf(),
        d.files.contains_key(live_path()),
    ensures
        ({
            let after = run_steps(d, startup_steps(true, t));
            &&& after.dirs.contains(automatic_dir())
            &&& after.files.contains_key(automatic_snapshot(t))
            &&& after.files[automatic_snapshot(t)] == if d.files.contains_key(
                automatic_snapshot(t),
            ) {
                d.files[automatic_snapshot(t)]
            } else {
                d.files[live_path()]
            }
            &&& after.files.remove(automatic_snapshot(t)) == d.files.remove(automatic_snapshot(t))
        }),
{
    let s = startup_steps(true, t);
    lemma_run_two(d, s[0], s[1]);
    assert(s =~= seq![s[0], s[1]]);
    let after = run_steps(d, s);
    lemma_snapshots_are_not_live(t);
    assert(after.files.remove(automatic_snapshot(t)) =~= d.files.remove(automatic_snapshot(t)));
}

/// Once the day's automatic snapshot exists, any further startup backup that
/// day changes no file: one snapshot per day, never overwritten.
pub proof fn lemma_startup_backup_once_per_day(d: DataDir, t: Timestamp)
    requires
        t.wf(),
        d.files.contains_key(automatic_snapshot(t)),
    ensures
        run_steps(d, startup_steps(d.files.contains_key(live_path()), t)).files == d.files,
{
    let s = startup_steps(d.files.contains_key(live_path()), t);
    if d.files.contains_key(live_path()) {
        lemma_run_two(d, s[0], s[1]);
        assert(s =~= seq![s[0], s[1]]);
    }
}

/// A manual backup with the live file present leaves the manual directory in
/// place and the snapshot named by its time holding the live bytes; no other
/// file changes.
pub proof fn lemma_manual_backup_effect(d: DataDir, t: Timestamp)
    requires
        t.wf(),
        d.files.contains_key(live_path()),
    ensures
        ({
            let after = run_steps(d, manual_steps(t));
            &&& after.dirs.contains(manual_dir())
            &&& after.files.contains_key(manual_snapshot(t))
            &&& after.files[manual_snapshot(t)] == d.files[live_path()]
            &&& after.files.remove(manual_snapshot(t)) == d.files.remove(manual_snapshot(t))
        }),
{
    let s = manual_steps(t);
    lemma_run_two(d, s[0], s[1]);
    assert(s =~= seq![s[0], s[1]]);
    let after = run_steps(d, s);
    lemma_snapshots_are_not_live(t);
    assert(after.files.remove(manual_snapshot(t)) =~= d.files.remove(manual_snapshot(t)));
}

/// Two manual backups taken at different seconds write two files: the second
/// leaves the first one's bytes alone, whatever the live file held meanwhile.
pub proof fn lemma_manual_backups_do_not_overwrite(
    d: DataDir,
    a: Timestamp,
    b: Timestamp,
    later: Seq<u8>,
)
    requires
        a.wf(),
        b.wf(),
        a != b,
        d.files.contains_key(live_path()),
    ensures
        ({
            let first = run_steps(d, manual_steps(a));
            let changed = DataDir { files: first.files.insert(live_path(), later), ..first };
            let second = run_steps(changed, manual_steps(b));
            &&& second.files[manual_snapshot(a)] == d.files[live_path()]
            &&& second.files[manual_snapshot(b)] == later
        }),
{
    lemma_manual_backup_effect(d, a);
    let first = run_steps(d, manual_steps(a));
    let changed = DataDir { files: first.files.insert(live_path(), later), ..first };
    lemma_manual_backup_effect(changed, b);
    crate::layout::lemma_manual_snapshot_names_distinct(a, b);
    lemma_snapshots_are_not_live(a);
    let second = run_steps(changed, manual_steps(b));
    assert(changed.files[live_path()] == later);
    assert(changed.files[manual_snapshot(a)] == d.files[live_path()]);
    assert(second.files.remove(manual_snapshot(b))[manual_snapshot(a)] == changed.files.remove(
        manual_snapshot(b),
    )[manual_snapshot(a)]);
}

/// A restore whose steps succeed leaves the live file holding the chosen
/// snapshot's bytes, no sidecar, the previous live bytes (if there was a live
/// file) in the safeguard file, and the snapshot itself untouched.
pub proof fn lemma_restore_effect(d: DataDir, chosen: Seq<char>)
    requires
        d.files.contains_key(chosen),
        chosen != live_path(),
        chosen != wal_path(),
        chosen != shm_path(),
        chosen != safeguard_path(),
    ensures
        ({
            let live_exists = d.files.contains_key(live_path());
            let after = run_steps(d, restore_steps(live_exists, chosen));
            &&& after.files.contains_key(live_path())
            &&& after.files[live_path()] == d.files[chosen]
            &&& !after.files.contains_key(wal_path())
            &&& !after.files.contains_key(shm_path())
            &&& live_exists ==> after.files.contains_key(safeguard_path())
                && after.files[safeguard_path()] == d.files[live_path()]
            &&& after.files[chosen] == d.files[chosen]
        }),
{
    lemma_fixed_paths_distinct();
    let live_exists = d.files.contains_key(live_path());
    let s = restore_steps(live_exists, chosen);
    if live_exists {
        assert(s =~= seq![s[0], s[1], s[2], s[3]]);
        lemma_run_four(d, s[0], s[1], s[2], s[3]);
    } else {
        assert(s =~= seq![s[0], s[1], s[2]]);
        lemma_run_three(d, s[0], s[1], s[2]);
    }
}

/// A failed safeguard rename does not stop a restore: from a data directory
/// whose live file is still in place, the remaining steps leave the live file
/// holding the chosen snapshot's bytes and no sidecar.
pub proof fn lemma_restore_despite_failed_safeguard(d: DataDir, chosen: Seq<char>)
    requires
        d.files.contains_key(chosen),
        chosen != live_path(),
        chosen != wal_path(),
        chosen != shm_path(),
    ensures
        ({
            let after = run_steps(d, restore_steps(false, chosen));
            &&& after.files.contains_key(live_path())
            &&& after.files[live_path()] == d.files[chosen]
            &&& !after.files.contains_key(wal_path())
            &&& !after.files.contains_key(shm_path())
        }),
{
    lemma_fixed_paths_distinct();
    let s = restore_steps(false, chosen);
    assert(s =~= seq![s[0], s[1], s[2]]);
    lemma_run_three(d, s[0], s[1], s[2]);
}

} // verus!
