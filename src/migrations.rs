//! The schema-migration registry, and the rule by which a database opener
//! applies it.
use vstd::prelude::*;

verus! {

/// One forward schema change.
#[derive(Clone, Copy, Debug)]
pub struct Migration {
    /// Positive, and increasing along the registry.
    pub version: i64,
    pub description: &'static str,
    /// Statements guarded by "if not exists", so running them twice is harmless.
    pub sql: &'static str,
}

pub const INITIAL_TABLES_DESCRIPTION: &'static str = "create_initial_tables";

pub const INITIAL_TABLES_SQL: &'static str = "
                CREATE TABLE IF NOT EXISTS daily_records (
                    date TEXT PRIMARY KEY,
                    ana_kasa_nakit REAL DEFAULT 0,
                    ana_kasa_visa REAL DEFAULT 0,
                    pc_nakit REAL DEFAULT 0,
                    pc_visa REAL DEFAULT 0
                );

                CREATE TABLE IF NOT EXISTS expenses (
                    id INTEGER PRIMARY KEY AUTOINCREMENT,
                    period TEXT NOT NULL, -- YYYY-MM
                    category TEXT NOT NULL,
                    sub_category TEXT,
                    title TEXT NOT NULL,
                    number TEXT,
                    amount REAL DEFAULT 0,
                    is_paid BOOLEAN DEFAULT 0
                );

                CREATE TABLE IF NOT EXISTS period_status (
                    period TEXT PRIMARY KEY, -- YYYY-MM
                    is_fully_paid BOOLEAN DEFAULT 0
                );
            ";

/// Versions are positive and strictly increase along the registry.
pub open spec fn registry_ordered(r: Seq<Migration>) -> bool {
    &&& forall|i: int| 0 <= i < r.len() ==> r[i].version > 0
    &&& forall|i: int, j: int| 0 <= i < j < r.len() ==> r[i].version < r[j].version
}

/// The entries an opener applies to a database whose applied-version marker
/// is `applied`: those above it, in registry order.
pub open spec fn pending_of(r: Seq<Migration>, applied: int) -> Seq<Migration> {
    r.filter(|m: Migration| m.version > applied)
}

/// The marker once every pending entry has been applied.
pub open spec fn marker_after(r: Seq<Migration>, applied: int) -> int {
    if r.len() > 0 && r.last().version > applied {
        r.last().version as int
    } else {
        applied
    }
}

/// The registry, in the order it is applied.
pub fn get_migrations() -> (r: Vec<Migration>)
    ensures
        registry_ordered(r@),
        r@.len() == 1,
        r@[0].version == 1,
        r@[0].description@ == INITIAL_TABLES_DESCRIPTION@,
        r@[0].sql@ == INITIAL_TABLES_SQL@,
{
    let mut r: Vec<Migration> = Vec::new();
    r.push(
        Migration { version: 1, description: INITIAL_TABLES_DESCRIPTION, sql: INITIAL_TABLES_SQL },
    );
    r
}

proof fn lemma_filter_keeps_all(s: Seq<Migration>, applied: int)
    requires
        forall|i: int| 0 <= i < s.len() ==> s[i].version > applied,
    ensures
        pending_of(s, applied) == s,
    decreases s.len(),
{
    reveal(Seq::filter);
    if s.len() > 0 {
        lemma_filter_keeps_all(s.drop_last(), applied);
        assert(s.drop_last().push(s.last()) =~= s);
    }
}

/// Applying an ordered registry is idempotent: on an empty database (marker
/// zero) every entry is applied, once, in order; a second pass from the
/// resulting marker applies nothing, so no schema object is created twice.
pub proof fn lemma_migrations_idempotent(r: Seq<Migration>)
    requires
        registry_ordered(r),
    ensures
        pending_of(r, 0) == r,
        pending_of(r, marker_after(r, 0)).len() == 0,
{
    lemma_filter_keeps_all(r, 0);
    lemma_pass_from_marker_is_empty(r, 0);
}

/// After every entry pending above `applied` has been applied, none is left:
/// a re-run of the apply step from the new marker does nothing.
pub proof fn lemma_pass_from_marker_is_empty(r: Seq<Migration>, applied: int)
    requires
        registry_ordered(r),
    ensures
        pending_of(r, marker_after(r, applied)).len() == 0,
{
    let m = marker_after(r, applied);
    let pred = |x: Migration| x.version > m;
    assert forall|i: int| 0 <= i < r.len() implies !pred(r[i]) by {
        if i < r.len() - 1 {
            assert(r[i].version < r[r.len() - 1].version);
        }
    }
    r.lemma_all_neg_filter_empty(pred);
}

} // verus!
