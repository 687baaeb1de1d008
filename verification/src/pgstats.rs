//! The PostgreSQL and PgBouncer statistics collectors: the measures of
//! one statistics row. Time columns are floating-point; they come here
//! already in seconds, as the text `f32` displays.
use vstd::prelude::*;
use crate::label::{Label, LabelView, Labels, label_views};
use crate::mdb::{measure_view, MeasureView};
use crate::measure::{Measure, Value};
use crate::text::str_eq;

verus! {

/// The label of a database's measures.
pub open spec fn db_label(db: Seq<char>) -> Option<Seq<LabelView>> {
    Some(seq![("db"@, db)])
}

/// A measure of a database, when its column held a value.
pub open spec fn db_measure(name: Seq<char>, help: Seq<char>, value: Value, db: Seq<char>) -> MeasureView {
    MeasureView { name, help, value, labels: db_label(db) }
}

pub open spec fn opt_gauge_i32(v: Option<i32>, name: Seq<char>, help: Seq<char>, db: Seq<char>) -> Seq<MeasureView> {
    match v {
        Some(x) => seq![db_measure(name, help, Value::Gauge(x as u64), db)],
        None => Seq::empty(),
    }
}

pub open spec fn opt_counter_i64(v: Option<i64>, name: Seq<char>, help: Seq<char>, db: Seq<char>) -> Seq<MeasureView> {
    match v {
        Some(x) => seq![db_measure(name, help, Value::Counter(x as u64), db)],
        None => Seq::empty(),
    }
}

pub open spec fn opt_counter_u64(v: Option<u64>, name: Seq<char>, help: Seq<char>, db: Seq<char>) -> Seq<MeasureView> {
    match v {
        Some(x) => seq![db_measure(name, help, Value::Counter(x), db)],
        None => Seq::empty(),
    }
}

pub open spec fn opt_counter_f(v: Option<String>, name: Seq<char>, help: Seq<char>, db: Seq<char>) -> Seq<MeasureView> {
    match v {
        Some(x) => seq![db_measure(name, help, Value::CounterF(x), db)],
        None => Seq::empty(),
    }
}

/// The views of measures, none of which has a timestamp.
pub open spec fn plain_views(ms: Seq<Measure>) -> Seq<MeasureView> {
    ms.map_values(|m: Measure| measure_view(m))
}

pub open spec fn no_timestamps(ms: Seq<Measure>) -> bool {
    forall|i: int| 0 <= i < ms.len() ==> (#[trigger] ms[i]).timestamp.is_none()
}

fn db_labels(db: &str) -> (r: Labels)
    ensures
        r@ == db_label(db@),
{
    let mut v: Vec<Label> = Vec::new();
    v.push(Label::new("db", db));
    assert(label_views(v@) =~= seq![("db"@, db@)]);
    Labels::new(v)
}

fn push_measure(r: &mut Vec<Measure>, name: &str, help: &str, value: Value, db: &str)
    ensures
        plain_views(final(r)@) == plain_views(old(r)@).push(db_measure(name@, help@, value, db@)),
        no_timestamps(old(r)@) ==> no_timestamps(final(r)@),
{
    let m = Measure { name: name.to_owned(), help: help.to_owned(), value, labels: db_labels(db), timestamp: None };
    r.push(m);
    assert(plain_views(r@) =~= plain_views(old(r)@).push(db_measure(name@, help@, value, db@)));
}

fn push_gauge_i32(r: &mut Vec<Measure>, v: Option<i32>, name: &str, help: &str, db: &str)
    ensures
        plain_views(final(r)@) == plain_views(old(r)@) + opt_gauge_i32(v, name@, help@, db@),
        no_timestamps(old(r)@) ==> no_timestamps(final(r)@),
{
    match v {
        Some(x) => push_measure(r, name, help, Value::Gauge(#[verifier::truncate] (x as u64)), db),
        None => {},
    }
    assert(plain_views(r@) =~= plain_views(old(r)@) + opt_gauge_i32(v, name@, help@, db@));
}

fn push_counter_i64(r: &mut Vec<Measure>, v: Option<i64>, name: &str, help: &str, db: &str)
    ensures
        plain_views(final(r)@) == plain_views(old(r)@) + opt_counter_i64(v, name@, help@, db@),
        no_timestamps(old(r)@) ==> no_timestamps(final(r)@),
{
    match v {
        Some(x) => push_measure(r, name, help, Value::Counter(#[verifier::truncate] (x as u64)), db),
        None => {},
    }
    assert(plain_views(r@) =~= plain_views(old(r)@) + opt_counter_i64(v, name@, help@, db@));
}

fn push_counter_u64(r: &mut Vec<Measure>, v: Option<u64>, name: &str, help: &str, db: &str)
    ensures
        plain_views(final(r)@) == plain_views(old(r)@) + opt_counter_u64(v, name@, help@, db@),
        no_timestamps(old(r)@) ==> no_timestamps(final(r)@),
{
    match v {
        Some(x) => push_measure(r, name, help, Value::Counter(x), db),
        None => {},
    }
    assert(plain_views(r@) =~= plain_views(old(r)@) + opt_counter_u64(v, name@, help@, db@));
}

fn push_counter_f(r: &mut Vec<Measure>, v: &Option<String>, name: &str, help: &str, db: &str)
    ensures
        plain_views(final(r)@) == plain_views(old(r)@) + opt_counter_f(*v, name@, help@, db@),
        no_timestamps(old(r)@) ==> no_timestamps(final(r)@),
{
    match v {
        Some(x) => push_measure(r, name, help, Value::CounterF(x.clone()), db),
        None => {},
    }
    assert(plain_views(r@) =~= plain_views(old(r)@) + opt_counter_f(*v, name@, help@, db@));
}

/// One row of `pg_stat_database` as the collector reads it: each column
/// that could be read with its type, `None` for one that could not.
pub struct PgDatabaseStats {
    pub datname: Option<String>,
    pub numbackends: Option<i32>,
    pub xact_commit: Option<i64>,
    pub xact_rollback: Option<i64>,
    pub blks_read: Option<i64>,
    pub blks_hit: Option<i64>,
    pub tup_returned: Option<i64>,
    pub tup_fetched: Option<i64>,
    pub tup_inserted: Option<i64>,
    pub tup_updated: Option<i64>,
    pub tup_deleted: Option<i64>,
    pub conflicts: Option<i64>,
    pub temp_files: Option<i64>,
    pub temp_bytes: Option<i64>,
    pub deadlocks: Option<i64>,
    pub checksum_failures: Option<i64>,
    pub blk_read_time: Option<String>,
    pub blk_write_time: Option<String>,
    pub session_time: Option<String>,
    pub active_time: Option<String>,
    pub idle_in_transaction_time: Option<String>,
    pub sessions: Option<i64>,
    pub sessions_abandoned: Option<i64>,
    pub sessions_fatal: Option<i64>,
    pub sessions_killed: Option<i64>,
}

/// The measures of a `pg_stat_database` row's backends, transactions and block reads.
pub open spec fn pg_views_1(s: PgDatabaseStats, db: Seq<char>) -> Seq<MeasureView> {
    opt_gauge_i32(s.numbackends, "pg_numbackends"@, "Number of backends currently connected to this database."@, db)
        + opt_counter_i64(s.xact_commit, "pg_xact_commit"@, "Number of transactions in this database that have been committed."@, db)
        + opt_counter_i64(s.xact_rollback, "pg_xact_rollback"@, "Number of transactions in this database that have been rolled back."@, db)
        + opt_counter_i64(s.blks_read, "pg_blks_read"@, "Number of disk blocks read in this database."@, db)
        + opt_counter_i64(s.blks_hit, "pg_blks_hit"@, "Number of times disk blocks were found already in the buffer cache, so that a read was not necessary"@, db)
        + opt_counter_i64(s.tup_returned, "pg_tup_returned"@, "Number of live rows fetched by sequential scans and index entries returned by index scans in this database."@, db)
}

/// The measures of a `pg_stat_database` row's row counts and conflicts.
pub open spec fn pg_views_2(s: PgDatabaseStats, db: Seq<char>) -> Seq<MeasureView> {
    opt_counter_i64(s.tup_fetched, "pg_tup_fetched"@, "Number of live rows fetched by index scans in this database."@, db)
        + opt_counter_i64(s.tup_inserted, "pg_tup_inserted"@, "Number of rows inserted by queries in this database."@, db)
        + opt_counter_i64(s.tup_updated, "pg_tup_updated"@, "Number of rows updated by queries in this database."@, db)
        + opt_counter_i64(s.tup_deleted, "pg_tup_deleted"@, "Number of rows deleted by queries in this database."@, db)
        + opt_counter_i64(s.conflicts, "pg_conflicts"@, "Number of queries canceled due to conflicts with recovery in this database"@, db)
        + opt_counter_i64(s.temp_files, "pg_temp_files"@, "Number of temporary files created by queries in this database"@, db)
}

/// The measures of a `pg_stat_database` row's temporary files, deadlocks, checksums and read/write times.
pub open spec fn pg_views_3(s: PgDatabaseStats, db: Seq<char>) -> Seq<MeasureView> {
    opt_counter_i64(s.temp_bytes, "pg_temp_bytes"@, "Total amount of data written to temporary files by queries in this database"@, db)
        + opt_counter_i64(s.deadlocks, "pg_deadlocks"@, "Number of deadlocks detected in this database."@, db)
        + opt_counter_i64(s.checksum_failures, "pg_checksum_failures"@, "Number of data page checksum failures detected in this database"@, db)
        + opt_counter_f(s.blk_read_time, "pg_blk_read_time"@, "Time spent reading data file blocks by backends in this database, in seconds"@, db)
        + opt_counter_f(s.blk_write_time, "pg_blk_write_time"@, "Time spent writing data file blocks by backends in this database, in seconds"@, db)
        + opt_counter_f(s.session_time, "pg_session_time"@, "Time spent by database sessions in this database, in seconds"@, db)
}

/// The measures of a `pg_stat_database` row's session times and counts.
pub open spec fn pg_views_4(s: PgDatabaseStats, db: Seq<char>) -> Seq<MeasureView> {
    opt_counter_f(s.active_time, "pg_active_time"@, "Time spent executing SQL statements in this database, in seconds"@, db)
        + opt_counter_f(s.idle_in_transaction_time, "pg_idle_in_transaction_time"@, "Time spent idling while in a transaction in this database, in seconds"@, db)
        + opt_counter_i64(s.sessions, "pg_sessions"@, "Total number of sessions established to this database."@, db)
        + opt_counter_i64(s.sessions_abandoned, "pg_sessions_abandoned"@, "Number of database sessions to this database that were terminated because connection to the client was lost."@, db)
        + opt_counter_i64(s.sessions_fatal, "pg_sessions_fatal"@, "Number of database sessions to this database that were terminated by fatal errors."@, db)
        + opt_counter_i64(s.sessions_killed, "pg_sessions_killed"@, "Number of database sessions to this database that were terminated by operator intervention."@, db)
}

/// The measures of a `pg_stat_database` row, in column order, each
/// labelled with the database; a column without a value gives none.
pub open spec fn pg_database_views(s: PgDatabaseStats, db: Seq<char>) -> Seq<MeasureView> {
    pg_views_1(s, db) + pg_views_2(s, db) + pg_views_3(s, db) + pg_views_4(s, db)
}

fn push_pg_group_1(r: &mut Vec<Measure>, s: &PgDatabaseStats, db: &str)
    ensures
        plain_views(final(r)@) == plain_views(old(r)@) + pg_views_1(*s, db@),
        no_timestamps(old(r)@) ==> no_timestamps(final(r)@),
{
    let ghost r0 = plain_views(r@);
    push_gauge_i32(r, s.numbackends, "pg_numbackends", "Number of backends currently connected to this database.", db);
    push_counter_i64(r, s.xact_commit, "pg_xact_commit", "Number of transactions in this database that have been committed.", db);
    push_counter_i64(r, s.xact_rollback, "pg_xact_rollback", "Number of transactions in this database that have been rolled back.", db);
    push_counter_i64(r, s.blks_read, "pg_blks_read", "Number of disk blocks read in this database.", db);
    push_counter_i64(r, s.blks_hit, "pg_blks_hit", "Number of times disk blocks were found already in the buffer cache, so that a read was not necessary", db);
    push_counter_i64(r, s.tup_returned, "pg_tup_returned", "Number of live rows fetched by sequential scans and index entries returned by index scans in this database.", db);
    assert(plain_views(r@) =~= r0 + pg_views_1(*s, db@));
}

fn push_pg_group_2(r: &mut Vec<Measure>, s: &PgDatabaseStats, db: &str)
    ensures
        plain_views(final(r)@) == plain_views(old(r)@) + pg_views_2(*s, db@),
        no_timestamps(old(r)@) ==> no_timestamps(final(r)@),
{
    let ghost r0 = plain_views(r@);
    push_counter_i64(r, s.tup_fetched, "pg_tup_fetched", "Number of live rows fetched by index scans in this database.", db);
    push_counter_i64(r, s.tup_inserted, "pg_tup_inserted", "Number of rows inserted by queries in this database.", db);
    push_counter_i64(r, s.tup_updated, "pg_tup_updated", "Number of rows updated by queries in this database.", db);
    push_counter_i64(r, s.tup_deleted, "pg_tup_deleted", "Number of rows deleted by queries in this database.", db);
    push_counter_i64(r, s.conflicts, "pg_conflicts", "Number of queries canceled due to conflicts with recovery in this database", db);
    push_counter_i64(r, s.temp_files, "pg_temp_files", "Number of temporary files created by queries in this database", db);
    assert(plain_views(r@) =~= r0 + pg_views_2(*s, db@));
}

fn push_pg_group_3(r: &mut Vec<Measure>, s: &PgDatabaseStats, db: &str)
    ensures
        plain_views(final(r)@) == plain_views(old(r)@) + pg_views_3(*s, db@),
        no_timestamps(old(r)@) ==> no_timestamps(final(r)@),
{
    let ghost r0 = plain_views(r@);
    push_counter_i64(r, s.temp_bytes, "pg_temp_bytes", "Total amount of data written to temporary files by queries in this database", db);
    push_counter_i64(r, s.deadlocks, "pg_deadlocks", "Number of deadlocks detected in this database.", db);
    push_counter_i64(r, s.checksum_failures, "pg_checksum_failures", "Number of data page checksum failures detected in this database", db);
    push_counter_f(r, &s.blk_read_time, "pg_blk_read_time", "Time spent reading data file blocks by backends in this database, in seconds", db);
    push_counter_f(r, &s.blk_write_time, "pg_blk_write_time", "Time spent writing data file blocks by backends in this database, in seconds", db);
    push_counter_f(r, &s.session_time, "pg_session_time", "Time spent by database sessions in this database, in seconds", db);
    assert(plain_views(r@) =~= r0 + pg_views_3(*s, db@));
}

fn push_pg_group_4(r: &mut Vec<Measure>, s: &PgDatabaseStats, db: &str)
    ensures
        plain_views(final(r)@) == plain_views(old(r)@) + pg_views_4(*s, db@),
        no_timestamps(old(r)@) ==> no_timestamps(final(r)@),
{
    let ghost r0 = plain_views(r@);
    push_counter_f(r, &s.active_time, "pg_active_time", "Time spent executing SQL statements in this database, in seconds", db);
    push_counter_f(r, &s.idle_in_transaction_time, "pg_idle_in_transaction_time", "Time spent idling while in a transaction in this database, in seconds", db);
    push_counter_i64(r, s.sessions, "pg_sessions", "Total number of sessions established to this database.", db);
    push_counter_i64(r, s.sessions_abandoned, "pg_sessions_abandoned", "Number of database sessions to this database that were terminated because connection to the client was lost.", db);
    push_counter_i64(r, s.sessions_fatal, "pg_sessions_fatal", "Number of database sessions to this database that were terminated by fatal errors.", db);
    push_counter_i64(r, s.sessions_killed, "pg_sessions_killed", "Number of database sessions to this database that were terminated by operator intervention.", db);
    assert(plain_views(r@) =~= r0 + pg_views_4(*s, db@));
}

/// The measures of a `pg_stat_database` row: none for a row without a
/// database name, else those of `pg_database_views`.
pub fn pg_database_measures(s: &PgDatabaseStats) -> (r: Vec<Measure>)
    ensures
        no_timestamps(r@),
        match s.datname {
            None => r.len() == 0,
            Some(d) => plain_views(r@) == pg_database_views(*s, d@),
        },
{
    let mut r: Vec<Measure> = Vec::new();
    let d = match &s.datname {
        Some(d) => d,
        None => return r,
    };
    let db = d.as_str();
    assert(plain_views(r@) =~= Seq::<MeasureView>::empty());
    push_pg_group_1(&mut r, s, db);
    push_pg_group_2(&mut r, s, db);
    push_pg_group_3(&mut r, s, db);
    push_pg_group_4(&mut r, s, db);
    assert(plain_views(r@) =~= pg_database_views(*s, db@));
    r
}

/// One row of PgBouncer's `SHOW STATS` as the collector reads it.
pub struct PgbStatsRow {
    pub database: Option<String>,
    pub total_xact_count: Option<u64>,
    pub total_query_count: Option<u64>,
    pub total_received: Option<u64>,
    pub total_sent: Option<u64>,
    pub total_xact_time: Option<String>,
    pub total_query_time: Option<String>,
    pub total_wait_time: Option<String>,
}

/// The measures of a `SHOW STATS` row, in column order, each labelled
/// with the database; a column without a value gives none.
pub open spec fn pgb_views(s: PgbStatsRow, db: Seq<char>) -> Seq<MeasureView> {
    opt_counter_u64(s.total_xact_count, "pgb_total_xact_count"@, "Total number of SQL transactions pooled by pgbouncer"@, db)
        + opt_counter_u64(s.total_query_count, "pgb_total_query_count"@, "Total number of SQL queries pooled by pgbouncer"@, db)
        + opt_counter_u64(s.total_received, "pgb_total_received"@, "Total volume in bytes of network traffic received by pgbouncer"@, db)
        + opt_counter_u64(s.total_sent, "pgb_total_sent"@, "Total volume in bytes of network traffic sent by pgbouncer"@, db)
        + opt_counter_f(s.total_xact_time, "pgb_total_xact_time"@, "Total number of seconds spent by pgbouncer when connected to PostgreSQL in a transaction, either idle in transaction or executing queries"@, db)
        + opt_counter_f(s.total_query_time, "pgb_total_query_time"@, "Total number of seconds spent by pgbouncer when actively connected to PostgreSQL, executing queries"@, db)
        + opt_counter_f(s.total_wait_time, "pgb_total_wait_time"@, "Time spent by clients waiting for a server, in seconds"@, db)
}

/// The measures of a `SHOW STATS` row: none for a row without a
/// database name or for PgBouncer's own database `internal_db`, else
/// those of `pgb_views`.
pub fn pgbouncer_measures(internal_db: &str, s: &PgbStatsRow) -> (r: Vec<Measure>)
    ensures
        no_timestamps(r@),
        match s.database {
            None => r.len() == 0,
            Some(d) => if d@ == internal_db@ { r.len() == 0 } else { plain_views(r@) == pgb_views(*s, d@) },
        },
{
    let mut r: Vec<Measure> = Vec::new();
    let d = match &s.database {
        Some(d) => d,
        None => return r,
    };
    let db = d.as_str();
    if str_eq(db, internal_db) {
        return r;
    }
    assert(plain_views(r@) =~= Seq::<MeasureView>::empty());
    push_counter_u64(&mut r, s.total_xact_count, "pgb_total_xact_count", "Total number of SQL transactions pooled by pgbouncer", db);
    push_counter_u64(&mut r, s.total_query_count, "pgb_total_query_count", "Total number of SQL queries pooled by pgbouncer", db);
    push_counter_u64(&mut r, s.total_received, "pgb_total_received", "Total volume in bytes of network traffic received by pgbouncer", db);
    push_counter_u64(&mut r, s.total_sent, "pgb_total_sent", "Total volume in bytes of network traffic sent by pgbouncer", db);
    push_counter_f(&mut r, &s.total_xact_time, "pgb_total_xact_time", "Total number of seconds spent by pgbouncer when connected to PostgreSQL in a transaction, either idle in transaction or executing queries", db);
    push_counter_f(&mut r, &s.total_query_time, "pgb_total_query_time", "Total number of seconds spent by pgbouncer when actively connected to PostgreSQL, executing queries", db);
    push_counter_f(&mut r, &s.total_wait_time, "pgb_total_wait_time", "Time spent by clients waiting for a server, in seconds", db);
    assert(plain_views(r@) =~= pgb_views(*s, db@));
    r
}


/// Whether `views` holds a measure named `name` with the value `v`,
/// labelled with the database `db`.
pub open spec fn has_measure(views: Seq<MeasureView>, name: Seq<char>, v: Value, db: Seq<char>) -> bool {
    exists|i: int| 0 <= i < views.len() && (#[trigger] views[i]).name == name && views[i].value == v
        && views[i].labels == db_label(db)
}

proof fn lemma_has_concat(a: Seq<MeasureView>, b: Seq<MeasureView>)
    ensures
        forall|n: Seq<char>, v: Value, d: Seq<char>| #[trigger] has_measure(a, n, v, d) ==> has_measure(a + b, n, v, d),
        forall|n: Seq<char>, v: Value, d: Seq<char>| #[trigger] has_measure(b, n, v, d) ==> has_measure(a + b, n, v, d),
{
    assert forall|n: Seq<char>, v: Value, d: Seq<char>| #[trigger] has_measure(a, n, v, d) implies has_measure(a + b, n, v, d) by {
        let i = choose|i: int| 0 <= i < a.len() && (#[trigger] a[i]).name == n && a[i].value == v && a[i].labels == db_label(d);
        assert((a + b)[i] == a[i]);
    }
    assert forall|n: Seq<char>, v: Value, d: Seq<char>| #[trigger] has_measure(b, n, v, d) implies has_measure(a + b, n, v, d) by {
        let i = choose|i: int| 0 <= i < b.len() && (#[trigger] b[i]).name == n && b[i].value == v && b[i].labels == db_label(d);
        assert((a + b)[a.len() + i] == b[i]);
    }
}

/// Each column of a PgBouncer `SHOW STATS` row that has a value is reported
/// under its own name: `pgb_` and the column's name, with that column's
/// value, labelled with the database.
pub proof fn lemma_pgb_columns_reported(s: PgbStatsRow, db: Seq<char>)
    ensures
        s.total_xact_count matches Some(x) ==> has_measure(pgb_views(s, db), "pgb_total_xact_count"@, Value::Counter(x), db),
        s.total_query_count matches Some(x) ==> has_measure(pgb_views(s, db), "pgb_total_query_count"@, Value::Counter(x), db),
        s.total_received matches Some(x) ==> has_measure(pgb_views(s, db), "pgb_total_received"@, Value::Counter(x), db),
        s.total_sent matches Some(x) ==> has_measure(pgb_views(s, db), "pgb_total_sent"@, Value::Counter(x), db),
        s.total_xact_time matches Some(x) ==> has_measure(pgb_views(s, db), "pgb_total_xact_time"@, Value::CounterF(x), db),
        s.total_query_time matches Some(x) ==> has_measure(pgb_views(s, db), "pgb_total_query_time"@, Value::CounterF(x), db),
        s.total_wait_time matches Some(x) ==> has_measure(pgb_views(s, db), "pgb_total_wait_time"@, Value::CounterF(x), db),
{
    let t0 = opt_counter_u64(s.total_xact_count, "pgb_total_xact_count"@, "Total number of SQL transactions pooled by pgbouncer"@, db);
    let t1 = opt_counter_u64(s.total_query_count, "pgb_total_query_count"@, "Total number of SQL queries pooled by pgbouncer"@, db);
    let t2 = opt_counter_u64(s.total_received, "pgb_total_received"@, "Total volume in bytes of network traffic received by pgbouncer"@, db);
    let t3 = opt_counter_u64(s.total_sent, "pgb_total_sent"@, "Total volume in bytes of network traffic sent by pgbouncer"@, db);
    let t4 = opt_counter_f(s.total_xact_time, "pgb_total_xact_time"@, "Total number of seconds spent by pgbouncer when connected to PostgreSQL in a transaction, either idle in transaction or executing queries"@, db);
    let t5 = opt_counter_f(s.total_query_time, "pgb_total_query_time"@, "Total number of seconds spent by pgbouncer when actively connected to PostgreSQL, executing queries"@, db);
    let t6 = opt_counter_f(s.total_wait_time, "pgb_total_wait_time"@, "Time spent by clients waiting for a server, in seconds"@, db);
    let p0 = t0;
    let p1 = p0 + t1;
    lemma_has_concat(p0, t1);
    let p2 = p1 + t2;
    lemma_has_concat(p1, t2);
    let p3 = p2 + t3;
    lemma_has_concat(p2, t3);
    let p4 = p3 + t4;
    lemma_has_concat(p3, t4);
    let p5 = p4 + t5;
    lemma_has_concat(p4, t5);
    let p6 = p5 + t6;
    lemma_has_concat(p5, t6);
    assert(pgb_views(s, db) == p6);
    match s.total_xact_count {
        Some(x) => {
            assert(t0[0] == db_measure("pgb_total_xact_count"@, "Total number of SQL transactions pooled by pgbouncer"@, Value::Counter(x), db));
            assert(has_measure(t0, "pgb_total_xact_count"@, Value::Counter(x), db));
        },
        None => {},
    }
    match s.total_query_count {
        Some(x) => {
            assert(t1[0] == db_measure("pgb_total_query_count"@, "Total number of SQL queries pooled by pgbouncer"@, Value::Counter(x), db));
            assert(has_measure(t1, "pgb_total_query_count"@, Value::Counter(x), db));
        },
        None => {},
    }
    match s.total_received {
        Some(x) => {
            assert(t2[0] == db_measure("pgb_total_received"@, "Total volume in bytes of network traffic received by pgbouncer"@, Value::Counter(x), db));
            assert(has_measure(t2, "pgb_total_received"@, Value::Counter(x), db));
        },
        None => {},
    }
    match s.total_sent {
        Some(x) => {
            assert(t3[0] == db_measure("pgb_total_sent"@, "Total volume in bytes of network traffic sent by pgbouncer"@, Value::Counter(x), db));
            assert(has_measure(t3, "pgb_total_sent"@, Value::Counter(x), db));
        },
        None => {},
    }
    match s.total_xact_time {
        Some(x) => {
            assert(t4[0] == db_measure("pgb_total_xact_time"@, "Total number of seconds spent by pgbouncer when connected to PostgreSQL in a transaction, either idle in transaction or executing queries"@, Value::CounterF(x), db));
            assert(has_measure(t4, "pgb_total_xact_time"@, Value::CounterF(x), db));
        },
        None => {},
    }
    match s.total_query_time {
        Some(x) => {
            assert(t5[0] == db_measure("pgb_total_query_time"@, "Total number of seconds spent by pgbouncer when actively connected to PostgreSQL, executing queries"@, Value::CounterF(x), db));
            assert(has_measure(t5, "pgb_total_query_time"@, Value::CounterF(x), db));
        },
        None => {},
    }
    match s.total_wait_time {
        Some(x) => {
            assert(t6[0] == db_measure("pgb_total_wait_time"@, "Time spent by clients waiting for a server, in seconds"@, Value::CounterF(x), db));
            assert(has_measure(t6, "pgb_total_wait_time"@, Value::CounterF(x), db));
        },
        None => {},
    }
}

proof fn lemma_pg_group_1(s: PgDatabaseStats, db: Seq<char>)
    ensures
        s.numbackends matches Some(x) ==> has_measure(pg_views_1(s, db), "pg_numbackends"@, Value::Gauge(x as u64), db),
        s.xact_commit matches Some(x) ==> has_measure(pg_views_1(s, db), "pg_xact_commit"@, Value::Counter(x as u64), db),
        s.xact_rollback matches Some(x) ==> has_measure(pg_views_1(s, db), "pg_xact_rollback"@, Value::Counter(x as u64), db),
        s.blks_read matches Some(x) ==> has_measure(pg_views_1(s, db), "pg_blks_read"@, Value::Counter(x as u64), db),
        s.blks_hit matches Some(x) ==> has_measure(pg_views_1(s, db), "pg_blks_hit"@, Value::Counter(x as u64), db),
        s.tup_returned matches Some(x) ==> has_measure(pg_views_1(s, db), "pg_tup_returned"@, Value::Counter(x as u64), db),
{
    let t0 = opt_gauge_i32(s.numbackends, "pg_numbackends"@, "Number of backends currently connected to this database."@, db);
    let t1 = opt_counter_i64(s.xact_commit, "pg_xact_commit"@, "Number of transactions in this database that have been committed."@, db);
    let t2 = opt_counter_i64(s.xact_rollback, "pg_xact_rollback"@, "Number of transactions in this database that have been rolled back."@, db);
    let t3 = opt_counter_i64(s.blks_read, "pg_blks_read"@, "Number of disk blocks read in this database."@, db);
    let t4 = opt_counter_i64(s.blks_hit, "pg_blks_hit"@, "Number of times disk blocks were found already in the buffer cache, so that a read was not necessary"@, db);
    let t5 = opt_counter_i64(s.tup_returned, "pg_tup_returned"@, "Number of live rows fetched by sequential scans and index entries returned by index scans in this database."@, db);
    let p0 = t0;
    let p1 = p0 + t1;
    lemma_has_concat(p0, t1);
    let p2 = p1 + t2;
    lemma_has_concat(p1, t2);
    let p3 = p2 + t3;
    lemma_has_concat(p2, t3);
    let p4 = p3 + t4;
    lemma_has_concat(p3, t4);
    let p5 = p4 + t5;
    lemma_has_concat(p4, t5);
    assert(pg_views_1(s, db) == p5);
    match s.numbackends {
        Some(x) => {
            assert(t0[0] == db_measure("pg_numbackends"@, "Number of backends currently connected to this database."@, Value::Gauge(x as u64), db));
            assert(has_measure(t0, "pg_numbackends"@, Value::Gauge(x as u64), db));
        },
        None => {},
    }
    match s.xact_commit {
        Some(x) => {
            assert(t1[0] == db_measure("pg_xact_commit"@, "Number of transactions in this database that have been committed."@, Value::Counter(x as u64), db));
            assert(has_measure(t1, "pg_xact_commit"@, Value::Counter(x as u64), db));
        },
        None => {},
    }
    match s.xact_rollback {
        Some(x) => {
            assert(t2[0] == db_measure("pg_xact_rollback"@, "Number of transactions in this database that have been rolled back."@, Value::Counter(x as u64), db));
            assert(has_measure(t2, "pg_xact_rollback"@, Value::Counter(x as u64), db));
        },
        None => {},
    }
    match s.blks_read {
        Some(x) => {
            assert(t3[0] == db_measure("pg_blks_read"@, "Number of disk blocks read in this database."@, Value::Counter(x as u64), db));
            assert(has_measure(t3, "pg_blks_read"@, Value::Counter(x as u64), db));
        },
        None => {},
    }
    match s.blks_hit {
        Some(x) => {
            assert(t4[0] == db_measure("pg_blks_hit"@, "Number of times disk blocks were found already in the buffer cache, so that a read was not necessary"@, Value::Counter(x as u64), db));
            assert(has_measure(t4, "pg_blks_hit"@, Value::Counter(x as u64), db));
        },
        None => {},
    }
    match s.tup_returned {
        Some(x) => {
            assert(t5[0] == db_measure("pg_tup_returned"@, "Number of live rows fetched by sequential scans and index entries returned by index scans in this database."@, Value::Counter(x as u64), db));
            assert(has_measure(t5, "pg_tup_returned"@, Value::Counter(x as u64), db));
        },
        None => {},
    }
}

proof fn lemma_pg_group_2(s: PgDatabaseStats, db: Seq<char>)
    ensures
        s.tup_fetched matches Some(x) ==> has_measure(pg_views_2(s, db), "pg_tup_fetched"@, Value::Counter(x as u64), db),
        s.tup_inserted matches Some(x) ==> has_measure(pg_views_2(s, db), "pg_tup_inserted"@, Value::Counter(x as u64), db),
        s.tup_updated matches Some(x) ==> has_measure(pg_views_2(s, db), "pg_tup_updated"@, Value::Counter(x as u64), db),
        s.tup_deleted matches Some(x) ==> has_measure(pg_views_2(s, db), "pg_tup_deleted"@, Value::Counter(x as u64), db),
        s.conflicts matches Some(x) ==> has_measure(pg_views_2(s, db), "pg_conflicts"@, Value::Counter(x as u64), db),
        s.temp_files matches Some(x) ==> has_measure(pg_views_2(s, db), "pg_temp_files"@, Value::Counter(x as u64), db),
{
    let t0 = opt_counter_i64(s.tup_fetched, "pg_tup_fetched"@, "Number of live rows fetched by index scans in this database."@, db);
    let t1 = opt_counter_i64(s.tup_inserted, "pg_tup_inserted"@, "Number of rows inserted by queries in this database."@, db);
    let t2 = opt_counter_i64(s.tup_updated, "pg_tup_updated"@, "Number of rows updated by queries in this database."@, db);
    let t3 = opt_counter_i64(s.tup_deleted, "pg_tup_deleted"@, "Number of rows deleted by queries in this database."@, db);
    let t4 = opt_counter_i64(s.conflicts, "pg_conflicts"@, "Number of queries canceled due to conflicts with recovery in this database"@, db);
    let t5 = opt_counter_i64(s.temp_files, "pg_temp_files"@, "Number of temporary files created by queries in this database"@, db);
    let p0 = t0;
    let p1 = p0 + t1;
    lemma_has_concat(p0, t1);
    let p2 = p1 + t2;
    lemma_has_concat(p1, t2);
    let p3 = p2 + t3;
    lemma_has_concat(p2, t3);
    let p4 = p3 + t4;
    lemma_has_concat(p3, t4);
    let p5 = p4 + t5;
    lemma_has_concat(p4, t5);
    assert(pg_views_2(s, db) == p5);
    match s.tup_fetched {
        Some(x) => {
            assert(t0[0] == db_measure("pg_tup_fetched"@, "Number of live rows fetched by index scans in this database."@, Value::Counter(x as u64), db));
            assert(has_measure(t0, "pg_tup_fetched"@, Value::Counter(x as u64), db));
        },
        None => {},
    }
    match s.tup_inserted {
        Some(x) => {
            assert(t1[0] == db_measure("pg_tup_inserted"@, "Number of rows inserted by queries in this database."@, Value::Counter(x as u64), db));
            assert(has_measure(t1, "pg_tup_inserted"@, Value::Counter(x as u64), db));
        },
        None => {},
    }
    match s.tup_updated {
        Some(x) => {
            assert(t2[0] == db_measure("pg_tup_updated"@, "Number of rows updated by queries in this database."@, Value::Counter(x as u64), db));
            assert(has_measure(t2, "pg_tup_updated"@, Value::Counter(x as u64), db));
        },
        None => {},
    }
    match s.tup_deleted {
        Some(x) => {
            assert(t3[0] == db_measure("pg_tup_deleted"@, "Number of rows deleted by queries in this database."@, Value::Counter(x as u64), db));
            assert(has_measure(t3, "pg_tup_deleted"@, Value::Counter(x as u64), db));
        },
        None => {},
    }
    match s.conflicts {
        Some(x) => {
            assert(t4[0] == db_measure("pg_conflicts"@, "Number of queries canceled due to conflicts with recovery in this database"@, Value::Counter(x as u64), db));
            assert(has_measure(t4, "pg_conflicts"@, Value::Counter(x as u64), db));
        },
        None => {},
    }
    match s.temp_files {
        Some(x) => {
            assert(t5[0] == db_measure("pg_temp_files"@, "Number of temporary files created by queries in this database"@, Value::Counter(x as u64), db));
            assert(has_measure(t5, "pg_temp_files"@, Value::Counter(x as u64), db));
        },
        None => {},
    }
}

proof fn lemma_pg_group_3(s: PgDatabaseStats, db: Seq<char>)
    ensures
        s.temp_bytes matches Some(x) ==> has_measure(pg_views_3(s, db), "pg_temp_bytes"@, Value::Counter(x as u64), db),
        s.deadlocks matches Some(x) ==> has_measure(pg_views_3(s, db), "pg_deadlocks"@, Value::Counter(x as u64), db),
        s.checksum_failures matches Some(x) ==> has_measure(pg_views_3(s, db), "pg_checksum_failures"@, Value::Counter(x as u64), db),
        s.blk_read_time matches Some(x) ==> has_measure(pg_views_3(s, db), "pg_blk_read_time"@, Value::CounterF(x), db),
        s.blk_write_time matches Some(x) ==> has_measure(pg_views_3(s, db), "pg_blk_write_time"@, Value::CounterF(x), db),
        s.session_time matches Some(x) ==> has_measure(pg_views_3(s, db), "pg_session_time"@, Value::CounterF(x), db),
{
    let t0 = opt_counter_i64(s.temp_bytes, "pg_temp_bytes"@, "Total amount of data written to temporary files by queries in this database"@, db);
    let t1 = opt_counter_i64(s.deadlocks, "pg_deadlocks"@, "Number of deadlocks detected in this database."@, db);
    let t2 = opt_counter_i64(s.checksum_failures, "pg_checksum_failures"@, "Number of data page checksum failures detected in this database"@, db);
    let t3 = opt_counter_f(s.blk_read_time, "pg_blk_read_time"@, "Time spent reading data file blocks by backends in this database, in seconds"@, db);
    let t4 = opt_counter_f(s.blk_write_time, "pg_blk_write_time"@, "Time spent writing data file blocks by backends in this database, in seconds"@, db);
    let t5 = opt_counter_f(s.session_time, "pg_session_time"@, "Time spent by database sessions in this database, in seconds"@, db);
    let p0 = t0;
    let p1 = p0 + t1;
    lemma_has_concat(p0, t1);
    let p2 = p1 + t2;
    lemma_has_concat(p1, t2);
    let p3 = p2 + t3;
    lemma_has_concat(p2, t3);
    let p4 = p3 + t4;
    lemma_has_concat(p3, t4);
    let p5 = p4 + t5;
    lemma_has_concat(p4, t5);
    assert(pg_views_3(s, db) == p5);
    match s.temp_bytes {
        Some(x) => {
            assert(t0[0] == db_measure("pg_temp_bytes"@, "Total amount of data written to temporary files by queries in this database"@, Value::Counter(x as u64), db));
            assert(has_measure(t0, "pg_temp_bytes"@, Value::Counter(x as u64), db));
        },
        None => {},
    }
    match s.deadlocks {
        Some(x) => {
            assert(t1[0] == db_measure("pg_deadlocks"@, "Number of deadlocks detected in this database."@, Value::Counter(x as u64), db));
            assert(has_measure(t1, "pg_deadlocks"@, Value::Counter(x as u64), db));
        },
        None => {},
    }
    match s.checksum_failures {
        Some(x) => {
            assert(t2[0] == db_measure("pg_checksum_failures"@, "Number of data page checksum failures detected in this database"@, Value::Counter(x as u64), db));
            assert(has_measure(t2, "pg_checksum_failures"@, Value::Counter(x as u64), db));
        },
        None => {},
    }
    match s.blk_read_time {
        Some(x) => {
            assert(t3[0] == db_measure("pg_blk_read_time"@, "Time spent reading data file blocks by backends in this database, in seconds"@, Value::CounterF(x), db));
            assert(has_measure(t3, "pg_blk_read_time"@, Value::CounterF(x), db));
        },
        None => {},
    }
    match s.blk_write_time {
        Some(x) => {
            assert(t4[0] == db_measure("pg_blk_write_time"@, "Time spent writing data file blocks by backends in this database, in seconds"@, Value::CounterF(x), db));
            assert(has_measure(t4, "pg_blk_write_time"@, Value::CounterF(x), db));
        },
        None => {},
    }
    match s.session_time {
        Some(x) => {
            assert(t5[0] == db_measure("pg_session_time"@, "Time spent by database sessions in this database, in seconds"@, Value::CounterF(x), db));
            assert(has_measure(t5, "pg_session_time"@, Value::CounterF(x), db));
        },
        None => {},
    }
}

proof fn lemma_pg_group_4(s: PgDatabaseStats, db: Seq<char>)
    ensures
        s.active_time matches Some(x) ==> has_measure(pg_views_4(s, db), "pg_active_time"@, Value::CounterF(x), db),
        s.idle_in_transaction_time matches Some(x) ==> has_measure(pg_views_4(s, db), "pg_idle_in_transaction_time"@, Value::CounterF(x), db),
        s.sessions matches Some(x) ==> has_measure(pg_views_4(s, db), "pg_sessions"@, Value::Counter(x as u64), db),
        s.sessions_abandoned matches Some(x) ==> has_measure(pg_views_4(s, db), "pg_sessions_abandoned"@, Value::Counter(x as u64), db),
        s.sessions_fatal matches Some(x) ==> has_measure(pg_views_4(s, db), "pg_sessions_fatal"@, Value::Counter(x as u64), db),
        s.sessions_killed matches Some(x) ==> has_measure(pg_views_4(s, db), "pg_sessions_killed"@, Value::Counter(x as u64), db),
{
    let t0 = opt_counter_f(s.active_time, "pg_active_time"@, "Time spent executing SQL statements in this database, in seconds"@, db);
    let t1 = opt_counter_f(s.idle_in_transaction_time, "pg_idle_in_transaction_time"@, "Time spent idling while in a transaction in this database, in seconds"@, db);
    let t2 = opt_counter_i64(s.sessions, "pg_sessions"@, "Total number of sessions established to this database."@, db);
    let t3 = opt_counter_i64(s.sessions_abandoned, "pg_sessions_abandoned"@, "Number of database sessions to this database that were terminated because connection to the client was lost."@, db);
    let t4 = opt_counter_i64(s.sessions_fatal, "pg_sessions_fatal"@, "Number of database sessions to this database that were terminated by fatal errors."@, db);
    let t5 = opt_counter_i64(s.sessions_killed, "pg_sessions_killed"@, "Number of database sessions to this database that were terminated by operator intervention."@, db);
    let p0 = t0;
    let p1 = p0 + t1;
    lemma_has_concat(p0, t1);
    let p2 = p1 + t2;
    lemma_has_concat(p1, t2);
    let p3 = p2 + t3;
    lemma_has_concat(p2, t3);
    let p4 = p3 + t4;
    lemma_has_concat(p3, t4);
    let p5 = p4 + t5;
    lemma_has_concat(p4, t5);
    assert(pg_views_4(s, db) == p5);
    match s.active_time {
        Some(x) => {
            assert(t0[0] == db_measure("pg_active_time"@, "Time spent executing SQL statements in this database, in seconds"@, Value::CounterF(x), db));
            assert(has_measure(t0, "pg_active_time"@, Value::CounterF(x), db));
        },
        None => {},
    }
    match s.idle_in_transaction_time {
        Some(x) => {
            assert(t1[0] == db_measure("pg_idle_in_transaction_time"@, "Time spent idling while in a transaction in this database, in seconds"@, Value::CounterF(x), db));
            assert(has_measure(t1, "pg_idle_in_transaction_time"@, Value::CounterF(x), db));
        },
        None => {},
    }
    match s.sessions {
        Some(x) => {
            assert(t2[0] == db_measure("pg_sessions"@, "Total number of sessions established to this database."@, Value::Counter(x as u64), db));
            assert(has_measure(t2, "pg_sessions"@, Value::Counter(x as u64), db));
        },
        None => {},
    }
    match s.sessions_abandoned {
        Some(x) => {
            assert(t3[0] == db_measure("pg_sessions_abandoned"@, "Number of database sessions to this database that were terminated because connection to the client was lost."@, Value::Counter(x as u64), db));
            assert(has_measure(t3, "pg_sessions_abandoned"@, Value::Counter(x as u64), db));
        },
        None => {},
    }
    match s.sessions_fatal {
        Some(x) => {
            assert(t4[0] == db_measure("pg_sessions_fatal"@, "Number of database sessions to this database that were terminated by fatal errors."@, Value::Counter(x as u64), db));
            assert(has_measure(t4, "pg_sessions_fatal"@, Value::Counter(x as u64), db));
        },
        None => {},
    }
    match s.sessions_killed {
        Some(x) => {
            assert(t5[0] == db_measure("pg_sessions_killed"@, "Number of database sessions to this database that were terminated by operator intervention."@, Value::Counter(x as u64), db));
            assert(has_measure(t5, "pg_sessions_killed"@, Value::Counter(x as u64), db));
        },
        None => {},
    }
}

/// Each column of a `pg_stat_database` row that has a value is reported under
/// its own name: the measure `pg_` and the column's name carries that
/// column's value (integers as 64-bit counters, `numbackends` as a gauge),
/// labelled with the database.
pub proof fn lemma_pg_columns_reported(s: PgDatabaseStats, db: Seq<char>)
    ensures
        s.numbackends matches Some(x) ==> has_measure(pg_database_views(s, db), "pg_numbackends"@, Value::Gauge(x as u64), db),
        s.xact_commit matches Some(x) ==> has_measure(pg_database_views(s, db), "pg_xact_commit"@, Value::Counter(x as u64), db),
        s.xact_rollback matches Some(x) ==> has_measure(pg_database_views(s, db), "pg_xact_rollback"@, Value::Counter(x as u64), db),
        s.blks_read matches Some(x) ==> has_measure(pg_database_views(s, db), "pg_blks_read"@, Value::Counter(x as u64), db),
        s.blks_hit matches Some(x) ==> has_measure(pg_database_views(s, db), "pg_blks_hit"@, Value::Counter(x as u64), db),
        s.tup_returned matches Some(x) ==> has_measure(pg_database_views(s, db), "pg_tup_returned"@, Value::Counter(x as u64), db),
        s.tup_fetched matches Some(x) ==> has_measure(pg_database_views(s, db), "pg_tup_fetched"@, Value::Counter(x as u64), db),
        s.tup_inserted matches Some(x) ==> has_measure(pg_database_views(s, db), "pg_tup_inserted"@, Value::Counter(x as u64), db),
        s.tup_updated matches Some(x) ==> has_measure(pg_database_views(s, db), "pg_tup_updated"@, Value::Counter(x as u64), db),
        s.tup_deleted matches Some(x) ==> has_measure(pg_database_views(s, db), "pg_tup_deleted"@, Value::Counter(x as u64), db),
        s.conflicts matches Some(x) ==> has_measure(pg_database_views(s, db), "pg_conflicts"@, Value::Counter(x as u64), db),
        s.temp_files matches Some(x) ==> has_measure(pg_database_views(s, db), "pg_temp_files"@, Value::Counter(x as u64), db),
        s.temp_bytes matches Some(x) ==> has_measure(pg_database_views(s, db), "pg_temp_bytes"@, Value::Counter(x as u64), db),
        s.deadlocks matches Some(x) ==> has_measure(pg_database_views(s, db), "pg_deadlocks"@, Value::Counter(x as u64), db),
        s.checksum_failures matches Some(x) ==> has_measure(pg_database_views(s, db), "pg_checksum_failures"@, Value::Counter(x as u64), db),
        s.blk_read_time matches Some(x) ==> has_measure(pg_database_views(s, db), "pg_blk_read_time"@, Value::CounterF(x), db),
        s.blk_write_time matches Some(x) ==> has_measure(pg_database_views(s, db), "pg_blk_write_time"@, Value::CounterF(x), db),
        s.session_time matches Some(x) ==> has_measure(pg_database_views(s, db), "pg_session_time"@, Value::CounterF(x), db),
        s.active_time matches Some(x) ==> has_measure(pg_database_views(s, db), "pg_active_time"@, Value::CounterF(x), db),
        s.idle_in_transaction_time matches Some(x) ==> has_measure(pg_database_views(s, db), "pg_idle_in_transaction_time"@, Value::CounterF(x), db),
        s.sessions matches Some(x) ==> has_measure(pg_database_views(s, db), "pg_sessions"@, Value::Counter(x as u64), db),
        s.sessions_abandoned matches Some(x) ==> has_measure(pg_database_views(s, db), "pg_sessions_abandoned"@, Value::Counter(x as u64), db),
        s.sessions_fatal matches Some(x) ==> has_measure(pg_database_views(s, db), "pg_sessions_fatal"@, Value::Counter(x as u64), db),
        s.sessions_killed matches Some(x) ==> has_measure(pg_database_views(s, db), "pg_sessions_killed"@, Value::Counter(x as u64), db),
{
    let g1 = pg_views_1(s, db);
    let g2 = pg_views_2(s, db);
    let g3 = pg_views_3(s, db);
    let g4 = pg_views_4(s, db);
    lemma_pg_group_1(s, db);
    lemma_pg_group_2(s, db);
    lemma_pg_group_3(s, db);
    lemma_pg_group_4(s, db);
    lemma_has_concat(g1, g2);
    lemma_has_concat(g1 + g2, g3);
    lemma_has_concat(g1 + g2 + g3, g4);
}

} // verus!
