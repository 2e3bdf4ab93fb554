//! The request flow around one visit: recording it, and what the visitor is
//! answered whatever the best-effort steps did.
use vstd::prelude::*;
use vstd::string::StringExecFns;
use crate::counts::{CombinedVisitCount, VisitRecord, tally};
use crate::naming::table_name;
use crate::schema::RECORD_PREFIX;

verus! {

pub const INSERT_HEAD: &'static str = "INSERT INTO ";

pub const INSERT_TAIL: &'static str =
    " (path, user_id, ip, timestamp) VALUES ($1, $2, $3, CURRENT_TIMESTAMP)";

pub const SELECT_HEAD: &'static str = "SELECT path, user_id, ip FROM ";

/// The statement that appends one visit to tenant `domain`'s records.
pub open spec fn insert_visit_sql(domain: Seq<char>) -> Seq<char> {
    INSERT_HEAD@ + table_name(RECORD_PREFIX@, domain) + INSERT_TAIL@
}

/// The statement that reads all visits of tenant `domain`.
pub open spec fn select_visits_sql(domain: Seq<char>) -> Seq<char> {
    SELECT_HEAD@ + table_name(RECORD_PREFIX@, domain)
}

/// The statement that appends `visit` to tenant `domain`'s records, and the
/// values bound to it in order: path, user id, ip.
pub fn record_visit(domain: &str, visit: &VisitRecord) -> (r: (String, Vec<String>))
    ensures
        r.0@ == insert_visit_sql(domain@),
        r.1@.len() == 3,
        r.1@[0]@ == visit.path@,
        r.1@[1]@ == visit.user_id@,
        r.1@[2]@ == visit.ip@,
{
    let name = crate::naming::get_table_name(RECORD_PREFIX, domain);
    let mut sql = String::from_str(INSERT_HEAD);
    sql.append(name.as_str());
    sql.append(INSERT_TAIL);
    let mut params: Vec<String> = Vec::new();
    params.push(visit.path.clone());
    params.push(visit.user_id.clone());
    params.push(visit.ip.clone());
    (sql, params)
}

/// The statement that reads all visits of tenant `domain`, which
/// `query_count` aggregates.
pub fn visit_listing_statement(domain: &str) -> (r: String)
    ensures
        r@ == select_visits_sql(domain@),
{
    let name = crate::naming::get_table_name(RECORD_PREFIX, domain);
    let mut sql = String::from_str(SELECT_HEAD);
    sql.append(name.as_str());
    sql
}

/// The identifier the visitor sent, or the freshly generated one when the
/// visitor sent none.
pub fn choose_visitor_id(given: &str, generated: String) -> (r: String)
    ensures
        r@ == if given@.len() == 0 {
            generated@
        } else {
            given@
        },
{
    if given.is_empty() {
        generated
    } else {
        String::from_str(given)
    }
}

/// What the visitor is answered: nothing when provisioning or the count
/// query failed, else the counts with the visitor's identifier attached.
pub open spec fn answer(provisioned: bool, counts: Option<CombinedVisitCount>, visitor: Seq<
    char,
>) -> Option<(Seq<char>, (int, int, int, int))> {
    if provisioned && counts is Some {
        Some((visitor, counts->0.counts()))
    } else {
        None
    }
}

/// The answer to a visit, given whether provisioning succeeded, whether the
/// visit was recorded, and the outcome of the count query. A failed recording
/// is reported by the caller but does not change the answer.
pub fn visit_response(
    provisioned: bool,
    recorded: bool,
    counts: Option<CombinedVisitCount>,
    visitor: String,
) -> (r: Option<CombinedVisitCount>)
    ensures
        r is Some <==> answer(provisioned, counts, visitor@) is Some,
        r is Some ==> r->0.sin_suan_id is Some && answer(provisioned, counts, visitor@) == Some(
            (r->0.sin_suan_id->0@, r->0.counts()),
        ),
{
    if !provisioned {
        return None;
    }
    match counts {
        Some(c) => Some(
            CombinedVisitCount {
                sin_suan_id: Some(visitor),
                pv: c.pv,
                uv: c.uv,
                site_pv: c.site_pv,
                site_uv: c.site_uv,
            },
        ),
        None => None,
    }
}

/// The tenant's rows after a recording attempt that did or did not succeed.
pub open spec fn rows_after_record(rows: Seq<VisitRecord>, visit: VisitRecord, ok: bool) -> Seq<
    VisitRecord,
> {
    if ok {
        rows.push(visit)
    } else {
        rows
    }
}

/// A failed recording is not fatal: the tenant's existing rows stay as they
/// were, so the following count query sees the same counts as before, and
/// the visitor is answered exactly as if the recording had been skipped.
pub proof fn lemma_failed_record_keeps_counts(
    rows: Seq<VisitRecord>,
    visit: VisitRecord,
    path: Seq<char>,
    counts: Option<CombinedVisitCount>,
    visitor: Seq<char>,
)
    ensures
        rows_after_record(rows, visit, false) == rows,
        tally(rows_after_record(rows, visit, false), path) == tally(rows, path),
        counts is Some ==> answer(true, counts, visitor) is Some,
{
}

} // verus!
