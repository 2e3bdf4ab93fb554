//! Visit records and the page-level and site-level PV/UV aggregation over them.
use vstd::prelude::*;
use vstd::string::StringExecFns;

verus! {

broadcast use vstd::seq_lib::group_seq_properties, vstd::seq_lib::seq_to_set_is_finite;

/// One visit of a tenant's page.
#[derive(Clone, Debug)]
pub struct VisitRecord {
    /// The visited path.
    pub path: String,
    /// The visitor's identifier.
    pub user_id: String,
    /// The visitor's address, used for the visitor map.
    pub ip: String,
}

/// Page views and unique visitors of one page.
#[derive(Clone, Copy, Debug, PartialEq, Eq, Structural)]
pub struct VisitCount {
    pub pv: u32,
    pub uv: u32,
}

/// Page views and unique visitors of a whole site.
#[derive(Clone, Copy, Debug, PartialEq, Eq, Structural)]
pub struct SiteVisitCount {
    pub site_pv: u32,
    pub site_uv: u32,
}

/// The four counts of one aggregation pass.
#[derive(Clone, Copy, Debug, PartialEq, Eq, Structural)]
pub struct PageVisitCount {
    pub pv: u32,
    pub uv: u32,
    pub site_pv: u32,
    pub site_uv: u32,
}

/// The counts handed to a visitor, with the identifier the visitor was given.
#[derive(Clone, Debug)]
pub struct CombinedVisitCount {
    pub sin_suan_id: Option<String>,
    pub pv: u32,
    pub uv: u32,
    pub site_pv: u32,
    pub site_uv: u32,
}

/// Whether a visit is one of `path`.
pub open spec fn path_is(path: Seq<char>) -> spec_fn(VisitRecord) -> bool {
    |r: VisitRecord| r.path@ == path
}

/// The visits of one path.
pub open spec fn on_path(rows: Seq<VisitRecord>, path: Seq<char>) -> Seq<VisitRecord> {
    rows.filter(path_is(path))
}

/// The distinct visitor identifiers among `rows`.
pub open spec fn distinct_users(rows: Seq<VisitRecord>) -> Set<Seq<char>> {
    rows.map_values(|r: VisitRecord| r.user_id@).to_set()
}

/// Site counts: all rows, all distinct users; page counts: the same,
/// restricted to the rows of `path`.
pub open spec fn tally(rows: Seq<VisitRecord>, path: Seq<char>) -> (int, int, int, int) {
    (
        on_path(rows, path).len() as int,
        distinct_users(on_path(rows, path)).len() as int,
        rows.len() as int,
        distinct_users(rows).len() as int,
    )
}

impl PageVisitCount {
    /// The counts as plain integers, page first, then site.
    pub open spec fn counts(self) -> (int, int, int, int) {
        (self.pv as int, self.uv as int, self.site_pv as int, self.site_uv as int)
    }

    /// The page part of the counts.
    pub fn page(&self) -> (r: VisitCount)
        ensures
            r.pv == self.pv,
            r.uv == self.uv,
    {
        VisitCount { pv: self.pv, uv: self.uv }
    }

    /// The site part of the counts.
    pub fn site(&self) -> (r: SiteVisitCount)
        ensures
            r.site_pv == self.site_pv,
            r.site_uv == self.site_uv,
    {
        SiteVisitCount { site_pv: self.site_pv, site_uv: self.site_uv }
    }
}

impl CombinedVisitCount {
    pub open spec fn counts(self) -> (int, int, int, int) {
        (self.pv as int, self.uv as int, self.site_pv as int, self.site_uv as int)
    }
}

/// Appending a row adds its user to the distinct users.
proof fn lemma_distinct_users_push(rows: Seq<VisitRecord>, r: VisitRecord)
    ensures
        distinct_users(rows.push(r)) == distinct_users(rows).insert(r.user_id@),
{
    let f = |x: VisitRecord| x.user_id@;
    let m = rows.map_values(f);
    assert(rows.push(r).map_values(f) =~= m.push(r.user_id@));
    assert forall|u: Seq<char>| #[trigger] m.push(r.user_id@).contains(u) <==> (m.contains(u) || u
        == r.user_id@) by {
        if m.push(r.user_id@).contains(u) {
            let k = choose|k: int| 0 <= k < m.len() + 1 && m.push(r.user_id@)[k] == u;
            if k < m.len() {
                assert(m[k] == u);
            }
        }
        if m.contains(u) {
            let k = choose|k: int| 0 <= k < m.len() && m[k] == u;
            assert(m.push(r.user_id@)[k] == u);
        }
        if u == r.user_id@ {
            assert(m.push(r.user_id@)[m.len() as int] == u);
        }
    }
    assert(distinct_users(rows.push(r)) =~= distinct_users(rows).insert(r.user_id@));
}

/// A user is among the distinct users of `rows` exactly when some row has it.
proof fn lemma_distinct_users_contains(rows: Seq<VisitRecord>, u: Seq<char>)
    ensures
        distinct_users(rows).contains(u) <==> exists|k: int|
            0 <= k < rows.len() && #[trigger] rows[k].user_id@ == u,
{
    let m = rows.map_values(|x: VisitRecord| x.user_id@);
    if distinct_users(rows).contains(u) {
        let k = choose|k: int| 0 <= k < m.len() && m[k] == u;
        assert(rows[k].user_id@ == u);
    }
    if exists|k: int| 0 <= k < rows.len() && #[trigger] rows[k].user_id@ == u {
        let k = choose|k: int| 0 <= k < rows.len() && #[trigger] rows[k].user_id@ == u;
        assert(m[k] == u);
    }
}

/// A user is among the distinct users of a path exactly when some row of
/// that path has it.
proof fn lemma_page_users_contains(rows: Seq<VisitRecord>, path: Seq<char>, u: Seq<char>)
    ensures
        distinct_users(on_path(rows, path)).contains(u) <==> exists|k: int|
            0 <= k < rows.len() && rows[k].path@ == path && #[trigger] rows[k].user_id@ == u,
{
    let pred = path_is(path);
    let f = on_path(rows, path);
    lemma_distinct_users_contains(f, u);
    if distinct_users(f).contains(u) {
        let k = choose|k: int| 0 <= k < f.len() && #[trigger] f[k].user_id@ == u;
        rows.lemma_filter_pred(pred, k);
        assert(f.contains(f[k]));
        rows.lemma_filter_contains_rev(pred, f[k]);
        let j = choose|j: int| 0 <= j < rows.len() && rows[j] == f[k];
        assert(rows[j].path@ == path && rows[j].user_id@ == u);
    }
    if exists|k: int| 0 <= k < rows.len() && rows[k].path@ == path && #[trigger] rows[k].user_id@
        == u {
        let k = choose|k: int|
            0 <= k < rows.len() && rows[k].path@ == path && #[trigger] rows[k].user_id@ == u;
        rows.lemma_filter_contains(pred, k);
        let j = choose|j: int| 0 <= j < f.len() && f[j] == rows[k];
        assert(f[j].user_id@ == u);
    }
}

/// Counts page and site views and distinct visitors of `rows` in one pass.
pub fn count_visits(rows: &Vec<VisitRecord>, path: &str) -> (r: PageVisitCount)
    requires
        rows@.len() <= u32::MAX,
    ensures
        r.counts() == tally(rows@, path@),
{
    let target = String::from_str(path);
    let ghost p = path@;
    let mut pv: u32 = 0;
    let mut uv: u32 = 0;
    let mut site_uv: u32 = 0;
    let mut i: usize = 0;
    assert(rows@.subrange(0, 0) =~= Seq::<VisitRecord>::empty());
    assert(on_path(Seq::<VisitRecord>::empty(), p) =~= Seq::<VisitRecord>::empty()) by {
        reveal(Seq::filter);
    }
    assert(distinct_users(Seq::<VisitRecord>::empty()) =~= Set::<Seq<char>>::empty());
    while i < rows.len()
        invariant
            i <= rows@.len() <= u32::MAX,
            target@ == p,
            pv as int == on_path(rows@.subrange(0, i as int), p).len(),
            uv as int == distinct_users(on_path(rows@.subrange(0, i as int), p)).len(),
            site_uv as int == distinct_users(rows@.subrange(0, i as int)).len(),
            pv <= i,
            uv <= pv,
            site_uv <= i,
        decreases rows@.len() - i,
    {
        let ghost pre = rows@.subrange(0, i as int);
        let ghost row = rows@[i as int];
        let mut seen_site = false;
        let mut seen_page = false;
        let mut j: usize = 0;
        while j < i
            invariant
                i < rows@.len(),
                j <= i,
                target@ == p,
                row == rows@[i as int],
                seen_site == exists|k: int|
                    0 <= k < j && #[trigger] rows@[k].user_id@ == row.user_id@,
                seen_page == exists|k: int|
                    0 <= k < j && rows@[k].path@ == p && #[trigger] rows@[k].user_id@
                        == row.user_id@,
            decreases i - j,
        {
            if rows[j].user_id == rows[i].user_id {
                seen_site = true;
                if rows[j].path == target {
                    seen_page = true;
                }
            }
            j = j + 1;
        }
        proof {
            let pred = path_is(p);
            assert(rows@.subrange(0, i + 1) =~= pre.push(row));
            pre.lemma_filter_push(row, pred);
            lemma_distinct_users_push(pre, row);
            lemma_distinct_users_contains(pre, row.user_id@);
            lemma_page_users_contains(pre, p, row.user_id@);
            if seen_site {
                let k = choose|k: int| 0 <= k < i && #[trigger] rows@[k].user_id@ == row.user_id@;
                assert(pre[k].user_id@ == row.user_id@);
            } else {
                assert forall|k: int| 0 <= k < pre.len() implies #[trigger] pre[k].user_id@
                    != row.user_id@ by {
                    assert(pre[k] == rows@[k]);
                }
            }
            if seen_page {
                let k = choose|k: int|
                    0 <= k < i && rows@[k].path@ == p && #[trigger] rows@[k].user_id@
                        == row.user_id@;
                assert(pre[k].user_id@ == row.user_id@ && pre[k].path@ == p);
            } else {
                assert forall|k: int| 0 <= k < pre.len() && pre[k].path@ == p implies #[trigger] pre[
                    k].user_id@ != row.user_id@ by {
                    assert(pre[k] == rows@[k]);
                }
            }
            if row.path@ == p {
                lemma_distinct_users_push(on_path(pre, p), row);
            }
        }
        if rows[i].path == target {
            pv = pv + 1;
            if !seen_page {
                uv = uv + 1;
            }
        }
        if !seen_site {
            site_uv = site_uv + 1;
        }
        i = i + 1;
    }
    assert(rows@.subrange(0, rows@.len() as int) =~= rows@);
    PageVisitCount { pv, uv, site_pv: i as u32, site_uv }
}

/// The combined counts of `path` among a tenant's `rows`, with no visitor
/// identifier attached yet.
pub fn query_count(rows: &Vec<VisitRecord>, path: &str) -> (r: CombinedVisitCount)
    requires
        rows@.len() <= u32::MAX,
    ensures
        r.sin_suan_id is None,
        r.counts() == tally(rows@, path@),
{
    let c = count_visits(rows, path);
    CombinedVisitCount { sin_suan_id: None, pv: c.pv, uv: c.uv, site_pv: c.site_pv, site_uv: c.site_uv }
}

/// Each recorded visit is one more view: the site gains one view, the page
/// of the visit gains one view, and a visitor counts as one more unique
/// visitor (of the site, and of the visited page) only if not seen there
/// before. So the same visitor on the same page twice is two views, one visitor.
pub proof fn lemma_visit_adds_one_view(rows: Seq<VisitRecord>, visit: VisitRecord, path: Seq<char>)
    ensures
        tally(rows.push(visit), path).2 == tally(rows, path).2 + 1,
        tally(rows.push(visit), path).3 == tally(rows, path).3 + if distinct_users(rows).contains(
            visit.user_id@,
        ) {
            0int
        } else {
            1int
        },
        tally(rows.push(visit), path).0 == tally(rows, path).0 + if visit.path@ == path {
            1int
        } else {
            0int
        },
        tally(rows.push(visit), path).1 == tally(rows, path).1 + if visit.path@ == path
            && !distinct_users(on_path(rows, path)).contains(visit.user_id@) {
            1int
        } else {
            0int
        },
{
    rows.lemma_filter_push(visit, path_is(path));
    lemma_distinct_users_push(rows, visit);
    if visit.path@ == path {
        lemma_distinct_users_push(on_path(rows, path), visit);
    }
}

} // verus!
