use sinsuan::counts::{count_visits, query_count, VisitRecord};

fn visit(path: &str, user: &str) -> VisitRecord {
    VisitRecord { path: path.to_string(), user_id: user.to_string(), ip: "10.0.0.1".to_string() }
}

#[test]
fn aggregation_over_mixed_visits() {
    let rows = vec![visit("/p1", "u1"), visit("/p1", "u1"), visit("/p1", "u2"), visit("/p2", "u1")];
    let c = query_count(&rows, "/p1");
    assert_eq!((c.pv, c.uv, c.site_pv, c.site_uv), (3, 2, 4, 2));
    assert!(c.sin_suan_id.is_none());
    let c2 = query_count(&rows, "/p2");
    assert_eq!((c2.pv, c2.uv, c2.site_pv, c2.site_uv), (1, 1, 4, 2));
}

#[test]
fn zero_state_for_unseen_path() {
    let c = query_count(&Vec::new(), "/unseen");
    assert_eq!((c.pv, c.uv, c.site_pv, c.site_uv), (0, 0, 0, 0));
    let rows = vec![visit("/a", "u1")];
    let c = query_count(&rows, "/unseen");
    assert_eq!((c.pv, c.uv, c.site_pv, c.site_uv), (0, 0, 1, 1));
}

#[test]
fn same_user_on_other_page_counts_once_per_page() {
    let rows = vec![visit("/b", "u1"), visit("/a", "u2"), visit("/a", "u1"), visit("/a", "u2")];
    let c = count_visits(&rows, "/a");
    assert_eq!((c.pv, c.uv, c.site_pv, c.site_uv), (3, 2, 4, 2));
    assert_eq!(c.page().pv, 3);
    assert_eq!(c.page().uv, 2);
    assert_eq!(c.site().site_pv, 4);
    assert_eq!(c.site().site_uv, 2);
}

#[test]
fn same_visit_twice_is_two_views_one_visitor() {
    let mut rows = vec![visit("/p", "u1")];
    let before = query_count(&rows, "/p");
    rows.push(visit("/p", "u1"));
    let after = query_count(&rows, "/p");
    assert_eq!((before.pv, before.uv, before.site_pv, before.site_uv), (1, 1, 1, 1));
    assert_eq!((after.pv, after.uv, after.site_pv, after.site_uv), (2, 1, 2, 1));
}
