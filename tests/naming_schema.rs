use sinsuan::naming::get_table_name;
use sinsuan::schema::{
    column_listing_statement, has_ip_column, init_domain_storage, plan_schema_change, SchemaChange,
};

fn names(v: &[&str]) -> Vec<String> {
    v.iter().map(|s| s.to_string()).collect()
}

#[test]
fn table_name_is_stable_and_safe() {
    let first = get_table_name("record", "a.b-c.com");
    let second = get_table_name("record", "a.b-c.com");
    assert_eq!(first, "record_a_b_c_com");
    assert_eq!(first, second);
    assert!(first.chars().all(|c| c.is_ascii_alphanumeric() || c == '_'));
}

#[test]
fn table_name_replaces_each_non_ascii_character() {
    assert_eq!(get_table_name("visit_record", "例子.com"), "visit_record____com");
    assert_eq!(get_table_name("visit_record", "Abc_09"), "visit_record_Abc_09");
    assert_eq!(get_table_name("visit_record", ""), "visit_record_");
}

#[test]
fn new_tenant_is_created() {
    assert_eq!(plan_schema_change(false, &Vec::new()), Some(SchemaChange::CreateRecordTable));
    let stmts = init_domain_storage("a.com", false, &Vec::new());
    assert_eq!(stmts.len(), 4);
    assert_eq!(
        stmts[0],
        "CREATE TABLE IF NOT EXISTS visit_record_a_com (id INTEGER PRIMARY KEY AUTOINCREMENT, path TEXT NOT NULL, user_id TEXT NOT NULL, ip TEXT DEFAULT NULL, timestamp TEXT NOT NULL)"
    );
    assert!(stmts[1].starts_with("CREATE TABLE IF NOT EXISTS ip_location"));
    assert!(stmts[2].contains("IF NOT EXISTS ip_location_unique"));
    assert!(stmts[3].contains("IF NOT EXISTS ip_location_nation"));
}

#[test]
fn current_tenant_needs_nothing_on_every_later_call() {
    let cols = names(&["id", "path", "user_id", "ip", "timestamp"]);
    for _ in 0..5 {
        assert_eq!(plan_schema_change(true, &cols), None);
        assert!(init_domain_storage("a.com", true, &cols).is_empty());
    }
}

#[test]
fn legacy_tenant_is_migrated() {
    let cols = names(&["id", "path", "user_id", "timestamp"]);
    assert!(!has_ip_column(&cols));
    assert_eq!(plan_schema_change(true, &cols), Some(SchemaChange::MigrateLegacy));
    let stmts = init_domain_storage("a.b-c.com", true, &cols);
    assert_eq!(stmts.len(), 6);
    assert_eq!(stmts[0], "ALTER TABLE visit_record_a_b_c_com ADD COLUMN ip TEXT DEFAULT NULL");
    assert_eq!(stmts[1], "DROP TRIGGER IF EXISTS visit_count_view_trigger_a_b_c_com");
    assert_eq!(stmts[2], "DROP TABLE IF EXISTS visit_count_view_a_b_c_com");
    assert!(stmts.iter().all(|s| !s.contains("DELETE")));
}

#[test]
fn ip_column_must_match_exactly() {
    assert!(!has_ip_column(&names(&["ips", "IP", "i"])));
    assert!(has_ip_column(&names(&["path", "ip"])));
    assert!(!has_ip_column(&Vec::new()));
}

#[test]
fn column_listing_names_the_record_table() {
    assert_eq!(column_listing_statement("x.org"), "PRAGMA table_info(visit_record_x_org)");
}
