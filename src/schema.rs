//! Schema provisioning: which statements bring a tenant's storage to the
//! current revision, and what they do to it.
use vstd::prelude::*;
use vstd::string::StringExecFns;
use crate::naming::{get_table_name, table_name};

verus! {

/// Prefix of the table that holds a tenant's visit records.
pub const RECORD_PREFIX: &'static str = "visit_record";

/// Prefix of the legacy table that held running counts.
pub const VIEW_PREFIX: &'static str = "visit_count_view";

/// Prefix of the legacy trigger that maintained the running counts.
pub const TRIGGER_PREFIX: &'static str = "visit_count_view_trigger";

/// The column whose presence marks the current revision.
pub const IP_COLUMN: &'static str = "ip";

/// Looks a table up in the catalog by name (bound as `$1`).
pub const TABLE_LOOKUP_SQL: &'static str =
    "SELECT name FROM sqlite_master WHERE type='table' AND name=$1 LIMIT 1";

pub const CREATE_TABLE_HEAD: &'static str = "CREATE TABLE IF NOT EXISTS ";

pub const CREATE_TABLE_COLUMNS: &'static str =
    " (id INTEGER PRIMARY KEY AUTOINCREMENT, path TEXT NOT NULL, user_id TEXT NOT NULL, ip TEXT DEFAULT NULL, timestamp TEXT NOT NULL)";

pub const ALTER_TABLE_HEAD: &'static str = "ALTER TABLE ";

pub const ADD_IP_COLUMN: &'static str = " ADD COLUMN ip TEXT DEFAULT NULL";

pub const DROP_TRIGGER_HEAD: &'static str = "DROP TRIGGER IF EXISTS ";

pub const DROP_TABLE_HEAD: &'static str = "DROP TABLE IF EXISTS ";

pub const COLUMN_LISTING_HEAD: &'static str = "PRAGMA table_info(";

pub const CLOSING_PAREN: &'static str = ")";

/// The shared geolocation cache table.
pub const CACHE_TABLE_SQL: &'static str =
    "CREATE TABLE IF NOT EXISTS ip_location (ip TEXT NOT NULL PRIMARY KEY, nation TEXT DEFAULT NULL, province TEXT DEFAULT NULL, city TEXT DEFAULT NULL, district TEXT DEFAULT NULL, lat REAL DEFAULT NULL, lon REAL DEFAULT NULL)";

pub const CACHE_UNIQUE_INDEX_SQL: &'static str =
    "CREATE UNIQUE INDEX IF NOT EXISTS ip_location_unique ON ip_location (ip)";

pub const CACHE_NATION_INDEX_SQL: &'static str =
    "CREATE INDEX IF NOT EXISTS ip_location_nation ON ip_location (nation)";

/// The change that provisioning applies to a tenant's storage.
#[derive(Clone, Copy, Debug, PartialEq, Eq, Structural)]
pub enum SchemaChange {
    /// The record table is absent: create it at the current revision.
    CreateRecordTable,
    /// The record table lacks the `ip` column: migrate it forward.
    MigrateLegacy,
}

/// The texts of a sequence of strings.
pub open spec fn texts(v: Seq<String>) -> Seq<Seq<char>> {
    v.map_values(|s: String| s@)
}

/// Whether a column of the given name is among `columns`.
pub open spec fn has_column(columns: Seq<String>, name: Seq<char>) -> bool {
    exists|i: int| 0 <= i < columns.len() && #[trigger] columns[i]@ == name
}

/// The change that brings storage in the given state to the current revision.
pub open spec fn planned_change(table_exists: bool, has_ip: bool) -> Option<SchemaChange> {
    if !table_exists {
        Some(SchemaChange::CreateRecordTable)
    } else if has_ip {
        None
    } else {
        Some(SchemaChange::MigrateLegacy)
    }
}

pub open spec fn record_table(domain: Seq<char>) -> Seq<char> {
    table_name(RECORD_PREFIX@, domain)
}

pub open spec fn create_record_table_sql(domain: Seq<char>) -> Seq<char> {
    CREATE_TABLE_HEAD@ + record_table(domain) + CREATE_TABLE_COLUMNS@
}

pub open spec fn add_ip_column_sql(domain: Seq<char>) -> Seq<char> {
    ALTER_TABLE_HEAD@ + record_table(domain) + ADD_IP_COLUMN@
}

pub open spec fn drop_trigger_sql(domain: Seq<char>) -> Seq<char> {
    DROP_TRIGGER_HEAD@ + table_name(TRIGGER_PREFIX@, domain)
}

pub open spec fn drop_view_sql(domain: Seq<char>) -> Seq<char> {
    DROP_TABLE_HEAD@ + table_name(VIEW_PREFIX@, domain)
}

pub open spec fn column_listing_sql(domain: Seq<char>) -> Seq<char> {
    COLUMN_LISTING_HEAD@ + record_table(domain) + CLOSING_PAREN@
}

/// The statements that create the shared geolocation cache if it is absent.
pub open spec fn cache_statements() -> Seq<Seq<char>> {
    seq![CACHE_TABLE_SQL@, CACHE_UNIQUE_INDEX_SQL@, CACHE_NATION_INDEX_SQL@]
}

/// The statements that carry out `change` for tenant `domain`, in order.
pub open spec fn change_statements(change: SchemaChange, domain: Seq<char>) -> Seq<Seq<char>> {
    match change {
        SchemaChange::CreateRecordTable => seq![create_record_table_sql(domain)]
            + cache_statements(),
        SchemaChange::MigrateLegacy => seq![
            add_ip_column_sql(domain),
            drop_trigger_sql(domain),
            drop_view_sql(domain),
        ] + cache_statements(),
    }
}

/// Two strings joined around a tenant's object name.
fn framed_name(head: &str, prefix: &str, domain: &str, tail: &str) -> (r: String)
    ensures
        r@ == head@ + table_name(prefix@, domain@) + tail@,
{
    let name = get_table_name(prefix, domain);
    let mut s = String::from_str(head);
    s.append(name.as_str());
    s.append(tail);
    s
}

/// The statement that lists the columns of a tenant's record table.
pub fn column_listing_statement(domain: &str) -> (r: String)
    ensures
        r@ == column_listing_sql(domain@),
{
    framed_name(COLUMN_LISTING_HEAD, RECORD_PREFIX, domain, CLOSING_PAREN)
}

/// Whether a column named `ip` is among `columns`.
pub fn has_ip_column(columns: &Vec<String>) -> (r: bool)
    ensures
        r == has_column(columns@, IP_COLUMN@),
{
    let ip = String::from_str(IP_COLUMN);
    let mut i: usize = 0;
    while i < columns.len()
        invariant
            0 <= i <= columns@.len(),
            ip@ == IP_COLUMN@,
            forall|j: int| 0 <= j < i ==> columns@[j]@ != IP_COLUMN@,
        decreases columns@.len() - i,
    {
        if columns[i] == ip {
            return true;
        }
        i = i + 1;
    }
    false
}

/// The change that provisioning applies, given whether the record table
/// exists and, if it does, the names of its columns.
pub fn plan_schema_change(table_exists: bool, columns: &Vec<String>) -> (r: Option<SchemaChange>)
    ensures
        r == planned_change(table_exists, has_column(columns@, IP_COLUMN@)),
{
    if !table_exists {
        Some(SchemaChange::CreateRecordTable)
    } else if has_ip_column(columns) {
        None
    } else {
        Some(SchemaChange::MigrateLegacy)
    }
}

impl SchemaChange {
    /// The statements that carry out this change for tenant `domain`.
    pub fn statements(&self, domain: &str) -> (r: Vec<String>)
        ensures
            texts(r@) == change_statements(*self, domain@),
    {
        let mut v: Vec<String> = Vec::new();
        match self {
            SchemaChange::CreateRecordTable => {
                v.push(framed_name(CREATE_TABLE_HEAD, RECORD_PREFIX, domain, CREATE_TABLE_COLUMNS));
            },
            SchemaChange::MigrateLegacy => {
                v.push(framed_name(ALTER_TABLE_HEAD, RECORD_PREFIX, domain, ADD_IP_COLUMN));
                v.push(framed_name(DROP_TRIGGER_HEAD, TRIGGER_PREFIX, domain, ""));
                v.push(framed_name(DROP_TABLE_HEAD, VIEW_PREFIX, domain, ""));
            },
        }
        v.push(String::from_str(CACHE_TABLE_SQL));
        v.push(String::from_str(CACHE_UNIQUE_INDEX_SQL));
        v.push(String::from_str(CACHE_NATION_INDEX_SQL));
        proof {
            reveal_strlit("");
            assert(texts(v@) =~= change_statements(*self, domain@));
        }
        v
    }
}

/// The statements that bring tenant `domain` to the current revision, given
/// whether its record table exists and the names of its columns; none when it
/// is current already.
pub fn init_domain_storage(domain: &str, table_exists: bool, columns: &Vec<String>) -> (r: Vec<
    String,
>)
    ensures
        texts(r@) == match planned_change(table_exists, has_column(columns@, IP_COLUMN@)) {
            None => Seq::<Seq<char>>::empty(),
            Some(c) => change_statements(c, domain@),
        },
{
    match plan_schema_change(table_exists, columns) {
        None => {
            let v: Vec<String> = Vec::new();
            proof {
                assert(texts(v@) =~= Seq::<Seq<char>>::empty());
            }
            v
        },
        Some(c) => c.statements(domain),
    }
}

/// A visit row as the record table holds it: path, user id and ip.
pub type StoredVisit = (Seq<char>, Seq<char>, Seq<char>);

/// What provisioning reads and changes of one tenant's storage.
pub struct TenantStorage {
    /// The record table exists.
    pub record_table: bool,
    /// The record table has the `ip` column.
    pub has_ip: bool,
    /// The legacy running-count table exists.
    pub legacy_view: bool,
    /// The legacy trigger exists.
    pub legacy_trigger: bool,
    /// The shared geolocation cache table and its indexes exist.
    pub cache_table: bool,
    /// The rows of the record table.
    pub rows: Seq<StoredVisit>,
}

/// Storage with no record table holds no rows.
pub open spec fn storage_wf(s: TenantStorage) -> bool {
    !s.record_table ==> s.rows.len() == 0
}

/// What the statements of `change` do to a tenant's storage.
pub open spec fn apply_change(change: SchemaChange, s: TenantStorage) -> TenantStorage {
    match change {
        SchemaChange::CreateRecordTable => TenantStorage {
            record_table: true,
            has_ip: true,
            cache_table: true,
            rows: Seq::empty(),
            ..s
        },
        SchemaChange::MigrateLegacy => TenantStorage {
            has_ip: true,
            legacy_view: false,
            legacy_trigger: false,
            cache_table: true,
            ..s
        },
    }
}

/// The storage after one provisioning pass.
pub open spec fn ensure_ready(s: TenantStorage) -> TenantStorage {
    match planned_change(s.record_table, s.has_ip) {
        None => s,
        Some(c) => apply_change(c, s),
    }
}

/// The storage after `n` provisioning passes.
pub open spec fn ensure_ready_times(s: TenantStorage, n: nat) -> TenantStorage
    decreases n,
{
    if n == 0 {
        s
    } else {
        ensure_ready(ensure_ready_times(s, (n - 1) as nat))
    }
}

/// Provisioning is idempotent: after the first pass the record table exists
/// at the current revision, every later pass plans no statement at all (so it
/// cannot fail), and any number of passes leaves the storage as one pass does.
pub proof fn lemma_ensure_ready_idempotent(s: TenantStorage, n: nat)
    requires
        storage_wf(s),
        n >= 1,
    ensures
        ensure_ready(s).record_table,
        ensure_ready(s).has_ip,
        storage_wf(ensure_ready(s)),
        planned_change(ensure_ready(s).record_table, ensure_ready(s).has_ip) is None,
        ensure_ready(ensure_ready(s)) == ensure_ready(s),
        ensure_ready_times(s, n) == ensure_ready(s),
    decreases n,
{
    if n > 1 {
        lemma_ensure_ready_idempotent(s, (n - 1) as nat);
    } else {
        assert(ensure_ready_times(s, 0) == s);
    }
}

/// Provisioning a new tenant creates its record table, empty and current.
pub proof fn lemma_new_tenant_gets_empty_table(s: TenantStorage)
    requires
        storage_wf(s),
        !s.record_table,
    ensures
        planned_change(s.record_table, s.has_ip) == Some(SchemaChange::CreateRecordTable),
        ensure_ready(s).record_table,
        ensure_ready(s).has_ip,
        ensure_ready(s).rows.len() == 0,
{
}

/// Provisioning a legacy tenant (record table without the `ip` column) adds
/// the column, removes the legacy trigger and running-count table, creates
/// the geolocation cache, and leaves the record rows untouched.
pub proof fn lemma_migration_keeps_rows(s: TenantStorage)
    requires
        s.record_table,
        !s.has_ip,
    ensures
        planned_change(s.record_table, s.has_ip) == Some(SchemaChange::MigrateLegacy),
        ensure_ready(s).record_table,
        ensure_ready(s).has_ip,
        !ensure_ready(s).legacy_view,
        !ensure_ready(s).legacy_trigger,
        ensure_ready(s).cache_table,
        ensure_ready(s).rows == s.rows,
{
}

} // verus!
