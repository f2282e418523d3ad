use vstd::prelude::*;

verus! {

/// The SQL dialects this library can parse, a closed set.
#[derive(Clone, Copy, Debug, PartialEq, Eq, Structural)]
pub enum DialectKind {
    Generic,
    PostgreSql,
    MySql,
    Sqlite,
    MsSql,
    Snowflake,
    Redshift,
    BigQuery,
    ClickHouse,
    Hive,
}

/// A character's code point after lower-casing, wherever the lower case is a
/// single ASCII letter: `A`..`Z` become `a`..`z`, and the KELVIN SIGN
/// (U+212A) becomes `k`. No other character's lower case is one ASCII letter,
/// so two texts of which one is all lower-case ASCII agree under this fold
/// exactly when the other's Unicode lower case equals it.
pub open spec fn fold_case(c: char) -> int {
    let v = c as int;
    if 65 <= v <= 90 {
        v + 32
    } else if v == 0x212A {
        0x6B
    } else {
        v
    }
}

/// The two texts are equal when compared without regard to letter case.
pub open spec fn same_ignoring_case(a: Seq<char>, b: Seq<char>) -> bool {
    &&& a.len() == b.len()
    &&& forall|i: int| 0 <= i < a.len() ==> fold_case(#[trigger] a[i]) == fold_case(b[i])
}

/// The dialect a user-supplied name selects, if any; aliases included.
pub open spec fn spec_dialect_for(name: Seq<char>) -> Option<DialectKind> {
    if same_ignoring_case(name, "generic"@) {
        Some(DialectKind::Generic)
    } else if same_ignoring_case(name, "postgresql"@) || same_ignoring_case(
        name,
        "postgres"@,
    ) {
        Some(DialectKind::PostgreSql)
    } else if same_ignoring_case(name, "mysql"@) {
        Some(DialectKind::MySql)
    } else if same_ignoring_case(name, "sqlite"@) {
        Some(DialectKind::Sqlite)
    } else if same_ignoring_case(name, "mssql"@) || same_ignoring_case(
        name,
        "sqlserver"@,
    ) {
        Some(DialectKind::MsSql)
    } else if same_ignoring_case(name, "snowflake"@) {
        Some(DialectKind::Snowflake)
    } else if same_ignoring_case(name, "redshift"@) {
        Some(DialectKind::Redshift)
    } else if same_ignoring_case(name, "bigquery"@) {
        Some(DialectKind::BigQuery)
    } else if same_ignoring_case(name, "clickhouse"@) {
        Some(DialectKind::ClickHouse)
    } else if same_ignoring_case(name, "hive"@) {
        Some(DialectKind::Hive)
    } else {
        None
    }
}

/// The canonical (lower-case) name of each dialect.
pub open spec fn spec_canonical_name(d: DialectKind) -> Seq<char> {
    match d {
        DialectKind::Generic => "generic"@,
        DialectKind::PostgreSql => "postgresql"@,
        DialectKind::MySql => "mysql"@,
        DialectKind::Sqlite => "sqlite"@,
        DialectKind::MsSql => "mssql"@,
        DialectKind::Snowflake => "snowflake"@,
        DialectKind::Redshift => "redshift"@,
        DialectKind::BigQuery => "bigquery"@,
        DialectKind::ClickHouse => "clickhouse"@,
        DialectKind::Hive => "hive"@,
    }
}

/// Every name the registry accepts, aliases included, in a stable order.
pub open spec fn spec_supported_names() -> Seq<Seq<char>> {
    seq![
        "generic"@,
        "postgresql"@,
        "postgres"@,
        "mysql"@,
        "sqlite"@,
        "mssql"@,
        "sqlserver"@,
        "snowflake"@,
        "redshift"@,
        "bigquery"@,
        "clickhouse"@,
        "hive"@,
    ]
}

fn fold_case_exec(c: char) -> (r: u32)
    ensures
        r as int == fold_case(c),
{
    let v = c as u32;
    if 65 <= v && v <= 90 {
        v + 32
    } else if v == 0x212A {
        0x6B
    } else {
        v
    }
}

/// Compares two texts without regard to letter case (see `fold_case`).
pub fn eq_ignore_case(a: &str, b: &str) -> (r: bool)
    ensures
        r == same_ignoring_case(a@, b@),
{
    let n = a.unicode_len();
    if n != b.unicode_len() {
        return false;
    }
    let mut i: usize = 0;
    while i < n
        invariant
            n == a@.len(),
            n == b@.len(),
            i <= n,
            forall|j: int| 0 <= j < i ==> fold_case(#[trigger] a@[j]) == fold_case(b@[j]),
        decreases n - i,
    {
        if fold_case_exec(a.get_char(i)) != fold_case_exec(b.get_char(i)) {
            return false;
        }
        i += 1;
    }
    true
}

/// Looks a dialect up by name, ignoring letter case; `None` for a name
/// outside the registry.
pub fn dialect_for(name: &str) -> (r: Option<DialectKind>)
    ensures
        r == spec_dialect_for(name@),
{
    if eq_ignore_case(name, "generic") {
        Some(DialectKind::Generic)
    } else if eq_ignore_case(name, "postgresql") || eq_ignore_case(name, "postgres") {
        Some(DialectKind::PostgreSql)
    } else if eq_ignore_case(name, "mysql") {
        Some(DialectKind::MySql)
    } else if eq_ignore_case(name, "sqlite") {
        Some(DialectKind::Sqlite)
    } else if eq_ignore_case(name, "mssql") || eq_ignore_case(name, "sqlserver") {
        Some(DialectKind::MsSql)
    } else if eq_ignore_case(name, "snowflake") {
        Some(DialectKind::Snowflake)
    } else if eq_ignore_case(name, "redshift") {
        Some(DialectKind::Redshift)
    } else if eq_ignore_case(name, "bigquery") {
        Some(DialectKind::BigQuery)
    } else if eq_ignore_case(name, "clickhouse") {
        Some(DialectKind::ClickHouse)
    } else if eq_ignore_case(name, "hive") {
        Some(DialectKind::Hive)
    } else {
        None
    }
}

impl DialectKind {
    /// The dialect's canonical lower-case name.
    pub fn canonical_name(&self) -> (r: &'static str)
        ensures
            r@ == spec_canonical_name(*self),
    {
        match self {
            DialectKind::Generic => "generic",
            DialectKind::PostgreSql => "postgresql",
            DialectKind::MySql => "mysql",
            DialectKind::Sqlite => "sqlite",
            DialectKind::MsSql => "mssql",
            DialectKind::Snowflake => "snowflake",
            DialectKind::Redshift => "redshift",
            DialectKind::BigQuery => "bigquery",
            DialectKind::ClickHouse => "clickhouse",
            DialectKind::Hive => "hive",
        }
    }
}

/// The names the registry accepts, aliases included, in a stable order.
pub fn get_supported_dialects() -> (r: Vec<&'static str>)
    ensures
        r@.len() == spec_supported_names().len(),
        forall|i: int| 0 <= i < r@.len() ==> (#[trigger] r@[i])@ == spec_supported_names()[i],
{
    vec![
        "generic",
        "postgresql",
        "postgres",
        "mysql",
        "sqlite",
        "mssql",
        "sqlserver",
        "snowflake",
        "redshift",
        "bigquery",
        "clickhouse",
        "hive",
    ]
}

/// Comparing without regard to case is symmetric and transitive.
proof fn lemma_same_ignoring_case_equivalence(a: Seq<char>, b: Seq<char>, c: Seq<char>)
    requires
        same_ignoring_case(a, b),
    ensures
        same_ignoring_case(b, a),
        same_ignoring_case(b, c) ==> same_ignoring_case(a, c),
        same_ignoring_case(a, c) ==> same_ignoring_case(b, c),
{
    assert forall|i: int| 0 <= i < b.len() implies fold_case(#[trigger] b[i]) == fold_case(
        a[i],
    ) by {
        assert(fold_case(a[i]) == fold_case(b[i]));
    }
    if same_ignoring_case(b, c) {
        assert forall|i: int| 0 <= i < a.len() implies fold_case(#[trigger] a[i]) == fold_case(
            c[i],
        ) by {
            assert(fold_case(a[i]) == fold_case(b[i]));
            assert(fold_case(b[i]) == fold_case(c[i]));
        }
    }
    if same_ignoring_case(a, c) {
        assert forall|i: int| 0 <= i < b.len() implies fold_case(#[trigger] b[i]) == fold_case(
            c[i],
        ) by {
            assert(fold_case(a[i]) == fold_case(b[i]));
            assert(fold_case(a[i]) == fold_case(c[i]));
        }
    }
}

/// Dialect names are matched without regard to letter case: two spellings
/// that differ only in the case of their letters select the same dialect.
pub proof fn lemma_dialect_for_ignores_case(a: Seq<char>, b: Seq<char>)
    requires
        same_ignoring_case(a, b),
    ensures
        spec_dialect_for(a) == spec_dialect_for(b),
{
    assert forall|k: Seq<char>|
        same_ignoring_case(a, k) == same_ignoring_case(b, k) by {
        lemma_same_ignoring_case_equivalence(a, b, k);
    }
}

/// Every name of the registry, in any letter case, selects a dialect.
pub proof fn lemma_supported_names_resolve(i: int, name: Seq<char>)
    requires
        0 <= i < spec_supported_names().len(),
        same_ignoring_case(name, spec_supported_names()[i]),
    ensures
        spec_dialect_for(name) is Some,
{
}

/// A name that matches no registry name, in any case, selects no dialect.
pub proof fn lemma_unknown_names_rejected(name: Seq<char>)
    requires
        forall|i: int|
            0 <= i < spec_supported_names().len() ==> !same_ignoring_case(
                name,
                #[trigger] spec_supported_names()[i],
            ),
    ensures
        spec_dialect_for(name) is None,
{
    assert(!same_ignoring_case(name, spec_supported_names()[0]));
    assert(!same_ignoring_case(name, spec_supported_names()[1]));
    assert(!same_ignoring_case(name, spec_supported_names()[2]));
    assert(!same_ignoring_case(name, spec_supported_names()[3]));
    assert(!same_ignoring_case(name, spec_supported_names()[4]));
    assert(!same_ignoring_case(name, spec_supported_names()[5]));
    assert(!same_ignoring_case(name, spec_supported_names()[6]));
    assert(!same_ignoring_case(name, spec_supported_names()[7]));
    assert(!same_ignoring_case(name, spec_supported_names()[8]));
    assert(!same_ignoring_case(name, spec_supported_names()[9]));
    assert(!same_ignoring_case(name, spec_supported_names()[10]));
    assert(!same_ignoring_case(name, spec_supported_names()[11]));
}

/// A dialect's canonical name selects that very dialect.
pub proof fn lemma_canonical_name_selects_itself(d: DialectKind)
    ensures
        spec_dialect_for(spec_canonical_name(d)) == Some(d),
{
    reveal_strlit("generic");
    reveal_strlit("postgresql");
    reveal_strlit("postgres");
    reveal_strlit("mysql");
    reveal_strlit("sqlite");
    reveal_strlit("mssql");
    reveal_strlit("sqlserver");
    reveal_strlit("snowflake");
    reveal_strlit("redshift");
    reveal_strlit("bigquery");
    reveal_strlit("clickhouse");
    reveal_strlit("hive");
    match d {
        DialectKind::MsSql => {
            assert(fold_case("mssql"@[1]) != fold_case("mysql"@[1]));
        },
        DialectKind::Snowflake => {
            assert(fold_case("snowflake"@[1]) != fold_case("sqlserver"@[1]));
        },
        DialectKind::Redshift => {
            assert(fold_case("redshift"@[0]) != fold_case("postgres"@[0]));
        },
        DialectKind::BigQuery => {
            assert(fold_case("bigquery"@[0]) != fold_case("postgres"@[0]));
            assert(fold_case("bigquery"@[0]) != fold_case("redshift"@[0]));
        },
        DialectKind::ClickHouse => {
            assert(fold_case("clickhouse"@[0]) != fold_case("postgresql"@[0]));
        },
        _ => {},
    }
}

/// The aliases select the dialect of the canonical name they stand for.
pub proof fn lemma_aliases_select_their_dialect()
    ensures
        spec_dialect_for("postgres"@) == Some(DialectKind::PostgreSql),
        spec_dialect_for("sqlserver"@) == Some(DialectKind::MsSql),
{
    reveal_strlit("generic");
    reveal_strlit("postgresql");
    reveal_strlit("postgres");
    reveal_strlit("mysql");
    reveal_strlit("sqlite");
    reveal_strlit("mssql");
    reveal_strlit("sqlserver");
}

} // verus!
