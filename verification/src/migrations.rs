use vstd::prelude::*;

verus! {

/// One schema migration: a name recorded once the statement has run, and
/// the SQL to run.
#[derive(Debug, Clone, Copy)]
pub struct SqlMigration {
    name: &'static str,
    sql: &'static str,
}

impl SqlMigration {
    /// The migration's recorded name.
    pub closed spec fn spec_name(&self) -> Seq<char> {
        self.name@
    }

    /// The migration's SQL text.
    pub closed spec fn spec_sql(&self) -> Seq<char> {
        self.sql@
    }

    pub fn new(name: &'static str, sql: &'static str) -> (r: Self)
        ensures
            r.spec_name() == name@,
            r.spec_sql() == sql@,
    {
        Self { name, sql }
    }

    /// The migration's recorded name.
    pub fn name(&self) -> (r: &str)
        ensures
            r@ == self.spec_name(),
    {
        self.name
    }

    /// The migration's SQL text.
    pub fn sql(&self) -> (r: &str)
        ensures
            r@ == self.spec_sql(),
    {
        self.sql
    }
}

/// Every migration this build knows, in the order they must run.
pub fn migrations() -> (r: Vec<SqlMigration>)
    ensures
        r@.len() == 1,
        r@[0].spec_name() == "m202509221140_create_servers_table"@,
        r@[0].spec_sql()
            == "CREATE TABLE IF NOT EXISTS \"servers\" (\"id\" BLOB PRIMARY KEY NOT NULL, \"name\" TEXT NOT NULL, \"config\" TEXT NOT NULL, \"order\" INTEGER NOT NULL DEFAULT 0);"@,
{
    let mut r: Vec<SqlMigration> = Vec::new();
    r.push(
        SqlMigration::new(
            "m202509221140_create_servers_table",
            "CREATE TABLE IF NOT EXISTS \"servers\" (\"id\" BLOB PRIMARY KEY NOT NULL, \"name\" TEXT NOT NULL, \"config\" TEXT NOT NULL, \"order\" INTEGER NOT NULL DEFAULT 0);",
        ),
    );
    r
}

/// The names of a migration list.
pub open spec fn migration_names(known: Seq<SqlMigration>) -> Seq<Seq<char>> {
    known.map_values(|m: SqlMigration| m.spec_name())
}

/// The character-level content of a name list.
pub open spec fn name_views(names: Seq<String>) -> Seq<Seq<char>> {
    names.map_values(|s: String| s@)
}

/// Whether `name` is among `names`.
fn contains_name(names: &Vec<String>, name: &str) -> (r: bool)
    ensures
        r == name_views(names@).contains(name@),
{
    let name_string = String::from_str(name);
    let n = names.len();
    let mut i: usize = 0;
    while i < n
        invariant
            i <= n,
            n == names@.len(),
            name_string@ == name@,
            forall|j: int| 0 <= j < i ==> name_views(names@)[j] != name@,
        decreases n - i,
    {
        let candidate: &String = &names[i];
        if *candidate == name_string {
            proof {
                assert(name_views(names@)[i as int] == name@);
            }
            return true;
        }
        i = i + 1;
    }
    proof {
        if name_views(names@).contains(name@) {
            let j = choose|j: int|
                0 <= j < name_views(names@).len() && name_views(names@)[j] == name@;
            assert(name_views(names@)[j] != name@);
        }
    }
    false
}

/// Which of the known migrations still have to run: the indices, in order,
/// of exactly those whose name is not among the applied ones.
pub fn pending_migrations(known: &Vec<SqlMigration>, applied: &Vec<String>) -> (r: Vec<usize>)
    ensures
        forall|j: int|
            0 <= j < r@.len() ==> (#[trigger] r@[j]) < known@.len() && !name_views(
                applied@,
            ).contains(known@[r@[j] as int].spec_name()),
        forall|j1: int, j2: int| 0 <= j1 < j2 < r@.len() ==> r@[j1] < r@[j2],
        forall|i: int|
            0 <= i < known@.len() && !name_views(applied@).contains(
                (#[trigger] known@[i]).spec_name(),
            ) ==> r@.contains(i as usize),
{
    let n = known.len();
    let mut r: Vec<usize> = Vec::new();
    let mut i: usize = 0;
    while i < n
        invariant
            i <= n,
            n == known@.len(),
            forall|j: int|
                0 <= j < r@.len() ==> (#[trigger] r@[j]) < i && !name_views(applied@).contains(
                    known@[r@[j] as int].spec_name(),
                ),
            forall|j1: int, j2: int| 0 <= j1 < j2 < r@.len() ==> r@[j1] < r@[j2],
            forall|k: int|
                0 <= k < i && !name_views(applied@).contains((#[trigger] known@[k]).spec_name())
                    ==> r@.contains(k as usize),
        decreases n - i,
    {
        let known_i: &SqlMigration = &known[i];
        if !contains_name(applied, known_i.name()) {
            let ghost prev = r@;
            r.push(i);
            proof {
                assert(r@[r@.len() - 1] == i);
                assert forall|k: int|
                    0 <= k < i + 1 && !name_views(applied@).contains(
                        (#[trigger] known@[k]).spec_name(),
                    ) implies r@.contains(k as usize) by {
                    if k < i {
                        let j = choose|j: int| 0 <= j < prev.len() && prev[j] == k as usize;
                        assert(r@[j] == k as usize);
                    } else {
                        assert(r@[r@.len() - 1] == k as usize);
                    }
                }
            }
        }
        i = i + 1;
    }
    r
}

/// The applied names that no known migration carries: the database holds
/// them, this build does not, and the caller warns about each.
pub fn unknown_applied(known: &Vec<SqlMigration>, applied: &Vec<String>) -> (r: Vec<String>)
    ensures
        forall|j: int|
            0 <= j < r@.len() ==> name_views(applied@).contains((#[trigger] r@[j])@)
                && !migration_names(known@).contains(r@[j]@),
        forall|i: int|
            0 <= i < applied@.len() && !migration_names(known@).contains(
                (#[trigger] applied@[i])@,
            ) ==> name_views(r@).contains(applied@[i]@),
{
    let n = applied.len();
    let mut r: Vec<String> = Vec::new();
    let mut i: usize = 0;
    while i < n
        invariant
            i <= n,
            n == applied@.len(),
            forall|j: int|
                0 <= j < r@.len() ==> name_views(applied@).contains((#[trigger] r@[j])@)
                    && !migration_names(known@).contains(r@[j]@),
            forall|k: int|
                0 <= k < i && !migration_names(known@).contains((#[trigger] applied@[k])@)
                    ==> name_views(r@).contains(applied@[k]@),
        decreases n - i,
    {
        let applied_i: &String = &applied[i];
        if !contains_known_name(known, applied_i.as_str()) {
            let ghost prev = r@;
            r.push(applied_i.clone());
            proof {
                assert(name_views(applied@)[i as int] == applied@[i as int]@);
                assert(name_views(r@)[r@.len() - 1] == applied@[i as int]@);
                assert forall|k: int|
                    0 <= k < i + 1 && !migration_names(known@).contains(
                        (#[trigger] applied@[k])@,
                    ) implies name_views(r@).contains(applied@[k]@) by {
                    if k < i {
                        let j = choose|j: int|
                            0 <= j < name_views(prev).len() && name_views(prev)[j]
                                == applied@[k]@;
                        assert(name_views(r@)[j] == applied@[k]@);
                    } else {
                        assert(name_views(r@)[r@.len() - 1] == applied@[k]@);
                    }
                }
            }
        } else {
            proof {
                assert(name_views(applied@)[i as int] == applied@[i as int]@);
            }
        }
        i = i + 1;
    }
    r
}

/// Whether `name` is the name of one of the known migrations.
fn contains_known_name(known: &Vec<SqlMigration>, name: &str) -> (r: bool)
    ensures
        r == migration_names(known@).contains(name@),
{
    let name_string = String::from_str(name);
    let n = known.len();
    let mut i: usize = 0;
    while i < n
        invariant
            i <= n,
            n == known@.len(),
            name_string@ == name@,
            forall|j: int| 0 <= j < i ==> migration_names(known@)[j] != name@,
        decreases n - i,
    {
        let known_i: &SqlMigration = &known[i];
        if String::from_str(known_i.name()) == name_string {
            proof {
                assert(migration_names(known@)[i as int] == name@);
            }
            return true;
        }
        i = i + 1;
    }
    proof {
        if migration_names(known@).contains(name@) {
            let j = choose|j: int|
                0 <= j < migration_names(known@).len() && migration_names(known@)[j] == name@;
            assert(migration_names(known@)[j] != name@);
        }
    }
    false
}

} // verus!
