//! The migration file-pair format: a migration is a directory holding
//! exactly `up.sql` and `down.sql`; its version is the leading
//! `_`-delimited token of the directory's name. Reading directories and
//! files is left to the caller, which hands over names and contents.
use vstd::prelude::*;
use vstd::string::*;

verus! {

pub open spec fn up_sql() -> Seq<char> {
    seq!['u', 'p', '.', 's', 'q', 'l']
}

pub open spec fn down_sql() -> Seq<char> {
    seq!['d', 'o', 'w', 'n', '.', 's', 'q', 'l']
}

/// Why a directory is not a migration, or no migrations were found.
#[derive(Debug)]
pub enum MigrationError {
    UnknownMigrationFormat(String),
    MigrationDirectoryNotFound(String),
    /// A migration file could not be read; the message says why.
    IoError(String),
}

/// Why running a migration failed.
#[derive(Debug)]
pub enum RunMigrationsError {
    /// The migration's SQL file is empty.
    EmptyMigration(String),
    MigrationError(String, MigrationError),
    QueryError(String, crate::result::Error),
}

/// A directory whose entries are `names` holds exactly `up.sql` and
/// `down.sql`.
pub open spec fn is_migration_dir(names: Seq<Seq<char>>) -> bool {
    &&& forall|i: int| 0 <= i < names.len() ==> names[i] == up_sql() || names[i] == down_sql()
    &&& exists|i: int| 0 <= i < names.len() && names[i] == up_sql()
    &&& exists|i: int| 0 <= i < names.len() && names[i] == down_sql()
}

/// The listing of a directory is that of a migration.
pub open spec fn listing_is_migration(entries: Option<Vec<String>>) -> bool {
    entries matches Some(names) && is_migration_dir(names_view(names@))
}

/// `e` names the first subdirectory in `dirs` that is not a migration.
pub open spec fn names_first_invalid(dirs: Seq<(String, Option<Vec<String>>)>, e: MigrationError) -> bool {
    exists|i: int|
        0 <= i < dirs.len() && !listing_is_migration(dirs[i].1) && (forall|j: int|
            0 <= j < i ==> listing_is_migration(#[trigger] dirs[j].1)) && (e matches MigrationError::UnknownMigrationFormat(p)
            && p@ == dirs[i].0@)
}

pub open spec fn names_view(names: Seq<String>) -> Seq<Seq<char>> {
    names.map_values(|s: String| s@)
}

/// Whether a directory is a migration. `entries` holds the names of its
/// entries, or `None` when it could not be listed (it is not a directory, or
/// an entry could not be read).
pub fn valid_sql_migration_directory(entries: &Option<Vec<String>>) -> (r: bool)
    ensures
        r == listing_is_migration(*entries),
{
    match entries {
        None => false,
        Some(names) => {
            proof {
                reveal_strlit("up.sql");
                reveal_strlit("down.sql");
            }
            let up = String::from_str("up.sql");
            let down = String::from_str("down.sql");
            assert(up@ =~= up_sql());
            assert(down@ =~= down_sql());
            assert(*entries == Some(*names));
            let ghost view = names_view(names@);
            let mut has_up = false;
            let mut has_down = false;
            let mut i: usize = 0;
            while i < names.len()
                invariant
                    i <= names@.len(),
                    view == names_view(names@),
                    *entries == Some(*names),
                    up@ == up_sql(),
                    down@ == down_sql(),
                    forall|j: int| 0 <= j < i ==> view[j] == up_sql() || view[j] == down_sql(),
                    has_up == exists|j: int| 0 <= j < i && view[j] == up_sql(),
                    has_down == exists|j: int| 0 <= j < i && view[j] == down_sql(),
                decreases names@.len() - i,
            {
                assert(view[i as int] == names@[i as int]@);
                assert(up_sql() != down_sql()) by {
                    assert(up_sql().len() != down_sql().len());
                }
                if names[i] == up {
                    has_up = true;
                } else if names[i] == down {
                    has_down = true;
                } else {
                    assert(!(view[i as int] == up_sql() || view[i as int] == down_sql()));
                    assert(!is_migration_dir(view)) by {
                        assert(0 <= i < view.len());
                    }
                    assert(!listing_is_migration(*entries));
                    return false;
                }
                i = i + 1;
                proof {
                    if has_up {
                        if view[i - 1] == up_sql() {
                            assert(0 <= i - 1 < i && view[i - 1] == up_sql());
                        }
                    }
                    if has_down {
                        if view[i - 1] == down_sql() {
                            assert(0 <= i - 1 < i && view[i - 1] == down_sql());
                        }
                    }
                }
            }
            assert(view.len() == names@.len());
            has_up && has_down
        },
    }
}

/// The leading `_`-delimited token of `name`.
pub open spec fn version_of(name: Seq<char>) -> Seq<char>
    decreases name.len(),
{
    if name.len() == 0 {
        seq![]
    } else if name[0] == '_' {
        seq![]
    } else {
        seq![name[0]] + version_of(name.drop_first())
    }
}

/// The version of the migration in the directory named `dir_name`: the
/// name up to its first `_`.
pub fn version_from_path(dir_name: &str) -> (r: String)
    ensures
        r@ == version_of(dir_name@),
{
    let n = dir_name.unicode_len();
    let mut i: usize = 0;
    while i < n && dir_name.get_char(i) != '_'
        invariant
            n == dir_name@.len(),
            i <= n,
            forall|j: int| 0 <= j < i ==> dir_name@[j] != '_',
        decreases n - i,
    {
        i = i + 1;
    }
    proof {
        lemma_version_prefix(dir_name@, i as int);
    }
    dir_name.substring_char(0, i).to_owned()
}

proof fn lemma_version_prefix(name: Seq<char>, i: int)
    requires
        0 <= i <= name.len(),
        forall|j: int| 0 <= j < i ==> name[j] != '_',
        i == name.len() || name[i] == '_',
    ensures
        version_of(name) == name.subrange(0, i),
    decreases name.len(),
{
    if name.len() == 0 {
        assert(name.subrange(0, i) =~= Seq::<char>::empty());
    } else if i == 0 {
        assert(name.subrange(0, i) =~= Seq::<char>::empty());
    } else {
        lemma_version_prefix(name.drop_first(), i - 1);
        assert(name.subrange(0, i) =~= seq![name[0]] + name.drop_first().subrange(0, i - 1));
    }
}

/// A migration kept as a directory holding `up.sql` and `down.sql`.
pub struct SqlFileMigration {
    path: String,
    version: String,
}

impl SqlFileMigration {
    pub fn path(&self) -> (r: &str)
        ensures
            r@ == self.path_spec(),
    {
        self.path.as_str()
    }
}

/// The migration in the directory at `path`, named `dir_name`, with entries
/// `entries` (see [`valid_sql_migration_directory`]).
pub fn migration_from(path: String, dir_name: &str, entries: &Option<Vec<String>>) -> (r: Result<
    SqlFileMigration,
    MigrationError,
>)
    ensures
        r is Ok <==> listing_is_migration(*entries),
        r matches Ok(m) ==> m.path_spec() == path@ && m.version_spec() == version_of(dir_name@),
        r matches Err(e) ==> (e matches MigrationError::UnknownMigrationFormat(p) && p@ == path@),
{
    if valid_sql_migration_directory(entries) {
        Ok(SqlFileMigration { path, version: version_from_path(dir_name) })
    } else {
        Err(MigrationError::UnknownMigrationFormat(path))
    }
}

/// The SQL of a migration file, to be run as one batch; an empty file is an
/// error, not a no-op.
pub fn migration_sql(version: &str, sql: String) -> (r: Result<String, RunMigrationsError>)
    ensures
        sql@.len() == 0 <==> r is Err,
        r matches Ok(s) ==> s@ == sql@,
        r matches Err(e) ==> (e matches RunMigrationsError::EmptyMigration(v) && v@ == version@),
{
    if sql.as_str().is_empty() {
        Err(RunMigrationsError::EmptyMigration(version.to_owned()))
    } else {
        Ok(sql)
    }
}

/// A directory of migrations, each a subdirectory.
pub struct FileBasedMigrations {
    base_path: String,
}

impl FileBasedMigrations {
    pub closed spec fn path_spec(&self) -> Seq<char> {
        self.base_path@
    }

    /// The migrations under `path`; `dirs` holds each subdirectory's path and
    /// its entries. Fails on the first subdirectory that is not a migration.
    pub fn from_path(path: &str, dirs: &Vec<(String, Option<Vec<String>>)>) -> (r: Result<
        Self,
        MigrationError,
    >)
        ensures
            r is Ok <==> forall|i: int|
                0 <= i < dirs@.len() ==> listing_is_migration(dirs@[i].1),
            r matches Ok(m) ==> m.path_spec() == path@,
            r matches Err(e) ==> names_first_invalid(dirs@, e),
    {
        let mut i: usize = 0;
        while i < dirs.len()
            invariant
                i <= dirs@.len(),
                forall|j: int|
                    0 <= j < i ==> listing_is_migration(dirs@[j].1),
            decreases dirs@.len() - i,
        {
            if !valid_sql_migration_directory(&dirs[i].1) {
                return Err(MigrationError::UnknownMigrationFormat(dirs[i].0.clone()));
            }
            i = i + 1;
        }
        Ok(FileBasedMigrations { base_path: path.to_owned() })
    }

    /// The migrations in the directory that the search from `path` found, or
    /// an error naming `path` when none was found.
    pub fn find_migrations_directory_in_path(
        path: &str,
        found: Option<String>,
        dirs: &Vec<(String, Option<Vec<String>>)>,
    ) -> (r: Result<Self, MigrationError>)
        ensures
            found is None ==> (r matches Err(MigrationError::MigrationDirectoryNotFound(p)) && p@
                == path@),
            found matches Some(f) ==> (r matches Ok(m) ==> m.path_spec() == f@),
            found is Some ==> (r is Ok <==> forall|i: int|
                0 <= i < dirs@.len() ==> listing_is_migration(dirs@[i].1)),
            found is Some ==> (r matches Err(e) ==> names_first_invalid(dirs@, e)),
    {
        match found {
            None => Err(MigrationError::MigrationDirectoryNotFound(path.to_owned())),
            Some(dir) => Self::from_path(dir.as_str(), dirs),
        }
    }

    pub fn path(&self) -> (r: &str)
        ensures
            r@ == self.path_spec(),
    {
        self.base_path.as_str()
    }
}

pub open spec fn slash_up_sql() -> Seq<char> {
    seq!['/'] + up_sql()
}

pub open spec fn slash_down_sql() -> Seq<char> {
    seq!['/'] + down_sql()
}

/// A migration: a version, and the files whose SQL applies and reverts it.
pub trait Migration {
    spec fn version_spec(&self) -> Seq<char>;

    spec fn path_spec(&self) -> Seq<char>;

    fn version(&self) -> (r: String)
        ensures
            r@ == self.version_spec(),
    ;

    /// The file run to apply the migration.
    fn up_sql_path(&self) -> (r: String)
        ensures
            r@ == self.path_spec() + slash_up_sql(),
    ;

    /// The file run to revert the migration.
    fn down_sql_path(&self) -> (r: String)
        ensures
            r@ == self.path_spec() + slash_down_sql(),
    ;
}

impl Migration for SqlFileMigration {
    closed spec fn version_spec(&self) -> Seq<char> {
        self.version@
    }

    closed spec fn path_spec(&self) -> Seq<char> {
        self.path@
    }

    fn version(&self) -> (r: String) {
        self.version.clone()
    }

    fn up_sql_path(&self) -> (r: String) {
        proof {
            reveal_strlit("/up.sql");
        }
        let r = self.path.clone().concat("/up.sql");
        assert(r@ =~= self.path@ + slash_up_sql());
        r
    }

    fn down_sql_path(&self) -> (r: String) {
        proof {
            reveal_strlit("/down.sql");
        }
        let r = self.path.clone().concat("/down.sql");
        assert(r@ =~= self.path@ + slash_down_sql());
        r
    }
}

/// The settings a migration's `metadata.toml` may give.
pub struct TomlMetadataWrapper {
    run_in_transaction: bool,
}

impl TomlMetadataWrapper {
    pub fn new(run_in_transaction: bool) -> (r: Self)
        ensures
            r.run_in_transaction_spec() == run_in_transaction,
    {
        TomlMetadataWrapper { run_in_transaction }
    }

    pub closed spec fn run_in_transaction_spec(&self) -> bool {
        self.run_in_transaction
    }

    /// Without a metadata file a migration runs inside a transaction.
    pub fn default_metadata() -> (r: Self)
        ensures
            r.run_in_transaction_spec(),
    {
        TomlMetadataWrapper { run_in_transaction: true }
    }

    pub fn run_in_transaction(&self) -> (r: bool)
        ensures
            r == self.run_in_transaction_spec(),
    {
        self.run_in_transaction
    }
}

} // verus!
