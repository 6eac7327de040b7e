use diesel::migration::{
    migration_from, migration_sql, valid_sql_migration_directory, version_from_path,
    FileBasedMigrations, Migration, MigrationError, RunMigrationsError,
};

fn listing(names: &[&str]) -> Option<Vec<String>> {
    Some(names.iter().map(|n| n.to_string()).collect())
}

#[test]
fn files_are_not_valid_sql_file_migrations() {
    // A plain file named "12345" cannot be listed as a directory.
    let entries: Option<Vec<String>> = None;
    assert!(!valid_sql_migration_directory(&entries));
}

#[test]
fn directory_containing_exactly_up_sql_and_down_sql_is_valid_migration_dir() {
    let entries = listing(&["up.sql", "down.sql"]);
    assert!(valid_sql_migration_directory(&entries));
}

#[test]
fn directory_containing_unknown_files_is_not_valid_migration_dir() {
    let entries = listing(&["up.sql", "down.sql", "foo"]);
    assert!(!valid_sql_migration_directory(&entries));
}

#[test]
fn empty_directory_is_not_valid_migration_dir() {
    let entries = listing(&[]);
    assert!(!valid_sql_migration_directory(&entries));
}

#[test]
fn directory_with_only_up_sql_is_not_valid_migration_dir() {
    let entries = listing(&["up.sql"]);
    assert!(!valid_sql_migration_directory(&entries));
}

#[test]
fn directory_with_only_down_sql_is_not_valid_migration_dir() {
    let entries = listing(&["down.sql"]);
    assert!(!valid_sql_migration_directory(&entries));
}

#[test]
fn sql_file_migration_version_is_based_on_folder_name() {
    assert_eq!("12345", version_from_path("12345"));
    let migration = migration_from(
        "migrations/12345".to_string(),
        "12345",
        &listing(&["down.sql", "up.sql"]),
    )
    .ok()
    .unwrap();
    assert_eq!("12345", migration.version());
    assert_eq!("migrations/12345", migration.path());
    assert_eq!("migrations/12345/up.sql", migration.up_sql_path());
    assert_eq!("migrations/12345/down.sql", migration.down_sql_path());
}

#[test]
fn sql_file_migration_version_allows_additional_naming() {
    assert_eq!("54321", version_from_path("54321_create_stuff"));
}

#[test]
fn version_of_a_name_starting_with_underscore_is_empty() {
    assert_eq!("", version_from_path("_create_stuff"));
    assert_eq!("1", version_from_path("1_2_3"));
}

#[test]
fn migration_from_an_invalid_directory_names_the_path() {
    match migration_from("migrations/999".to_string(), "999", &listing(&["up.sql"])) {
        Err(MigrationError::UnknownMigrationFormat(p)) => assert_eq!("migrations/999", p),
        _ => panic!("expected an unknown migration format"),
    }
}

#[test]
fn empty_migration_file_is_an_error() {
    match migration_sql("12345", String::new()) {
        Err(RunMigrationsError::EmptyMigration(v)) => assert_eq!("12345", v),
        _ => panic!("expected an empty migration error"),
    }
    assert_eq!(
        "CREATE TABLE t (id INTEGER)",
        migration_sql("12345", "CREATE TABLE t (id INTEGER)".to_string()).ok().unwrap()
    );
}

#[test]
fn migrations_directory_with_an_invalid_migration_is_refused() {
    let dirs = vec![
        ("m/1_a".to_string(), listing(&["up.sql", "down.sql"])),
        ("m/2_b".to_string(), listing(&["up.sql"])),
    ];
    match FileBasedMigrations::from_path("m", &dirs) {
        Err(MigrationError::UnknownMigrationFormat(p)) => assert_eq!("m/2_b", p),
        _ => panic!("expected the second directory to be refused"),
    }
    let good = vec![("m/1_a".to_string(), listing(&["up.sql", "down.sql"]))];
    let found = FileBasedMigrations::from_path("m", &good).ok().unwrap();
    assert_eq!("m", found.path());
}

#[test]
fn missing_migrations_directory_names_the_search_start() {
    match FileBasedMigrations::find_migrations_directory_in_path("/tmp/project", None, &vec![]) {
        Err(MigrationError::MigrationDirectoryNotFound(p)) => assert_eq!("/tmp/project", p),
        _ => panic!("expected directory not found"),
    }
    let found = FileBasedMigrations::find_migrations_directory_in_path(
        "/tmp/project/src",
        Some("/tmp/project/migrations".to_string()),
        &vec![],
    )
    .ok()
    .unwrap();
    assert_eq!("/tmp/project/migrations", found.path());
}

#[test]
fn migrations_run_in_a_transaction_by_default() {
    assert!(diesel::migration::TomlMetadataWrapper::default_metadata().run_in_transaction());
    assert!(!diesel::migration::TomlMetadataWrapper::new(false).run_in_transaction());
}

#[test]
fn the_first_invalid_migration_is_reported() {
    let dirs = vec![
        ("m/1_a".to_string(), listing(&["up.sql", "down.sql"])),
        ("m/2_b".to_string(), None),
        ("m/3_c".to_string(), listing(&["up.sql"])),
    ];
    match FileBasedMigrations::find_migrations_directory_in_path("m/src", Some("m".to_string()), &dirs) {
        Err(MigrationError::UnknownMigrationFormat(p)) => assert_eq!("m/2_b", p),
        _ => panic!("expected the second directory to be reported"),
    }
}
