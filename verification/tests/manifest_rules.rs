use jwctl::{
    credential_kind, display_key, manifest_display_keys, resolve_manifest_key,
    root_type_from_choice, valid_name, validate_manifest_entries, CredentialKind,
    ManifestListError, MysqlConfig, PostgresqlConfig, RootType,
};

#[test]
fn names_allow_alphanumerics_underscores_and_dashes() {
    assert!(valid_name("prod_db-1"));
    assert!(valid_name("A"));
    assert!(valid_name("0-9_z"));
}

#[test]
fn names_reject_empty_and_foreign_characters() {
    assert!(!valid_name(""));
    assert!(!valid_name("has space"));
    assert!(!valid_name("semi;colon"));
    assert!(!valid_name("acc\u{e9}nt"));
    assert!(!valid_name("dot.name"));
}

#[test]
fn root_type_follows_the_wizard_choice() {
    assert_eq!(root_type_from_choice("PostgreSQL"), Some(RootType::Postgresql));
    assert_eq!(root_type_from_choice("MySQL"), Some(RootType::Mysql));
    assert_eq!(root_type_from_choice("Oracle"), None);
    assert_eq!(root_type_from_choice("postgresql"), None);
}

#[test]
fn postgresql_assembly_records_every_answer() {
    let c = PostgresqlConfig::assemble(
        "db.example".to_string(),
        "appdb".to_string(),
        5432,
        true,
        Some("public".to_string()),
    );
    assert_eq!(c.type_field, RootType::Postgresql);
    assert_eq!(c.hostname, "db.example");
    assert_eq!(c.database, "appdb");
    assert_eq!(c.port, Some(5432));
    assert_eq!(c.ssl, Some(true));
    assert_eq!(c.schema, Some("public".to_string()));
}

#[test]
fn postgresql_assembly_drops_an_empty_schema() {
    let c = PostgresqlConfig::assemble(
        "h".to_string(),
        "d".to_string(),
        5432,
        false,
        Some(String::new()),
    );
    assert_eq!(c.schema, None);
    let c = PostgresqlConfig::assemble("h".to_string(), "d".to_string(), 5432, false, None);
    assert_eq!(c.schema, None);
}

#[test]
fn mysql_assembly_records_every_answer() {
    let c = MysqlConfig::assemble("db.example".to_string(), "appdb".to_string(), 3306, false);
    assert_eq!(c.type_field, RootType::Mysql);
    assert_eq!(c.hostname, "db.example");
    assert_eq!(c.database, "appdb");
    assert_eq!(c.port, Some(3306));
    assert_eq!(c.ssl, Some(false));
}

#[test]
fn credentials_kind_prefers_vault() {
    assert_eq!(credential_kind(true, RootType::Postgresql), CredentialKind::Vault);
    assert_eq!(credential_kind(true, RootType::Mysql), CredentialKind::Vault);
    assert_eq!(credential_kind(false, RootType::Postgresql), CredentialKind::Postgresql);
    assert_eq!(credential_kind(false, RootType::Mysql), CredentialKind::Mysql);
}

#[test]
fn display_keys_show_name_and_identifier() {
    assert_eq!(display_key("id-1", "Orders"), "Orders (id-1)");
    let entries = vec![
        ("id-1".to_string(), "Orders".to_string()),
        ("id-2".to_string(), "Users".to_string()),
    ];
    assert_eq!(
        manifest_display_keys(&entries),
        vec!["Orders (id-1)".to_string(), "Users (id-2)".to_string()]
    );
}

#[test]
fn chosen_display_key_resolves_to_its_identifier() {
    let entries = vec![
        ("id-1".to_string(), "Orders".to_string()),
        ("id-2".to_string(), "Users".to_string()),
    ];
    assert_eq!(
        resolve_manifest_key(&entries, &"Users (id-2)".to_string()),
        Some("id-2".to_string())
    );
    assert_eq!(resolve_manifest_key(&entries, &"Nobody (id-9)".to_string()), None);
}

#[test]
fn duplicate_display_keys_resolve_to_the_first() {
    let entries = vec![
        ("id-1".to_string(), "Same".to_string()),
        ("id-1".to_string(), "Same".to_string()),
    ];
    assert_eq!(
        resolve_manifest_key(&entries, &"Same (id-1)".to_string()),
        Some("id-1".to_string())
    );
}

#[test]
fn listed_entries_with_id_and_name_pass_through() {
    let raw = vec![
        (Some("id-1".to_string()), Some("Orders".to_string())),
        (Some("id-2".to_string()), Some("Users".to_string())),
    ];
    let ok = validate_manifest_entries(raw).unwrap();
    assert_eq!(
        ok,
        vec![
            ("id-1".to_string(), "Orders".to_string()),
            ("id-2".to_string(), "Users".to_string()),
        ]
    );
}

#[test]
fn a_listed_entry_without_id_is_rejected_first() {
    let raw = vec![
        (Some("id-1".to_string()), Some("Orders".to_string())),
        (None, None),
    ];
    assert_eq!(
        validate_manifest_entries(raw).unwrap_err(),
        ManifestListError::MissingId
    );
}

#[test]
fn a_listed_entry_without_name_is_rejected() {
    let raw = vec![(Some("id-1".to_string()), None)];
    assert_eq!(
        validate_manifest_entries(raw).unwrap_err(),
        ManifestListError::MissingName
    );
}
