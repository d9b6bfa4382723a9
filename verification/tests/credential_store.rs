use voice_changer::db;

#[test]
fn stored_value_is_read_back() {
    let path = "/tmp/voice_changer_credentials_test.sqlite3";
    db::set(path, "elevenlabs_api_key", "first").unwrap();
    db::set(path, "elevenlabs_api_key", "second").unwrap();
    assert_eq!(db::get(path, "elevenlabs_api_key").unwrap(), Some("second".to_string()));
    assert_eq!(db::get(path, "no_such_key").unwrap(), None);
}

#[test]
fn unusable_path_is_an_error() {
    let err = db::set("/nonexistent-dir/for/sure/db.sqlite3", "k", "v").unwrap_err();
    assert!(!err.message().is_empty());
}

#[test]
fn statements_carry_their_parameters_in_order() {
    let create = db::create_table_statement();
    assert_eq!(create.sql, db::CREATE_TABLE_SQL);
    assert!(create.params.is_empty());

    let upsert = db::upsert_statement("elevenlabs_api_key", "secret");
    assert_eq!(upsert.sql, db::UPSERT_SQL);
    assert_eq!(upsert.params, vec!["elevenlabs_api_key".to_string(), "secret".to_string()]);

    let select = db::select_statement("elevenlabs_api_key");
    assert_eq!(select.sql, db::SELECT_SQL);
    assert_eq!(select.params, vec!["elevenlabs_api_key".to_string()]);
}

#[test]
fn database_outcomes_map_to_store_results() {
    assert!(db::write_result(Ok(1)).is_ok());
    assert!(db::write_result(Ok(0)).is_ok());
    let err = db::write_result(Err(rusqlite::Error::QueryReturnedNoRows)).unwrap_err();
    assert!(!err.message().is_empty());

    assert_eq!(db::lookup_result(Ok(Some("v".to_string()))).unwrap(), Some("v".to_string()));
    assert_eq!(db::lookup_result(Ok(None)).unwrap(), None);
    assert!(db::lookup_result(Err(rusqlite::Error::InvalidQuery)).is_err());
}
