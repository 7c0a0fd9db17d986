use slack_app::db::models::{Alert, NewAlert, Timestamp};
use slack_app::db::store::check_rows_affected;
use slack_app::db::{Db, DbError};

fn at(seconds: i128) -> Timestamp {
    Timestamp::from_unix_nanos(seconds * 1_000_000_000)
}

fn new_alert(fingerprint: Option<&str>) -> NewAlert {
    NewAlert {
        text: "Alert".to_owned(),
        resolved: false,
        fingerprint: fingerprint.map(str::to_owned),
        chart_filename: None,
        slack_channel: None,
        slack_ts: None,
        sloth_slo: Some("latency-99".to_owned()),
        sloth_service: None,
        objective_name: None,
        severity: Some("page".to_owned()),
    }
}

#[test]
fn create_assigns_ids_and_stamps() {
    let mut db = Db::new();
    let mut tx = db.start_transaction().unwrap();
    let first = db.alert_create(&mut tx, new_alert(Some("a")), at(10)).unwrap();
    let second = db.alert_create(&mut tx, new_alert(None), at(11)).unwrap();
    let third = db.alert_create(&mut tx, new_alert(None), at(12)).unwrap();
    db.commit(tx).unwrap();

    assert_eq!(first.id, 1);
    assert_eq!(second.id, 2);
    assert_eq!(third.id, 3);
    assert_eq!(first.created_at, at(10));
    assert_eq!(first.updated_at, at(10));
    assert_eq!(first.text, "Alert");
    assert_eq!(first.severity.as_deref(), Some("page"));
    assert_eq!(first.sloth_slo.as_deref(), Some("latency-99"));

    let mut tx = db.start_transaction().unwrap();
    assert_eq!(db.alert_get(&mut tx, 2).unwrap().id, 2);
    assert_eq!(
        db.alert_get_by_fingerprint(&mut tx, "a").unwrap().unwrap().id,
        1
    );
    assert!(db.alert_get_by_fingerprint(&mut tx, "b").unwrap().is_none());
}

#[test]
fn create_refuses_a_second_row_for_a_fingerprint() {
    let db = Db::new();
    let mut tx = db.start_transaction().unwrap();
    db.alert_create(&mut tx, new_alert(Some("a")), at(10)).unwrap();
    let refused = db.alert_create(&mut tx, new_alert(Some("a")), at(11));
    assert!(matches!(refused, Err(DbError::DatabaseError(_))));
    // the id was not used up
    assert_eq!(
        db.alert_create(&mut tx, new_alert(Some("b")), at(12)).unwrap().id,
        2
    );
}

#[test]
fn get_of_unknown_id_is_not_found() {
    let db = Db::new();
    let mut tx = db.start_transaction().unwrap();
    assert!(matches!(db.alert_get(&mut tx, 1), Err(DbError::NotFound)));
}

#[test]
fn update_writes_mutable_fields_only() {
    let mut db = Db::new();
    let mut tx = db.start_transaction().unwrap();
    let row = db.alert_create(&mut tx, new_alert(Some("a")), at(10)).unwrap();
    let change = Alert {
        text: "changed text".to_owned(),
        resolved: true,
        fingerprint: Some("other".to_owned()),
        chart_filename: Some("chart.png".to_owned()),
        slack_channel: Some("C1".to_owned()),
        slack_ts: Some("1.2".to_owned()),
        severity: None,
        created_at: at(99),
        updated_at: at(99),
        ..row
    };
    db.alert_update(&mut tx, &change, at(20)).unwrap();
    db.commit(tx).unwrap();

    let mut tx = db.start_transaction().unwrap();
    let stored = db.alert_get(&mut tx, 1).unwrap();
    assert!(stored.resolved);
    assert_eq!(stored.chart_filename.as_deref(), Some("chart.png"));
    assert_eq!(stored.slack_channel.as_deref(), Some("C1"));
    assert_eq!(stored.slack_ts.as_deref(), Some("1.2"));
    assert_eq!(stored.updated_at, at(20));
    // immutable after creation
    assert_eq!(stored.text, "Alert");
    assert_eq!(stored.fingerprint.as_deref(), Some("a"));
    assert_eq!(stored.severity.as_deref(), Some("page"));
    assert_eq!(stored.created_at, at(10));
}

#[test]
fn update_of_unknown_id_is_not_found() {
    let db = Db::new();
    let mut tx = db.start_transaction().unwrap();
    let row = db.alert_create(&mut tx, new_alert(None), at(10)).unwrap();
    let stranger = Alert { id: 7, ..row };
    assert!(matches!(
        db.alert_update(&mut tx, &stranger, at(20)),
        Err(DbError::NotFound)
    ));
}

#[test]
fn uncommitted_work_is_not_seen() {
    let mut db = Db::new();
    {
        let mut tx = db.start_transaction().unwrap();
        db.alert_create(&mut tx, new_alert(Some("a")), at(10)).unwrap();
        // dropped without commit
    }
    let mut tx = db.start_transaction().unwrap();
    assert!(db.alert_get_by_fingerprint(&mut tx, "a").unwrap().is_none());
    let row = db.alert_create(&mut tx, new_alert(Some("a")), at(10)).unwrap();
    assert_eq!(row.id, 1);
    tx.commit(&mut db).unwrap();

    let mut tx = db.start_transaction().unwrap();
    assert!(db.alert_get_by_fingerprint(&mut tx, "a").unwrap().is_some());
}

#[test]
fn rows_affected_decides_the_outcome_of_an_update() {
    assert!(matches!(check_rows_affected(0), Err(DbError::NotFound)));
    assert!(check_rows_affected(1).is_ok());
    assert!(matches!(
        check_rows_affected(2),
        Err(DbError::InconsistentState)
    ));
    assert!(matches!(
        check_rows_affected(u64::MAX),
        Err(DbError::InconsistentState)
    ));
}

#[test]
fn store_errors_have_names_and_messages() {
    assert_eq!(DbError::NotFound.message(), "entity not found");
    assert_eq!(DbError::NotFound.name(), "not_found");
    assert_eq!(DbError::UnknownError.message(), "unknown database error");
    assert_eq!(DbError::UnknownError.name(), "unknown_error");
    assert_eq!(DbError::InconsistentState.message(), "inconsistent state");
    assert_eq!(DbError::DuplicateRow.message(), "duplicate row error");
    assert_eq!(DbError::DuplicateRow.name(), "duplicate_row");
    assert_eq!(DbError::InvalidToken.message(), "invalid token");
    assert_eq!(DbError::InvalidArguments.message(), "invalid arguments");
    assert_eq!(
        DbError::ForeignKeyConstraintViolation.message(),
        "foreign key constraint violation"
    );
    assert_eq!(
        DbError::ForeignKeyConstraintViolation.name(),
        "foreign_key_constraint_violation"
    );
    let engine = DbError::from_engine(false, "disk I/O error".to_owned());
    assert_eq!(engine.message(), "database error: disk I/O error");
    assert_eq!(engine.name(), "database_error");
    assert!(matches!(
        DbError::from_engine(true, "no rows".to_owned()),
        DbError::NotFound
    ));
}

#[test]
fn unix_timestamp_rounds_towards_the_past() {
    assert_eq!(Timestamp::from_unix_nanos(0).unix_timestamp(), 0);
    assert_eq!(Timestamp::from_unix_nanos(999_999_999).unix_timestamp(), 0);
    assert_eq!(Timestamp::from_unix_nanos(1_000_000_000).unix_timestamp(), 1);
    assert_eq!(Timestamp::from_unix_nanos(-1).unix_timestamp(), -1);
    assert_eq!(
        Timestamp::from_unix_nanos(-1_000_000_000).unix_timestamp(),
        -1
    );
    assert_eq!(
        Timestamp::from_unix_nanos(-1_000_000_001).unix_timestamp(),
        -2
    );
}
