use adi_server::handler::{
    create_insert_reply, created_value_reply, delete_generated_value_reply, edit_lookup_step,
    edit_update_step, edited_value_reply, execute_value_reply, generated_values_reply,
    get_generated_value_reply, get_user_reply, health_checker_reply,
    remove_all_generated_values_reply, store_user_reply, DbError, EditStep,
};
use adi_server::model::GeneratedValueModel;
use adi_server::reply::{Body, Outcome, RecordKey, Reply, Status};
use adi_server::schema::UpdateGeneratedValueSchema;

fn db_error(row_not_found: bool, debug: &str, display: &str) -> DbError {
    DbError {
        row_not_found,
        debug_text: debug.to_string(),
        display_text: display.to_string(),
    }
}

fn message_of(reply: &Reply) -> (Status, Outcome, String) {
    match &reply.body {
        Body::Message { outcome, message } => (reply.status, *outcome, message.clone()),
        other => panic!("not a message: {:?}", other),
    }
}

const ID: &str = "67e55044-10b1-426f-9247-bb680e5fe0c8";

#[test]
fn health_checker_says_alive() {
    let reply = health_checker_reply();
    assert_eq!(
        message_of(&reply),
        (Status::Success, Outcome::Success, "adi-server still alive".to_string())
    );
    assert_eq!(reply.status.code(), 200);
}

#[test]
fn run_reports_all_and_repeated_values() {
    let reply = execute_value_reply(vec![3, 1, 3, 0, 1]);
    assert_eq!(reply.status, Status::Success);
    match reply.body {
        Body::RunReport { output_values, repeated_values } => {
            assert_eq!(output_values, vec![3, 1, 3, 0, 1]);
            assert_eq!(repeated_values, vec![1, 3]);
        }
        other => panic!("unexpected body {:?}", other),
    }
}

#[test]
fn create_insert_success_goes_on() {
    assert!(create_insert_reply(&Ok(())).is_none());
}

#[test]
fn create_insert_duplicate_is_bad_request() {
    let error = db_error(
        false,
        "Database(MySqlDatabaseError { code: Some(\"23000\") })",
        "error returned from database: 1062 (23000): Duplicate entry 'a' for key 'PRIMARY'",
    );
    let reply = create_insert_reply(&Err(error)).unwrap();
    assert_eq!(
        message_of(&reply),
        (
            Status::BadRequest,
            Outcome::Fail,
            "Generated value with that id already exists".to_string()
        )
    );
    assert_eq!(reply.status.code(), 400);
}

#[test]
fn create_insert_other_failure_quotes_the_error() {
    let error = db_error(false, "PoolTimedOut", "pool timed out while \"waiting\"");
    let reply = create_insert_reply(&Err(error)).unwrap();
    assert_eq!(
        message_of(&reply),
        (
            Status::InternalServerError,
            Outcome::Error,
            "\"pool timed out while \\\"waiting\\\"\"".to_string()
        )
    );
    assert_eq!(reply.status.code(), 500);
}

#[test]
fn created_value_is_shown() {
    let stored = GeneratedValueModel { id: ID.to_string(), num: Some(9) };
    let reply = created_value_reply(&Ok(stored));
    match reply.body {
        Body::Record { key, record } => {
            assert_eq!(key, RecordKey::GeneratedValue);
            assert_eq!(key.text(), "generated_value");
            assert_eq!(record.id, ID);
            assert_eq!(record.num, 9);
        }
        other => panic!("unexpected body {:?}", other),
    }
}

#[test]
fn created_value_read_failure_is_server_error() {
    let reply = created_value_reply(&Err(db_error(true, "RowNotFound", "no rows returned")));
    assert_eq!(
        message_of(&reply),
        (Status::InternalServerError, Outcome::Error, "RowNotFound".to_string())
    );
}

#[test]
fn list_counts_and_shows_records() {
    let records = vec![
        GeneratedValueModel { id: "a".to_string(), num: Some(1) },
        GeneratedValueModel { id: "b".to_string(), num: Some(2) },
    ];
    let reply = generated_values_reply(&records);
    assert_eq!(reply.status, Status::Success);
    match reply.body {
        Body::RecordList { results, records } => {
            assert_eq!(results, 2);
            assert_eq!(records.len(), 2);
            assert_eq!((records[0].id.as_str(), records[0].num), ("a", 1));
            assert_eq!((records[1].id.as_str(), records[1].num), ("b", 2));
        }
        other => panic!("unexpected body {:?}", other),
    }
}

#[test]
fn empty_list_has_no_results() {
    match generated_values_reply(&Vec::new()).body {
        Body::RecordList { results, records } => {
            assert_eq!(results, 0);
            assert!(records.is_empty());
        }
        other => panic!("unexpected body {:?}", other),
    }
}

#[test]
fn get_missing_value_names_the_id() {
    let reply = get_generated_value_reply(ID, &Err(db_error(true, "RowNotFound", "no rows")));
    assert_eq!(
        message_of(&reply),
        (
            Status::NotFound,
            Outcome::Fail,
            format!("Generated Value with ID: {} not found", ID)
        )
    );
    assert_eq!(reply.status.code(), 404);
}

#[test]
fn get_failure_reports_debug_text() {
    let reply = get_generated_value_reply(ID, &Err(db_error(false, "PoolClosed", "closed")));
    assert_eq!(
        message_of(&reply),
        (Status::InternalServerError, Outcome::Error, "PoolClosed".to_string())
    );
}

#[test]
fn get_found_value_is_shown() {
    let stored = GeneratedValueModel { id: ID.to_string(), num: Some(-7) };
    match get_generated_value_reply(ID, &Ok(stored)).body {
        Body::Record { key, record } => {
            assert_eq!(key, RecordKey::GeneratedValue);
            assert_eq!(record.num, -7);
        }
        other => panic!("unexpected body {:?}", other),
    }
}

#[test]
fn edit_found_value_goes_on_to_update() {
    let stored = GeneratedValueModel { id: ID.to_string(), num: Some(1) };
    match edit_lookup_step(ID, &UpdateGeneratedValueSchema { num: Some(8) }, &Ok(stored)) {
        EditStep::Update { num } => assert_eq!(num, 8),
        other => panic!("unexpected step {:?}", other),
    }
}

#[test]
fn edit_missing_value_stops() {
    let step = edit_lookup_step(
        ID,
        &UpdateGeneratedValueSchema { num: None },
        &Err(db_error(true, "RowNotFound", "no rows")),
    );
    match step {
        EditStep::Respond { reply } => assert_eq!(
            message_of(&reply),
            (
                Status::NotFound,
                Outcome::Fail,
                format!("Generated Value with ID: {} not found", ID)
            )
        ),
        other => panic!("unexpected step {:?}", other),
    }
}

#[test]
fn edit_update_outcomes() {
    assert!(edit_update_step(ID, &Ok(1)).is_none());
    let none_changed = edit_update_step(ID, &Ok(0)).unwrap();
    assert_eq!(
        message_of(&none_changed),
        (
            Status::NotFound,
            Outcome::Fail,
            format!("Generated value with ID: {} not found", ID)
        )
    );
    let failed = edit_update_step(ID, &Err(db_error(false, "Io(..)", "io failure"))).unwrap();
    assert_eq!(
        message_of(&failed),
        (
            Status::InternalServerError,
            Outcome::Error,
            "Internal server error: io failure".to_string()
        )
    );
}

#[test]
fn edited_value_uses_its_own_key() {
    let stored = GeneratedValueModel { id: ID.to_string(), num: Some(8) };
    match edited_value_reply(&Ok(stored)).body {
        Body::Record { key, record } => {
            assert_eq!(key, RecordKey::ChangedValue);
            assert_eq!(key.text(), "Generated Value");
            assert_eq!(record.num, 8);
        }
        other => panic!("unexpected body {:?}", other),
    }
    let failed = edited_value_reply(&Err(db_error(false, "Dbg", "disp")));
    assert_eq!(
        message_of(&failed),
        (Status::InternalServerError, Outcome::Error, "Dbg".to_string())
    );
}

#[test]
fn delete_outcomes() {
    let removed = delete_generated_value_reply(ID, &Ok(1));
    assert_eq!(removed.status, Status::NoContent);
    assert_eq!(removed.status.code(), 204);
    assert!(matches!(removed.body, Body::Empty));
    let missing = delete_generated_value_reply(ID, &Ok(0));
    assert_eq!(
        message_of(&missing),
        (
            Status::NotFound,
            Outcome::Fail,
            format!("Generated Value with ID: {} not found", ID)
        )
    );
    let failed = delete_generated_value_reply(ID, &Err(db_error(false, "Dbg", "gone")));
    assert_eq!(
        message_of(&failed),
        (
            Status::InternalServerError,
            Outcome::Error,
            "Internal server error: gone".to_string()
        )
    );
}

#[test]
fn fixed_replies() {
    let removed = remove_all_generated_values_reply();
    assert_eq!(removed.status, Status::NoContent);
    assert!(matches!(removed.body, Body::Empty));
    let stored = store_user_reply();
    assert_eq!(stored.status, Status::Success);
    assert!(matches!(stored.body, Body::Outcome { outcome: Outcome::Success }));
    assert_eq!(Outcome::Success.text(), "success");
    assert_eq!(Outcome::Fail.text(), "fail");
    assert_eq!(Outcome::Error.text(), "error");
    let user = get_user_reply();
    assert_eq!(user.status, Status::Success);
    assert!(matches!(user.body, Body::Value { value: 1 }));
}
