//! What each route of the service answers, given what the database and the
//! echo service returned. The HTTP layer performs the calls and writes the
//! replies; every decision between them is made here.

use crate::model::{filter_db_record, shown, GeneratedValueModel, GeneratedValueModelResponse};
use crate::repeated::{find_repeated_values, is_repeated_report};
use crate::reply::{is_consistent, message_reply, Body, BodyView, Outcome, RecordKey, Reply, ReplyView, Status};
use crate::schema::UpdateGeneratedValueSchema;
use crate::text::{contains_text, debug_quoted, debug_rendering, has_substring, join_three, join_two};
use vstd::prelude::*;

verus! {

/// What the service reads of a failed database call: whether no row matched,
/// and the error's `Debug` and `Display` texts.
#[derive(Debug, Clone)]
pub struct DbError {
    pub row_not_found: bool,
    pub debug_text: String,
    pub display_text: String,
}

/// A failed database call, as the specifications see it.
pub struct DbErrorView {
    pub row_not_found: bool,
    pub debug_text: Seq<char>,
    pub display_text: Seq<char>,
}

impl View for DbError {
    type V = DbErrorView;

    open spec fn view(&self) -> DbErrorView {
        DbErrorView {
            row_not_found: self.row_not_found,
            debug_text: self.debug_text@,
            display_text: self.display_text@,
        }
    }
}

/// The message for a record that was looked up and not found.
pub open spec fn not_found_text(id: Seq<char>) -> Seq<char> {
    "Generated Value with ID: "@ + id + " not found"@
}

/// The message for a record that an update did not reach.
pub open spec fn not_updated_text(id: Seq<char>) -> Seq<char> {
    "Generated value with ID: "@ + id + " not found"@
}

/// The answer to a request for a missing record names the record: its
/// identifier occurs in the message.
pub proof fn lemma_missing_record_message_names_id(id: Seq<char>)
    ensures
        has_substring(not_found_text(id), id),
        has_substring(not_updated_text(id), id),
{
    let found_prefix = "Generated Value with ID: "@;
    let updated_prefix = "Generated value with ID: "@;
    let i = found_prefix.len() as int;
    let j = updated_prefix.len() as int;
    assert(not_found_text(id).subrange(i, i + id.len()) =~= id);
    assert(not_updated_text(id).subrange(j, j + id.len()) =~= id);
}

/// A reply shows `stored` under `key`: a success whose record has the row's
/// identifier and the row's value.
pub open spec fn shows_stored(reply: ReplyView, key: RecordKey, stored: crate::model::StoredValue) -> bool {
    &&& reply.status == Status::Success
    &&& reply.body matches BodyView::Record { key: shown_key, record }
    &&& shown_key == key
    &&& record.id == stored.id
    &&& Some(record.num) == stored.num
}

/// A record reply carries the row it is given unchanged, whatever the key
/// and whatever the value (negative, zero or above nine alike): its record has
/// the row's identifier and the row's value.
pub proof fn lemma_record_reply_shows_stored(key: RecordKey, stored: crate::model::StoredValue)
    requires
        stored.num is Some,
    ensures
        shows_stored(record_reply(key, shown(stored)), key, stored),
{
    crate::model::lemma_shown_value_is_stored_value(stored);
}

/// The message for a failed update or delete.
pub open spec fn internal_error_text(display: Seq<char>) -> Seq<char> {
    "Internal server error: "@ + display
}

/// A successful reply that shows one record under `key`.
pub open spec fn record_reply(key: RecordKey, record: crate::model::ShownValue) -> ReplyView {
    ReplyView { status: Status::Success, body: BodyView::Record { key, record } }
}

/// The reply to a failed insert: a duplicate key is the client's fault, any
/// other failure is reported with the `Debug` rendering of the error's text.
pub open spec fn insert_failure_reply(display: Seq<char>) -> ReplyView {
    if has_substring(display, "Duplicate entry"@) {
        message_reply(
            Status::BadRequest,
            Outcome::Fail,
            "Generated value with that id already exists"@,
        )
    } else {
        message_reply(Status::InternalServerError, Outcome::Error, debug_rendering(display))
    }
}

/// The reply to a lookup of `id` that failed.
pub open spec fn lookup_failure_reply(id: Seq<char>, error: DbErrorView) -> ReplyView {
    if error.row_not_found {
        message_reply(Status::NotFound, Outcome::Fail, not_found_text(id))
    } else {
        message_reply(Status::InternalServerError, Outcome::Error, error.debug_text)
    }
}

/// The reply to a read of a record that failed for any reason.
pub open spec fn read_failure_reply(error: DbErrorView) -> ReplyView {
    message_reply(Status::InternalServerError, Outcome::Error, error.debug_text)
}

fn message(status: Status, outcome: Outcome, text: String) -> (reply: Reply)
    ensures
        reply@ == message_reply(status, outcome, text@),
{
    Reply { status, body: Body::Message { outcome, message: text } }
}

fn record(key: RecordKey, stored: &GeneratedValueModel) -> (reply: Reply)
    requires
        stored.num is Some,
    ensures
        reply@ == record_reply(key, shown(stored@)),
        shows_stored(reply@, key, stored@),
{
    proof {
        lemma_record_reply_shows_stored(key, stored@);
    }
    Reply { status: Status::Success, body: Body::Record { key, record: filter_db_record(stored) } }
}

/// `GET /api/healthchecker`: the service is alive.
pub fn health_checker_reply() -> (reply: Reply)
    ensures
        reply@ == message_reply(Status::Success, Outcome::Success, "adi-server still alive"@),
        is_consistent(reply@),
{
    message(Status::Success, Outcome::Success, String::from_str("adi-server still alive"))
}

/// `POST /api/run`, once the values read back from the echo service are
/// gathered: all of them, and those that came back more than once.
pub fn execute_value_reply(values: Vec<i8>) -> (reply: Reply)
    ensures
        reply@.status == Status::Success,
        reply@.body matches BodyView::RunReport { output_values, repeated_values }
            && output_values == values@ && is_repeated_report(values@, repeated_values),
        is_consistent(reply@),
{
    let repeated_values = find_repeated_values(values.as_slice());
    Reply {
        status: Status::Success,
        body: Body::RunReport { output_values: values, repeated_values },
    }
}

/// `POST /api/generated-value/`, after the insert: nothing yet if it
/// succeeded, else the reply to the failure.
pub fn create_insert_reply(inserted: &Result<(), DbError>) -> (reply: Option<Reply>)
    ensures
        match inserted {
            Ok(_) => reply is None,
            Err(error) => reply matches Some(r) && r@ == insert_failure_reply(error@.display_text),
        },
        reply matches Some(r) ==> is_consistent(r@),
{
    match inserted {
        Ok(_) => None,
        Err(error) => {
            if contains_text(error.display_text.as_str(), "Duplicate entry") {
                Some(
                    message(
                        Status::BadRequest,
                        Outcome::Fail,
                        String::from_str("Generated value with that id already exists"),
                    ),
                )
            } else {
                Some(
                    message(
                        Status::InternalServerError,
                        Outcome::Error,
                        debug_quoted(error.display_text.as_str()),
                    ),
                )
            }
        },
    }
}

/// `POST /api/generated-value/`, after reading the new record back. A record
/// that was read must hold a value.
pub fn created_value_reply(fetched: &Result<GeneratedValueModel, DbError>) -> (reply: Reply)
    requires
        fetched matches Ok(stored) ==> stored.num is Some,
    ensures
        reply@ == match fetched {
            Ok(stored) => record_reply(RecordKey::GeneratedValue, shown(stored@)),
            Err(error) => read_failure_reply(error@),
        },
        fetched matches Ok(stored) ==> shows_stored(reply@, RecordKey::GeneratedValue, stored@),
        is_consistent(reply@),
{
    match fetched {
        Ok(stored) => record(RecordKey::GeneratedValue, stored),
        Err(error) => message(Status::InternalServerError, Outcome::Error, error.debug_text.clone()),
    }
}

/// `GET /api/generated-values`: every record, and how many there are. Every
/// record must hold a value.
pub fn generated_values_reply(records: &Vec<GeneratedValueModel>) -> (reply: Reply)
    requires
        forall|i: int| 0 <= i < records.len() ==> (#[trigger] records@[i]).num is Some,
    ensures
        reply@ == (ReplyView {
            status: Status::Success,
            body: BodyView::RecordList {
                results: records.len() as nat,
                records: records@.map_values(|stored: GeneratedValueModel| shown(stored@)),
            },
        }),
        reply@.body matches BodyView::RecordList { results, records: shown_records } && results
            == records.len() && shown_records.len() == records.len() && forall|i: int|
            0 <= i < records.len() ==> (#[trigger] shown_records[i]).id == records@[i].id@ && Some(
                shown_records[i].num,
            ) == records@[i].num,
        is_consistent(reply@),
{
    let mut shown_values: Vec<GeneratedValueModelResponse> = Vec::new();
    let mut i: usize = 0;
    while i < records.len()
        invariant
            i <= records.len(),
            forall|k: int| 0 <= k < records.len() ==> (#[trigger] records@[k]).num is Some,
            shown_values.len() == i,
            forall|k: int| 0 <= k < i ==> (#[trigger] shown_values@[k])@ == shown(records@[k]@),
        decreases records.len() - i,
    {
        shown_values.push(filter_db_record(&records[i]));
        i = i + 1;
    }
    let results = shown_values.len();
    assert(shown_values@.map_values(|r: GeneratedValueModelResponse| r@) =~= records@.map_values(
        |stored: GeneratedValueModel| shown(stored@),
    ));
    let reply = Reply { status: Status::Success, body: Body::RecordList { results, records: shown_values } };
    proof {
        let shown_records = records@.map_values(|stored: GeneratedValueModel| shown(stored@));
        assert forall|i: int| 0 <= i < records.len() implies (#[trigger] shown_records[i]).id
            == records@[i].id@ && Some(shown_records[i].num) == records@[i].num by {
            crate::model::lemma_shown_value_is_stored_value(records@[i]@);
        }
    }
    reply
}

/// `GET /api/generated-value/{id}`, after looking the record up. A record
/// that was found must hold a value.
pub fn get_generated_value_reply(id: &str, fetched: &Result<GeneratedValueModel, DbError>) -> (reply: Reply)
    requires
        fetched matches Ok(stored) ==> stored.num is Some,
    ensures
        reply@ == match fetched {
            Ok(stored) => record_reply(RecordKey::GeneratedValue, shown(stored@)),
            Err(error) => lookup_failure_reply(id@, error@),
        },
        fetched matches Ok(stored) ==> shows_stored(reply@, RecordKey::GeneratedValue, stored@),
        is_consistent(reply@),
{
    match fetched {
        Ok(stored) => record(RecordKey::GeneratedValue, stored),
        Err(error) => lookup_failure(id, error),
    }
}

fn lookup_failure(id: &str, error: &DbError) -> (reply: Reply)
    ensures
        reply@ == lookup_failure_reply(id@, error@),
{
    if error.row_not_found {
        message(Status::NotFound, Outcome::Fail, join_three("Generated Value with ID: ", id, " not found"))
    } else {
        message(Status::InternalServerError, Outcome::Error, error.debug_text.clone())
    }
}

/// The next step of `PATCH /api/generated-value/{id}`.
#[derive(Debug, Clone)]
pub enum EditStep {
    /// Stop and send this reply.
    Respond { reply: Reply },
    /// Set the record's value to `num`.
    Update { num: i8 },
}

/// `PATCH /api/generated-value/{id}`, after looking the record up: stop with
/// the reply to a failed lookup, or go on to store the requested value. A
/// record that was found can only be changed to a value that is present.
pub fn edit_lookup_step(
    id: &str,
    body: &UpdateGeneratedValueSchema,
    looked_up: &Result<GeneratedValueModel, DbError>,
) -> (step: EditStep)
    requires
        looked_up is Ok ==> body.num is Some,
    ensures
        match looked_up {
            Ok(_) => step matches EditStep::Update { num } && body.num == Some(num),
            Err(error) => step matches EditStep::Respond { reply } && reply@ == lookup_failure_reply(
                id@,
                error@,
            ) && is_consistent(reply@),
        },
{
    match looked_up {
        Ok(_) => EditStep::Update { num: body.num.unwrap() },
        Err(error) => EditStep::Respond { reply: lookup_failure(id, error) },
    }
}

/// `PATCH /api/generated-value/{id}`, after the update, given how many rows
/// it changed: stop if none or if it failed, else go on (`None`) to read the
/// record back.
pub fn edit_update_step(id: &str, updated: &Result<u64, DbError>) -> (reply: Option<Reply>)
    ensures
        match updated {
            Ok(rows) => if *rows == 0 {
                reply matches Some(r) && r@ == message_reply(
                    Status::NotFound,
                    Outcome::Fail,
                    not_updated_text(id@),
                )
            } else {
                reply is None
            },
            Err(error) => reply matches Some(r) && r@ == message_reply(
                Status::InternalServerError,
                Outcome::Error,
                internal_error_text(error@.display_text),
            ),
        },
        reply matches Some(r) ==> is_consistent(r@),
{
    match updated {
        Ok(rows) => {
            if *rows == 0 {
                Some(
                    message(
                        Status::NotFound,
                        Outcome::Fail,
                        join_three("Generated value with ID: ", id, " not found"),
                    ),
                )
            } else {
                None
            }
        },
        Err(error) => Some(
            message(
                Status::InternalServerError,
                Outcome::Error,
                join_two("Internal server error: ", error.display_text.as_str()),
            ),
        ),
    }
}

/// `PATCH /api/generated-value/{id}`, after reading the changed record back.
/// A record that was read must hold a value.
pub fn edited_value_reply(fetched: &Result<GeneratedValueModel, DbError>) -> (reply: Reply)
    requires
        fetched matches Ok(stored) ==> stored.num is Some,
    ensures
        reply@ == match fetched {
            Ok(stored) => record_reply(RecordKey::ChangedValue, shown(stored@)),
            Err(error) => read_failure_reply(error@),
        },
        fetched matches Ok(stored) ==> shows_stored(reply@, RecordKey::ChangedValue, stored@),
        is_consistent(reply@),
{
    match fetched {
        Ok(stored) => record(RecordKey::ChangedValue, stored),
        Err(error) => message(Status::InternalServerError, Outcome::Error, error.debug_text.clone()),
    }
}

/// `DELETE /api/generated-value/{id}`, given how many rows the delete
/// removed.
pub fn delete_generated_value_reply(id: &str, deleted: &Result<u64, DbError>) -> (reply: Reply)
    ensures
        reply@ == match deleted {
            Ok(rows) => if *rows == 0 {
                message_reply(Status::NotFound, Outcome::Fail, not_found_text(id@))
            } else {
                ReplyView { status: Status::NoContent, body: BodyView::Empty }
            },
            Err(error) => message_reply(
                Status::InternalServerError,
                Outcome::Error,
                internal_error_text(error@.display_text),
            ),
        },
        is_consistent(reply@),
{
    match deleted {
        Ok(rows) => {
            if *rows == 0 {
                message(Status::NotFound, Outcome::Fail, join_three("Generated Value with ID: ", id, " not found"))
            } else {
                Reply { status: Status::NoContent, body: Body::Empty }
            }
        },
        Err(error) => message(
            Status::InternalServerError,
            Outcome::Error,
            join_two("Internal server error: ", error.display_text.as_str()),
        ),
    }
}

/// `DELETE /api/remove-generated-values`: no content, whatever the delete did.
pub fn remove_all_generated_values_reply() -> (reply: Reply)
    ensures
        reply@ == (ReplyView { status: Status::NoContent, body: BodyView::Empty }),
        is_consistent(reply@),
{
    Reply { status: Status::NoContent, body: Body::Empty }
}

/// `POST /api/create-user`: success, whatever the insert did.
pub fn store_user_reply() -> (reply: Reply)
    ensures
        reply@ == (ReplyView {
            status: Status::Success,
            body: BodyView::Outcome { outcome: Outcome::Success },
        }),
        is_consistent(reply@),
{
    Reply { status: Status::Success, body: Body::Outcome { outcome: Outcome::Success } }
}

/// `GET /api/user/{id}`: the fixed value `1`, whatever the lookup did.
pub fn get_user_reply() -> (reply: Reply)
    ensures
        reply@ == (ReplyView { status: Status::Success, body: BodyView::Value { value: 1 } }),
        is_consistent(reply@),
{
    Reply { status: Status::Success, body: Body::Value { value: 1 } }
}

} // verus!
