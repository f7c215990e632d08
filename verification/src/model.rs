//! The records the service keeps in its database and hands back to clients.

use vstd::prelude::*;

verus! {

/// A row of the `generated_values` table: its identifier and the value,
/// which the table allows to be missing.
#[derive(Debug, Clone)]
pub struct GeneratedValueModel {
    pub id: String,
    pub num: Option<i8>,
}

/// A stored generated value, as the specifications see it.
pub struct StoredValue {
    pub id: Seq<char>,
    pub num: Option<i8>,
}

impl View for GeneratedValueModel {
    type V = StoredValue;

    open spec fn view(&self) -> StoredValue {
        StoredValue { id: self.id@, num: self.num }
    }
}

/// A generated value as it is shown to clients: its value is always present.
#[derive(Debug, Clone)]
pub struct GeneratedValueModelResponse {
    pub id: String,
    pub num: i8,
}

/// A generated value shown to clients, as the specifications see it.
pub struct ShownValue {
    pub id: Seq<char>,
    pub num: i8,
}

impl View for GeneratedValueModelResponse {
    type V = ShownValue;

    open spec fn view(&self) -> ShownValue {
        ShownValue { id: self.id@, num: self.num }
    }
}

/// A row of the `users` table.
#[derive(Debug, Clone)]
pub struct UserModel {
    pub id: String,
    pub username: String,
    pub password: String,
}

/// A user as it is shown to clients.
#[derive(Debug, Clone)]
pub struct UserModelResponse {
    pub id: String,
    pub username: String,
    pub password: String,
}

/// A user, as the specifications see it.
pub struct UserRecord {
    pub id: Seq<char>,
    pub username: Seq<char>,
    pub password: Seq<char>,
}

impl View for UserModel {
    type V = UserRecord;

    open spec fn view(&self) -> UserRecord {
        UserRecord { id: self.id@, username: self.username@, password: self.password@ }
    }
}

impl View for UserModelResponse {
    type V = UserRecord;

    open spec fn view(&self) -> UserRecord {
        UserRecord { id: self.id@, username: self.username@, password: self.password@ }
    }
}

/// How a stored value is shown to clients; only defined when the value is present.
pub open spec fn shown(stored: StoredValue) -> ShownValue
    recommends
        stored.num is Some,
{
    ShownValue { id: stored.id, num: stored.num.unwrap() }
}

/// A client is shown a stored value unchanged: the same identifier and, for
/// every value the row holds, that very value.
pub proof fn lemma_shown_value_is_stored_value(stored: StoredValue)
    requires
        stored.num is Some,
    ensures
        shown(stored).id == stored.id,
        Some(shown(stored).num) == stored.num,
{
}

/// The client's view of a stored generated value. The stored value must be
/// present.
pub fn filter_db_record(generated_values: &GeneratedValueModel) -> (shown_value:
    GeneratedValueModelResponse)
    requires
        generated_values.num is Some,
    ensures
        shown_value@ == shown(generated_values@),
        shown_value.id@ == generated_values.id@,
        Some(shown_value.num) == generated_values.num,
{
    GeneratedValueModelResponse { id: generated_values.id.clone(), num: generated_values.num.unwrap() }
}

} // verus!
