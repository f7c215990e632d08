//! The round trip through the echo service: the value sent, and the value
//! read back from its reply.

use crate::schema::CreateGeneratedValueSchema;
use rand::Rng;
use vstd::prelude::*;

verus! {

#[verifier::external_type_specification]
#[verifier::external_body]
pub struct ExThreadRng(rand::rngs::ThreadRng);

/// Calls `rand::thread_rng`, the thread's random number generator. Nothing is
/// claimed of it.
#[verifier::external_body]
fn thread_rng() -> rand::rngs::ThreadRng {
    rand::thread_rng()
}

/// Calls `rand::Rng::gen_range` with the range `low..high`. Claimed, as its
/// documentation says: the value lies in the range. Which value comes back is
/// chance. It panics on an empty range, which `requires` leaves out.
#[verifier::external_body]
fn gen_range(rng: &mut rand::rngs::ThreadRng, low: i8, high: i8) -> (value: i8)
    requires
        low < high,
    ensures
        low <= value < high,
{
    rng.gen_range(low..high)
}

/// The integer that a JSON text holds under the key `inner` of the object
/// under the key `outer` of its top-level object, as `serde_json` reads it:
/// `None` when the text is not JSON, either key is missing, or the member is
/// not an integer that fits in an `i64`.
pub uninterp spec fn json_integer_member(text: Seq<char>, outer: Seq<char>, inner: Seq<char>) -> Option<i64>;

/// Parses `text` with `serde_json::from_str` into a `serde_json::Value`, then
/// reads `Value::get(outer)`, `Value::get(inner)` and `Value::as_i64`. Claimed:
/// the result depends on the three texts alone (it is named
/// `json_integer_member`); what serde_json accepts as JSON is not restated.
#[verifier::external_body]
fn json_integer_at(text: &str, outer: &str, inner: &str) -> (member: Option<i64>)
    ensures
        member == json_integer_member(text@, outer@, inner@),
{
    let document: serde_json::Value = serde_json::from_str(text).ok()?;
    document.get(outer)?.get(inner)?.as_i64()
}

/// How many values one run sends to the echo service.
pub const ECHO_ROUNDS: usize = 30;

/// Where the echo service listens.
pub fn echo_service_url() -> (url: &'static str)
    ensures
        url@ == "https://httpbin.org/post"@,
{
    "https://httpbin.org/post"
}

/// The request sent to the echo service: a value in `0..10`.
pub struct EchoRequest {
    pub value: i8,
}

/// A new echo request, with a random value from `0` up to `9`.
pub fn new_echo_request() -> (request: EchoRequest)
    ensures
        0 <= request.value < 10,
{
    let mut rng = thread_rng();
    EchoRequest { value: gen_range(&mut rng, 0, 10) }
}

/// The value kept from what the echo service echoed: the integer cut down to
/// its low eight bits, as a two's-complement `i8` (a Rust `as` conversion).
pub open spec fn kept_value(echoed: Option<i64>) -> Option<i8> {
    match echoed {
        Some(n) => Some(n as i8),
        None => None,
    }
}

/// The value kept from the integer that the echo service returned, if any.
pub fn echoed_value(echoed: Option<i64>) -> (kept: Option<i8>)
    ensures
        kept == kept_value(echoed),
        echoed is None ==> kept is None,
        echoed matches Some(n) ==> (kept matches Some(v) && (v as i64) & 0xff == n & 0xff),
        echoed matches Some(n) ==> (-128 <= n < 128 ==> (kept matches Some(v) && v == n)),
{
    proof {
        if let Some(n) = echoed {
            lemma_echoed_integer_is_kept(n);
        }
    }
    match echoed {
        Some(n) => Some(n as i8),
        None => None,
    }
}

/// Every integer the echo service gives back is kept, never dropped: the
/// kept value has the same low eight bits as the integer, and an integer that
/// fits in an `i8` (such as every value `0..10` a run sends) is kept as it is.
/// Nothing is kept when nothing was echoed.
pub proof fn lemma_echoed_integer_is_kept(n: i64)
    ensures
        kept_value(Some(n)) is Some,
        (kept_value(Some(n)).unwrap() as i64) & 0xff == n & 0xff,
        -128 <= n < 128 ==> kept_value(Some(n)).unwrap() == n,
        kept_value(None) is None,
{
    let v = kept_value(Some(n)).unwrap();
    assert(v == n as i8);
    assert((v as i64) & 0xff == n & 0xff) by (bit_vector)
        requires
            v == n as i8,
    ;
    if -128 <= n < 128 {
        assert(v == n) by (bit_vector)
            requires
                v == n as i8,
                -128 <= n < 128,
        ;
    }
}

/// The value read back from the text of the echo service's reply: the
/// integer at `json.value`, converted as `kept_value` says.
pub fn parse_echo_reply(reply_text: &str) -> (kept: Option<i8>)
    ensures
        kept == kept_value(json_integer_member(reply_text@, "json"@, "value"@)),
{
    echoed_value(json_integer_at(reply_text, "json", "value"))
}

/// The record stored for a value read back from the echo service.
pub fn record_for_echoed(value: i8) -> (record: CreateGeneratedValueSchema)
    ensures
        record.num == Some(value),
{
    CreateGeneratedValueSchema { num: Some(value) }
}

} // verus!
