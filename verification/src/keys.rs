//! The names under which the store keeps the queue, the settled records and
//! the counters of each service.

use crate::gateway::{service_name, Service};
use vstd::arithmetic::power::pow;
use vstd::prelude::*;
use vstd::string::StringExecFns;

verus! {

/// The list that holds the entries awaiting dispatch.
pub const QUEUE_KEY: &'static str = "payments_queue";

/// The field, inside a service's hash, that counts its settled payments.
pub const REQUESTS_FIELD: &'static str = "total_requests";

/// The lower-case hexadecimal digit for a value below 16.
pub open spec fn hex_digit(nibble: int) -> char {
    seq!['0', '1', '2', '3', '4', '5', '6', '7', '8', '9', 'a', 'b', 'c', 'd', 'e', 'f'][nibble]
}

/// The `k`-th group of four bits of `id`, counted from the most significant.
pub open spec fn nibble(id: u128, k: int) -> int {
    (id as int / pow(16, (31 - k) as nat)) % 16
}

/// How many hyphens stand before position `i` of a hyphenated identifier.
pub open spec fn hyphens_before(i: int) -> int {
    if i < 8 {
        0
    } else if i < 13 {
        1
    } else if i < 18 {
        2
    } else if i < 23 {
        3
    } else {
        4
    }
}

/// The character at position `i` of the hyphenated form of `id`.
pub open spec fn hyphenated_char(id: u128, i: int) -> char {
    if i == 8 || i == 13 || i == 18 || i == 23 {
        '-'
    } else {
        hex_digit(nibble(id, i - hyphens_before(i)))
    }
}

/// The hyphenated form of a correlation id: its 32 hexadecimal digits in
/// lower case, most significant first, in groups of 8, 4, 4, 4 and 12.
pub open spec fn hyphenated_text(id: u128) -> Seq<char> {
    Seq::new(36, |i: int| hyphenated_char(id, i))
}

/// The key of the settled record of the payment with this correlation id.
pub open spec fn record_key_spec(correlation_id: u128) -> Seq<char> {
    "payment:"@ + hyphenated_text(correlation_id)
}

/// The key of the hash that holds a service's request count.
pub open spec fn requests_key_spec(service: Service) -> Seq<char> {
    "summary:service:"@ + service_name(service)
}

/// The key that holds a service's running amount.
pub open spec fn amount_key_spec(service: Service) -> Seq<char> {
    requests_key_spec(service) + ":total_amount"@
}

/// Trusted: `uuid::Uuid::from_u128` followed by the `Display` of
/// `uuid::Uuid::hyphenated`. The contract states the text in full: 36
/// characters, hyphens at positions 8, 13, 18 and 23, and between them the
/// digits of `id`, most significant first, in lower case.
#[verifier::external_body]
fn uuid_hyphenated(id: u128) -> (text: String)
    ensures
        text@ == hyphenated_text(id),
{
    uuid::Uuid::from_u128(id).hyphenated().to_string()
}

/// The key under which the settled record of a payment is kept.
pub fn record_key(correlation_id: u128) -> (key: String)
    ensures
        key@ == record_key_spec(correlation_id),
{
    let id_text = uuid_hyphenated(correlation_id);
    String::from_str("payment:").concat(id_text.as_str())
}

/// The key of the hash in which a service's settled payments are counted.
pub fn requests_key(service: Service) -> (key: String)
    ensures
        key@ == requests_key_spec(service),
{
    String::from_str("summary:service:").concat(service.name())
}

/// The key under which a service's running amount is kept.
pub fn amount_key(service: Service) -> (key: String)
    ensures
        key@ == amount_key_spec(service),
{
    requests_key(service).concat(":total_amount")
}

} // verus!
