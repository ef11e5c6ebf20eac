//! The lookup handler's decision core: given the store and the identifier
//! extracted from the request path, it fixes the status code, the exact
//! response body, and the log lines. The HTTP transport around it only
//! forwards the path segment in and writes the pair out.

use vstd::prelude::*;
use vstd::string::*;
use crate::json::{order_json, render_order};
use crate::store::OrderStore;

verus! {

/// HTTP status of a successful lookup.
pub const STATUS_OK: u16 = 200;

/// HTTP status of a lookup whose identifier is absent.
pub const STATUS_NOT_FOUND: u16 = 404;

/// The fixed body of a miss response.
pub open spec fn not_found_body() -> Seq<char> {
    "{\"error\":\"Order not found\"}"@
}

/// Answers one lookup: on a hit, status 200 and the order's exact JSON
/// object; on a miss, status 404 and the fixed error body. Absence is a
/// normal outcome, never an internal failure.
pub fn lookup_response(store: &OrderStore, uid: &str) -> (res: (u16, String))
    requires
        store.well_formed(),
    ensures
        store@.contains_key(uid@) ==> res.0 == STATUS_OK && res.1@ == order_json(store@[uid@]),
        !store@.contains_key(uid@) ==> res.0 == STATUS_NOT_FOUND && res.1@ == not_found_body(),
{
    match store.get(uid) {
        Some(order) => (STATUS_OK, render_order(&order)),
        None => (STATUS_NOT_FOUND, String::from_str("{\"error\":\"Order not found\"}")),
    }
}

/// The informational line logged for every request received.
pub fn request_log_line(uid: &str) -> (res: String)
    ensures
        res@ == "An order request with a UID was received: "@ + uid@,
{
    let mut out = String::from_str("An order request with a UID was received: ");
    out.append(uid);
    out
}

/// The additional informational line logged on a miss.
pub fn miss_log_line(uid: &str) -> (res: String)
    ensures
        res@ == "Order with UID: "@ + uid@ + " not found"@,
{
    let mut out = String::from_str("Order with UID: ");
    out.append(uid);
    out.append(" not found");
    out
}

} // verus!

