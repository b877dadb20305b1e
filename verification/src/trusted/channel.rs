//! Contracts for the outbound side of a live connection: the `tokio`
//! channel handle that a session's writer drains, the `warp` frame type it
//! carries, and the `uuid` crate that names a session.

use vstd::prelude::*;

verus! {

#[verifier::external_type_specification]
#[verifier::external_body]
#[verifier::reject_recursive_types(T)]
pub struct ExUnboundedSender<T>(tokio::sync::mpsc::UnboundedSender<T>);

#[verifier::external_type_specification]
#[verifier::external_body]
pub struct ExMessage(warp::ws::Message);

#[verifier::external_type_specification]
#[verifier::external_body]
pub struct ExWarpError(warp::Error);

/// The send-only handle of one session's outbound channel.
pub type Outbound = tokio::sync::mpsc::UnboundedSender<Result<warp::ws::Message, warp::Error>>;

/// Whether `c` is one of `0`-`9` or `a`-`f`.
pub open spec fn is_lower_hex(c: char) -> bool {
    ('0' <= c && c <= '9') || ('a' <= c && c <= 'f')
}

/// `UnboundedSender::send` of a text frame made by `Message::text`.
///
/// The call never waits. It reports whether the frame was queued; it is not
/// when the receiving half has been closed or dropped, so nothing is
/// promised about the answer.
#[verifier::external_body]
pub(crate) fn send_text(sender: &Outbound, text: &str) -> (queued: bool) {
    sender.send(Ok(warp::ws::Message::text(text))).is_ok()
}

/// `UnboundedSender::clone`.
///
/// Trusted: the clone is a handle to the same channel, which is all that
/// the value of a handle stands for in this crate.
#[verifier::external_body]
pub(crate) fn clone_sender(sender: &Outbound) -> (copy: Outbound)
    ensures
        copy == *sender,
{
    sender.clone()
}

/// `Uuid::new_v4` in its simple form: a random identifier written as 32
/// lower-case hexadecimal digits without hyphens.
#[verifier::external_body]
pub(crate) fn new_session_id() -> (id: String)
    ensures
        id@.len() == 32,
        forall|i: int| 0 <= i < 32 ==> is_lower_hex(#[trigger] id@[i]),
{
    uuid::Uuid::new_v4().to_simple().to_string()
}

} // verus!
