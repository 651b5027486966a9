//! What an HTTP handler answers, and the process's exit status.
//!
//! A handler first builds the request for the broker from the path and the
//! body; if that fails it answers with the protocol's error message labelled
//! `error`. Otherwise it runs an exchange with the broker; if that fails it
//! answers with the error message labelled `error2`, else with the bytes
//! the broker answered.

use vstd::prelude::*;

verus! {

/// A handler's answer: a protocol error message with this label, or the
/// broker's answer.
#[derive(Debug, Clone)]
pub enum Reply {
    ErrorNone(String),
    Response(Vec<u8>),
}

/// A reply as values.
pub enum ReplyView {
    ErrorNone(Seq<char>),
    Response(Seq<u8>),
}

impl View for Reply {
    type V = ReplyView;

    open spec fn view(&self) -> ReplyView {
        match self {
            Reply::ErrorNone(l) => ReplyView::ErrorNone(l@),
            Reply::Response(b) => ReplyView::Response(b@),
        }
    }
}

/// The label of the answer when the request could not be built.
pub open spec fn build_failure_label() -> Seq<char> {
    "error"@
}

/// The label of the answer when the exchange with the broker failed.
pub open spec fn exchange_failure_label() -> Seq<char> {
    "error2"@
}

/// The labels of the two failure answers: `error` when the request could
/// not be built, `error2` when the exchange failed; they differ.
pub proof fn handler_failure_labels()
    ensures
        build_failure_label() == "error"@,
        exchange_failure_label() == "error2"@,
        build_failure_label() != exchange_failure_label(),
{
    reveal_strlit("error");
    reveal_strlit("error2");
    assert("error"@.len() != "error2"@.len());
}

/// After building the request: the request to send, or the answer to give
/// at once when building failed.
pub fn after_build(built: Result<Vec<u8>, String>) -> (r: Result<Vec<u8>, Reply>)
    ensures
        match built {
            Ok(request) => r matches Ok(sent) && sent@ == request@,
            Err(_) => r matches Err(reply) && reply@ == ReplyView::ErrorNone(build_failure_label()),
        },
{
    match built {
        Ok(request) => Ok(request),
        Err(_) => Err(Reply::ErrorNone(String::from_str("error"))),
    }
}

/// After the exchange with the broker: the answer to give.
pub fn after_exchange(exchanged: Result<Vec<u8>, String>) -> (r: Reply)
    ensures
        r@ == match exchanged {
            Ok(answer) => ReplyView::Response(answer@),
            Err(_) => ReplyView::ErrorNone(exchange_failure_label()),
        },
{
    match exchanged {
        Ok(answer) => Reply::Response(answer),
        Err(_) => Reply::ErrorNone(String::from_str("error2")),
    }
}

/// The exit status of the process after it served: 0 when serving ended
/// without error, else 1 and the line `ERROR: ` followed by the error.
pub fn exit_status(served: &Result<(), String>) -> (r: (i32, Option<String>))
    ensures
        match served {
            Ok(_) => r.0 == 0 && r.1 is None,
            Err(e) => r.0 == 1 && (r.1 matches Some(line) && line@ == "ERROR: "@ + e@),
        },
{
    match served {
        Ok(_) => (0, None),
        Err(e) => (1, Some(String::from_str("ERROR: ").concat(e.as_str()))),
    }
}

} // verus!
