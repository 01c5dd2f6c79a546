//! Per-stream serving decisions.
//!
//! For each HTTP/2 request stream the server classifies the request, runs
//! the set's request-key program, and decides what goes back: parked
//! headers for a server-sent-events request, recorded headers with or
//! without a body, or a 404.  The caller does the frame I/O; everything
//! decidable from the request alone is decided here.

use vstd::prelude::*;

use crate::program::{faults, init_state, out_of_fuel, runs_to};
use crate::response_set::{find_key, RecordedResponse, RecordedResponseSet};
use crate::state::{StateView, VmFault};
use crate::text::str_eq;

verus! {

/// Whether a request asks for a server-sent-event stream: a GET whose
/// `Accept` header is exactly `text/event-stream`.
pub open spec fn is_sse_spec(method: Seq<char>, accept: Option<Seq<char>>) -> bool {
    method == "GET"@ && accept == Some("text/event-stream"@)
}

/// The method the lookup runs under: HEAD reuses GET recordings.
pub open spec fn lookup_method_spec(method: Seq<char>) -> Seq<char> {
    if method == "HEAD"@ {
        "GET"@
    } else {
        method
    }
}

/// What the server does with one request stream.
pub enum ResponsePlan<'a> {
    /// Send response headers with status 200 and no END_STREAM, send no
    /// body frames, and hold the stream until the client resets it.
    ParkForSse,
    /// Send the recording's status and headers with END_STREAM set: either
    /// the recording has no body, or the request was HEAD and the body is
    /// omitted.
    HeadersOnly(&'a RecordedResponse),
    /// Send the recording's status and headers, then its body under flow
    /// control, END_STREAM on the final data frame.
    WithBody(&'a RecordedResponse),
    /// No recording matched: send 404 with an empty body and END_STREAM.
    NotFound,
}

/// Decides how to answer one request.
///
/// A GET with `Accept: text/event-stream` is parked.  Anything else is
/// keyed through the set's program — with HEAD rewritten to GET, so a HEAD
/// is served from the GET recording with the same status and headers and
/// never with a body — and answered from the map, or with 404 when no
/// recording matches.
pub fn plan_response<'a>(
    set: &'a RecordedResponseSet,
    method: &str,
    authority: &str,
    path_and_query: &str,
    accept: Option<&str>,
) -> (r: Result<ResponsePlan<'a>, VmFault>)
    requires
        set@.wf(),
    ensures
        ({
            let accept_v = match accept {
                Some(a) => Some(a@),
                None => None,
            };
            let s0 = init_state(
                lookup_method_spec(method@),
                authority@,
                path_and_query@,
                set@.program.ops.len() as int,
            );
            match r {
                Ok(plan) => if is_sse_spec(method@, accept_v) {
                    plan is ParkForSse
                } else {
                    exists|sf: StateView|
                        #[trigger] runs_to(set@.program, s0, sf) && (match find_key(
                            set@.key_map,
                            sf.parts.key(),
                            0,
                        ) {
                            Some(j) => {
                                let resp = set@.responses[set@.key_map[j].1];
                                if method@ == "HEAD"@ || resp.body is None {
                                    plan matches ResponsePlan::HeadersOnly(p) && p@ == resp
                                } else {
                                    plan matches ResponsePlan::WithBody(p) && p@ == resp
                                }
                            },
                            None => plan is NotFound,
                        })
                },
                Err(VmFault::MovePartToPart) => !is_sse_spec(method@, accept_v) && faults(
                    set@.program,
                    s0,
                ),
                Err(VmFault::StepLimit) => !is_sse_spec(method@, accept_v) && out_of_fuel(
                    set@.program,
                    s0,
                ),
            }
        }),
{
    let is_get = str_eq(method, "GET");
    let sse = is_get && match accept {
        Some(a) => str_eq(a, "text/event-stream"),
        None => false,
    };
    if sse {
        return Ok(ResponsePlan::ParkForSse);
    }
    let is_head = str_eq(method, "HEAD");
    let lookup_method = if is_head {
        "GET"
    } else {
        method
    };
    match set.response_for(lookup_method, authority, path_and_query) {
        Ok(Some(resp)) => {
            let bodyless = match resp.body() {
                Some(_) => false,
                None => true,
            };
            if is_head || bodyless {
                Ok(ResponsePlan::HeadersOnly(resp))
            } else {
                Ok(ResponsePlan::WithBody(resp))
            }
        },
        Ok(None) => Ok(ResponsePlan::NotFound),
        Err(fault) => Err(fault),
    }
}

/// One turn of the flow-controlled body transmission.
#[derive(Clone, Copy, PartialEq, Eq, Structural, Debug)]
pub enum SendAction {
    /// The window covers the rest: send all remaining bytes with
    /// END_STREAM set.
    SendAllEndStream,
    /// Send this many bytes without END_STREAM, then ask for more window.
    SendPrefix(usize),
    /// No window at all: wait for more capacity.
    Wait,
}

/// Decides what to send with `available` window and `remaining` body bytes:
/// everything at once when the window covers it, else as much as the window
/// grants.
pub fn body_send_action(available: usize, remaining: usize) -> (r: SendAction)
    ensures
        available >= remaining ==> r == SendAction::SendAllEndStream,
        available < remaining && available > 0 ==> r == SendAction::SendPrefix(available),
        available == 0 && remaining > 0 ==> r == SendAction::Wait,
{
    if available >= remaining {
        SendAction::SendAllEndStream
    } else if available > 0 {
        SendAction::SendPrefix(available)
    } else {
        SendAction::Wait
    }
}

} // verus!
