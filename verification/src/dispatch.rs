use vstd::prelude::*;

use std::error::Error as StdError;

use crate::primitives::{CompletionReason, YahaHttpVersion};
use crate::request::{pairs_view, RequestContextView, YahaNativeRequestContext};

verus! {

#[verifier::external_type_specification]
#[verifier::external_body]
pub struct ExHyperError(hyper::Error);

#[verifier::external_type_specification]
#[verifier::external_body]
pub struct ExLegacyError(hyper_util::client::legacy::Error);

#[verifier::external_type_specification]
#[verifier::external_body]
pub struct ExHeaderValue(hyper::header::HeaderValue);

#[verifier::external_type_specification]
#[verifier::external_body]
#[verifier::reject_recursive_types(T)]
pub struct ExHeaderMap<T>(hyper::HeaderMap<T>);

/// The header entries a header map holds, in order, one per value; a value
/// that is not visible ASCII stands as the empty string.
pub uninterp spec fn header_map_entries(m: hyper::HeaderMap) -> Seq<(Seq<char>, Seq<char>)>;

/// Relies on http's HeaderMap iteration: deterministic in the map's stored
/// order, one pair per value, a repeated name grouped where it first
/// appeared; and on HeaderValue::to_str, which rejects values that are not
/// visible ASCII (those stand as the empty string, as the callbacks expect
/// text).
#[verifier::external_body]
fn header_pairs(m: &hyper::HeaderMap) -> (r: Vec<(String, String)>)
    ensures
        pairs_view(r@) == header_map_entries(*m),
{
    m.iter()
        .map(|x| (x.0.to_string(), x.1.to_str().unwrap_or_default().to_string()))
        .collect()
}

/// The stream-reset code a body-stream failure carries: Some exactly when the
/// error wraps an HTTP/2 stream reset. A function of the error value alone.
pub uninterp spec fn hyper_reset_code(e: hyper::Error) -> Option<u32>;

/// The human-readable message of a body-stream failure, as its Display
/// implementation renders it. A function of the error value alone.
pub uninterp spec fn hyper_error_text(e: hyper::Error) -> Seq<char>;

/// The stream-reset code a send failure carries: Some exactly when its inner
/// error wraps an HTTP/2 stream reset. A function of the error value alone.
pub uninterp spec fn legacy_reset_code(e: hyper_util::client::legacy::Error) -> Option<u32>;

/// The human-readable message of a send failure: the error and, when one
/// exists, its inner error. A function of the error value alone.
pub uninterp spec fn legacy_error_text(e: hyper_util::client::legacy::Error) -> Seq<char>;

/// Relies on the std error source chain and h2::Error::reason: a body-stream
/// failure that wraps an HTTP/2 stream reset carries that reset's numeric
/// code; any other failure carries none.
#[verifier::external_body]
fn hyper_error_h2_code(err: &hyper::Error) -> (r: Option<u32>)
    ensures
        r == hyper_reset_code(*err),
{
    err.source()
        .and_then(|e| e.downcast_ref::<h2::Error>())
        .and_then(|e| e.reason())
        .map(u32::from)
}

/// Relies on hyper::Error's Display implementation for the human-readable
/// message recorded in the last-error slot.
#[verifier::external_body]
fn hyper_error_message(err: &hyper::Error) -> (r: String)
    ensures
        r@ == hyper_error_text(*err),
{
    format!("{}", err)
}

/// Relies on the std error source chain and h2::Error::reason: a send failure
/// whose inner error wraps an HTTP/2 stream reset carries that reset's
/// numeric code; any other failure carries none.
#[verifier::external_body]
fn legacy_error_h2_code(err: &hyper_util::client::legacy::Error) -> (r: Option<u32>)
    ensures
        r == legacy_reset_code(*err),
{
    err.source()
        .and_then(|e| e.source())
        .and_then(|e| e.downcast_ref::<h2::Error>())
        .and_then(|e| e.reason())
        .map(u32::from)
}

/// Relies on the Display implementations of the client error and its inner
/// error: the message names both when an inner error exists.
#[verifier::external_body]
fn legacy_error_message(err: &hyper_util::client::legacy::Error) -> (r: String)
    ensures
        r@ == legacy_error_text(*err),
{
    match err.source() {
        Some(inner) => format!("{}: {}", err, inner),
        None => format!("{}", err),
    }
}

/// Where the dispatch task stands between two of its suspension points.
#[derive(Clone, Copy, Debug, PartialEq, Eq, Structural)]
pub enum DispatchState {
    /// The request is being sent; status and headers have not arrived.
    Sending,
    /// Status and headers have arrived; body frames are being read.
    Streaming { trailers_received: bool },
    /// A terminal notification has been emitted; nothing more happens.
    Terminated,
}

/// What the dispatch task observed at one suspension point.
pub enum DispatchEvent {
    /// The client context was never built; no network attempt is made.
    ClientMissing,
    /// The cancellation signal won the race at a suspension point.
    Cancelled,
    /// Status, protocol version and headers arrived.
    ResponseReceived { status: u16, version: YahaHttpVersion, headers: Vec<(String, String)> },
    /// The initial send failed, with any extractable stream-reset code.
    SendFailed { h2_code: Option<u32>, message: String },
    /// One response body frame arrived.
    DataFrame { length: usize },
    /// Reading the body failed, with any extractable stream-reset code.
    FrameError { h2_code: Option<u32>, message: String },
    /// A trailer frame arrived.
    TrailersFrame { trailers: Vec<(String, String)> },
    /// The response body ended.
    EndOfStream,
}

/// What the caller must be told after one step: which callback to invoke.
#[derive(Clone, Copy, Debug, PartialEq, Eq, Structural)]
pub enum DispatchAction {
    /// Invoke the headers-received callback.
    NotifyHeaders { status: u16, version: YahaHttpVersion },
    /// Invoke the data-received callback for one frame.
    NotifyData { length: usize },
    /// Invoke the terminal callback; fires exactly once per request.
    NotifyComplete { reason: CompletionReason, h2_error_code: u32 },
}

/// The protocol error code attached to an `Error` completion: the extracted
/// stream-reset code, or zero when none is available.
pub open spec fn reset_code_or_zero(code: Option<u32>) -> u32 {
    match code {
        Some(c) => c,
        None => 0,
    }
}

/// The message recorded when a request is begun on a context whose client
/// was never built.
pub open spec fn client_missing_message() -> Seq<char> {
    "The client has not been built. You need to build it before sending the request. "@
}

/// The state after one step of the dispatch task.
pub open spec fn step_state(s: DispatchState, e: DispatchEvent) -> DispatchState {
    match s {
        DispatchState::Terminated => DispatchState::Terminated,
        DispatchState::Sending => match e {
            DispatchEvent::ClientMissing => DispatchState::Terminated,
            DispatchEvent::Cancelled => DispatchState::Terminated,
            DispatchEvent::SendFailed { .. } => DispatchState::Terminated,
            DispatchEvent::ResponseReceived { .. } => DispatchState::Streaming {
                trailers_received: false,
            },
            _ => DispatchState::Sending,
        },
        DispatchState::Streaming { trailers_received } => match e {
            DispatchEvent::Cancelled => DispatchState::Terminated,
            DispatchEvent::FrameError { .. } => DispatchState::Terminated,
            DispatchEvent::EndOfStream => DispatchState::Terminated,
            DispatchEvent::TrailersFrame { .. } => DispatchState::Streaming {
                trailers_received: true,
            },
            _ => DispatchState::Streaming { trailers_received },
        },
    }
}

/// The callback invocation one step of the dispatch task asks for, if any.
pub open spec fn step_action(s: DispatchState, e: DispatchEvent) -> Option<DispatchAction> {
    match s {
        DispatchState::Terminated => None,
        DispatchState::Sending => match e {
            DispatchEvent::ClientMissing => Some(DispatchAction::NotifyComplete {
                reason: CompletionReason::Error,
                h2_error_code: 0,
            }),
            DispatchEvent::Cancelled => Some(DispatchAction::NotifyComplete {
                reason: CompletionReason::Aborted,
                h2_error_code: 0,
            }),
            DispatchEvent::SendFailed { h2_code, .. } => Some(DispatchAction::NotifyComplete {
                reason: CompletionReason::Error,
                h2_error_code: reset_code_or_zero(h2_code),
            }),
            DispatchEvent::ResponseReceived { status, version, .. } => Some(
                DispatchAction::NotifyHeaders { status, version },
            ),
            _ => None,
        },
        DispatchState::Streaming { .. } => match e {
            DispatchEvent::Cancelled => Some(DispatchAction::NotifyComplete {
                reason: CompletionReason::Aborted,
                h2_error_code: 0,
            }),
            DispatchEvent::FrameError { h2_code, .. } => Some(DispatchAction::NotifyComplete {
                reason: CompletionReason::Error,
                h2_error_code: reset_code_or_zero(h2_code),
            }),
            DispatchEvent::EndOfStream => Some(DispatchAction::NotifyComplete {
                reason: CompletionReason::Success,
                h2_error_code: 0,
            }),
            DispatchEvent::DataFrame { length } => Some(DispatchAction::NotifyData { length }),
            _ => None,
        },
    }
}

/// How one step of the dispatch task changes the request context: capturing
/// headers and trailers, recording error messages, half-closing the outbound
/// body, and raising the completed flag.
pub open spec fn step_context(v: RequestContextView, s: DispatchState, e: DispatchEvent)
    -> RequestContextView {
    match s {
        DispatchState::Terminated => v,
        DispatchState::Sending => match e {
            DispatchEvent::ClientMissing => RequestContextView {
                last_error: Some(client_missing_message()),
                ..v
            },
            DispatchEvent::SendFailed { message, .. } => RequestContextView {
                last_error: Some(message@),
                ..v
            },
            DispatchEvent::ResponseReceived { status, version, headers } => RequestContextView {
                response_status: status,
                response_version: version,
                response_headers: Some(pairs_view(headers@)),
                ..v
            },
            _ => v,
        },
        DispatchState::Streaming { trailers_received } => match e {
            DispatchEvent::FrameError { message, .. } => RequestContextView {
                last_error: Some(message@),
                ..v
            },
            DispatchEvent::TrailersFrame { trailers } => if trailers_received {
                v
            } else {
                RequestContextView {
                    response_trailers: Some(pairs_view(trailers@)),
                    body_open: false,
                    ..v
                }
            },
            DispatchEvent::EndOfStream => RequestContextView {
                body_open: trailers_received && v.body_open,
                completed: true,
                ..v
            },
            _ => v,
        },
    }
}

impl YahaNativeRequestContext {
    /// One transition of the dispatch task's state machine: from the current
    /// state and the event observed at a suspension point, capture what must
    /// be captured under the request lock, and report the next state together
    /// with the callback the caller owes. Everything the step does is fixed
    /// by `step_state`, `step_action` and `step_context`.
    pub fn dispatch_step(&mut self, state: DispatchState, event: DispatchEvent) -> (r: (
        DispatchState,
        Option<DispatchAction>,
    ))
        ensures
            r.0 == step_state(state, event),
            r.1 == step_action(state, event),
            final(self)@ == step_context(old(self)@, state, event),
    {
        match state {
            DispatchState::Terminated => (DispatchState::Terminated, None),
            DispatchState::Sending => match event {
                DispatchEvent::ClientMissing => {
                    self.last_error = Some(
                        "The client has not been built. You need to build it before sending the request. ".to_owned(),
                    );
                    (
                        DispatchState::Terminated,
                        Some(DispatchAction::NotifyComplete {
                            reason: CompletionReason::Error,
                            h2_error_code: 0,
                        }),
                    )
                },
                DispatchEvent::Cancelled => (
                    DispatchState::Terminated,
                    Some(DispatchAction::NotifyComplete {
                        reason: CompletionReason::Aborted,
                        h2_error_code: 0,
                    }),
                ),
                DispatchEvent::SendFailed { h2_code, message } => {
                    self.last_error = Some(message);
                    let code: u32 = match h2_code {
                        Some(c) => c,
                        None => 0,
                    };
                    (
                        DispatchState::Terminated,
                        Some(DispatchAction::NotifyComplete {
                            reason: CompletionReason::Error,
                            h2_error_code: code,
                        }),
                    )
                },
                DispatchEvent::ResponseReceived { status, version, headers } => {
                    self.response_status = status;
                    self.response_version = version;
                    self.response_headers = Some(headers);
                    (
                        DispatchState::Streaming { trailers_received: false },
                        Some(DispatchAction::NotifyHeaders { status, version }),
                    )
                },
                _ => (DispatchState::Sending, None),
            },
            DispatchState::Streaming { trailers_received } => match event {
                DispatchEvent::Cancelled => (
                    DispatchState::Terminated,
                    Some(DispatchAction::NotifyComplete {
                        reason: CompletionReason::Aborted,
                        h2_error_code: 0,
                    }),
                ),
                DispatchEvent::FrameError { h2_code, message } => {
                    self.last_error = Some(message);
                    let code: u32 = match h2_code {
                        Some(c) => c,
                        None => 0,
                    };
                    (
                        DispatchState::Terminated,
                        Some(DispatchAction::NotifyComplete {
                            reason: CompletionReason::Error,
                            h2_error_code: code,
                        }),
                    )
                },
                DispatchEvent::DataFrame { length } => (
                    DispatchState::Streaming { trailers_received },
                    Some(DispatchAction::NotifyData { length }),
                ),
                DispatchEvent::TrailersFrame { trailers } => {
                    if !trailers_received {
                        self.try_complete();
                        self.response_trailers = Some(trailers);
                    }
                    (DispatchState::Streaming { trailers_received: true }, None)
                },
                DispatchEvent::EndOfStream => {
                    if !trailers_received {
                        self.try_complete();
                    }
                    self.completed = true;
                    (
                        DispatchState::Terminated,
                        Some(DispatchAction::NotifyComplete {
                            reason: CompletionReason::Success,
                            h2_error_code: 0,
                        }),
                    )
                },
                _ => (DispatchState::Streaming { trailers_received }, None),
            },
        }
    }
}

/// Build the dispatch event for a failure of the initial send: the event
/// carries exactly the error's stream-reset code and message.
pub fn transport_error_event(err: &hyper_util::client::legacy::Error) -> (e: DispatchEvent)
    ensures
        e matches DispatchEvent::SendFailed { h2_code, message } && h2_code == legacy_reset_code(
            *err,
        ) && message@ == legacy_error_text(*err),
{
    DispatchEvent::SendFailed {
        h2_code: legacy_error_h2_code(err),
        message: legacy_error_message(err),
    }
}

/// Build the dispatch event for a failure while reading the response body:
/// the event carries exactly the error's stream-reset code and message.
pub fn frame_error_event(err: &hyper::Error) -> (e: DispatchEvent)
    ensures
        e matches DispatchEvent::FrameError { h2_code, message } && h2_code == hyper_reset_code(
            *err,
        ) && message@ == hyper_error_text(*err),
{
    DispatchEvent::FrameError {
        h2_code: hyper_error_h2_code(err),
        message: hyper_error_message(err),
    }
}

/// Build the dispatch event for the arrival of status, version and headers.
pub fn response_event(status: u16, version: YahaHttpVersion, headers: &hyper::HeaderMap) -> (e:
    DispatchEvent)
    ensures
        e matches DispatchEvent::ResponseReceived { status: s, version: v, headers: h }
            && s == status && v == version && pairs_view(h@) == header_map_entries(*headers),
{
    DispatchEvent::ResponseReceived { status, version, headers: header_pairs(headers) }
}

/// Build the dispatch event for the arrival of a trailer frame.
pub fn trailers_event(trailers: &hyper::HeaderMap) -> (e: DispatchEvent)
    ensures
        e matches DispatchEvent::TrailersFrame { trailers: t } && pairs_view(t@)
            == header_map_entries(*trailers),
{
    DispatchEvent::TrailersFrame { trailers: header_pairs(trailers) }
}

/// The state a run of the dispatch task reaches after observing the events,
/// in order, starting from `s`.
pub open spec fn run_state(s: DispatchState, events: Seq<DispatchEvent>) -> DispatchState
    decreases events.len(),
{
    if events.len() == 0 {
        s
    } else {
        run_state(step_state(s, events[0]), events.drop_first())
    }
}

/// The callback invocations a run of the dispatch task asks for, in order,
/// after observing the events starting from `s`.
pub open spec fn run_actions(s: DispatchState, events: Seq<DispatchEvent>) -> Seq<DispatchAction>
    decreases events.len(),
{
    if events.len() == 0 {
        Seq::empty()
    } else {
        let rest = run_actions(step_state(s, events[0]), events.drop_first());
        match step_action(s, events[0]) {
            Some(a) => seq![a] + rest,
            None => rest,
        }
    }
}

/// How many terminal notifications a sequence of actions contains.
pub open spec fn terminal_count(actions: Seq<DispatchAction>) -> nat
    decreases actions.len(),
{
    if actions.len() == 0 {
        0
    } else {
        (if actions[0] is NotifyComplete {
            1nat
        } else {
            0nat
        }) + terminal_count(actions.drop_first())
    }
}

/// Every data notification comes after some headers notification.
pub open spec fn headers_precede_data(actions: Seq<DispatchAction>) -> bool {
    forall|i: int|
        0 <= i < actions.len() && (#[trigger] actions[i]) is NotifyData ==> exists|j: int|
            0 <= j < i && (#[trigger] actions[j]) is NotifyHeaders
}

proof fn lemma_terminal_count_cons(a: DispatchAction, rest: Seq<DispatchAction>)
    ensures
        terminal_count(seq![a] + rest) == (if a is NotifyComplete {
            1nat
        } else {
            0nat
        }) + terminal_count(rest),
{
    let s = seq![a] + rest;
    assert(s[0] == a);
    assert(s.drop_first() =~= rest);
}

/// The terminal state absorbs every further event: nothing more is captured
/// and no further callback is asked for.
pub proof fn lemma_run_terminated(events: Seq<DispatchEvent>)
    ensures
        run_state(DispatchState::Terminated, events) == DispatchState::Terminated,
        run_actions(DispatchState::Terminated, events) == Seq::<DispatchAction>::empty(),
    decreases events.len(),
{
    if events.len() > 0 {
        lemma_run_terminated(events.drop_first());
    }
}

/// A step emits a terminal notification exactly when it enters the terminal
/// state.
proof fn lemma_step_terminal(s: DispatchState, e: DispatchEvent)
    requires
        s !is Terminated,
    ensures
        (step_action(s, e) matches Some(a) && a is NotifyComplete) <==> step_state(s, e)
            is Terminated,
{
}

/// Exactly-once terminal delivery: a run emits one terminal notification when
/// it reaches the terminal state and none before, over every sequence of
/// events whatsoever.
pub proof fn lemma_terminal_exactly_once(s: DispatchState, events: Seq<DispatchEvent>)
    ensures
        terminal_count(run_actions(s, events)) == if s !is Terminated && run_state(s, events)
            is Terminated {
            1nat
        } else {
            0nat
        },
    decreases events.len(),
{
    if events.len() > 0 {
        let s1 = step_state(s, events[0]);
        let rest = events.drop_first();
        lemma_terminal_exactly_once(s1, rest);
        if s is Terminated {
            lemma_run_terminated(events);
        } else {
            lemma_step_terminal(s, events[0]);
            match step_action(s, events[0]) {
                Some(a) => {
                    lemma_terminal_count_cons(a, run_actions(s1, rest));
                    if a is NotifyComplete {
                        lemma_run_terminated(rest);
                    }
                },
                None => {},
            }
        }
    }
}

/// At most one terminal notification is ever asked for over a whole dispatch,
/// and exactly one once the run has terminated.
pub proof fn lemma_terminal_at_most_once(events: Seq<DispatchEvent>)
    ensures
        terminal_count(run_actions(DispatchState::Sending, events)) <= 1,
        run_state(DispatchState::Sending, events) is Terminated ==> terminal_count(
            run_actions(DispatchState::Sending, events),
        ) == 1,
{
    lemma_terminal_exactly_once(DispatchState::Sending, events);
}

/// The headers notification precedes every data notification, in every run
/// that starts at dispatch — whatever the events.
pub proof fn lemma_headers_before_data(events: Seq<DispatchEvent>)
    ensures
        headers_precede_data(run_actions(DispatchState::Sending, events)),
    decreases events.len(),
{
    if events.len() > 0 {
        let rest = events.drop_first();
        let actions = run_actions(DispatchState::Sending, events);
        match events[0] {
            DispatchEvent::ResponseReceived { .. } => {
                assert(actions[0] is NotifyHeaders);
                assert forall|i: int|
                    0 <= i < actions.len() && (#[trigger] actions[i]) is NotifyData implies exists|
                    j: int,
                |
                    0 <= j < i && (#[trigger] actions[j]) is NotifyHeaders by {
                    assert(i != 0);
                    assert(0 <= 0 < i && actions[0] is NotifyHeaders);
                }
            },
            DispatchEvent::ClientMissing => {
                lemma_run_terminated(rest);
                assert(actions =~= seq![step_action(DispatchState::Sending, events[0])->0]);
            },
            DispatchEvent::Cancelled => {
                lemma_run_terminated(rest);
                assert(actions =~= seq![step_action(DispatchState::Sending, events[0])->0]);
            },
            DispatchEvent::SendFailed { .. } => {
                lemma_run_terminated(rest);
                assert(actions =~= seq![step_action(DispatchState::Sending, events[0])->0]);
            },
            _ => {
                lemma_headers_before_data(rest);
                assert(actions =~= run_actions(DispatchState::Sending, rest));
            },
        }
    }
}

/// A terminal notification is the last action of a run: no headers, data or
/// further terminal notification ever follows it. In particular, once the
/// cancellation signal is observed, only the single `Aborted` notification
/// remains.
pub proof fn lemma_terminal_is_last(s: DispatchState, events: Seq<DispatchEvent>)
    ensures
        forall|i: int|
            0 <= i < run_actions(s, events).len() && (#[trigger] run_actions(s, events)[i])
                is NotifyComplete ==> i == run_actions(s, events).len() - 1,
    decreases events.len(),
{
    if events.len() > 0 {
        let s1 = step_state(s, events[0]);
        let rest = events.drop_first();
        let actions = run_actions(s, events);
        if s is Terminated {
            lemma_run_terminated(events);
        } else {
            lemma_step_terminal(s, events[0]);
            lemma_terminal_is_last(s1, rest);
            match step_action(s, events[0]) {
                Some(a) => {
                    let tail = run_actions(s1, rest);
                    if a is NotifyComplete {
                        lemma_run_terminated(rest);
                        assert(actions =~= seq![a]);
                    } else {
                        assert(actions == seq![a] + tail);
                        assert forall|i: int|
                            0 <= i < actions.len() && (#[trigger] actions[i])
                                is NotifyComplete implies i == actions.len() - 1 by {
                            assert(i >= 1);
                            assert(actions[i] == tail[i - 1]);
                        }
                    }
                },
                None => {
                    assert(actions =~= run_actions(s1, rest));
                },
            }
        }
    }
}

/// Cancellation observed before the send completes: the run reports `Aborted`
/// with protocol error code zero, and asks for nothing else — in particular,
/// for no data notification — whatever happens afterwards.
pub proof fn lemma_abort_before_first_await(rest: Seq<DispatchEvent>)
    ensures
        ({
            let actions = run_actions(
                DispatchState::Sending,
                seq![DispatchEvent::Cancelled] + rest,
            );
            &&& actions =~= seq![
                DispatchAction::NotifyComplete {
                    reason: CompletionReason::Aborted,
                    h2_error_code: 0,
                },
            ]
            &&& forall|i: int|
                0 <= i < actions.len() ==> !((#[trigger] actions[i]) is NotifyData)
        }),
{
    let events = seq![DispatchEvent::Cancelled] + rest;
    assert(events[0] == DispatchEvent::Cancelled);
    assert(events.drop_first() =~= rest);
    lemma_run_terminated(rest);
}

} // verus!
