use vstd::prelude::*;

use crate::primitives::{WriteResult, YahaHttpVersion};

verus! {

/// Whether hyper's URI parser accepts the string. The exact grammar belongs
/// to the parser; contracts only relate results to this predicate.
pub uninterp spec fn is_valid_uri(s: Seq<char>) -> bool;

/// Relies on hyper::Uri::try_from(&str): it returns Ok exactly on the strings
/// that parse as a URI, and a parse-error message otherwise.
#[verifier::external_body]
fn check_uri(value: &str) -> (r: Result<(), String>)
    ensures
        r is Ok <==> is_valid_uri(value@),
{
    match hyper::Uri::try_from(value) {
        Ok(_) => Ok(()),
        Err(err) => Err(err.to_string()),
    }
}

#[verifier::external_type_specification]
#[verifier::external_body]
#[verifier::reject_recursive_types(T)]
pub struct ExSender<T>(futures_channel::mpsc::Sender<T>);

#[verifier::external_type_specification]
#[verifier::external_body]
#[verifier::reject_recursive_types(T)]
pub struct ExReceiver<T>(futures_channel::mpsc::Receiver<T>);

#[verifier::external_type_specification]
#[verifier::external_body]
pub struct ExBytes(hyper::body::Bytes);

#[verifier::external_type_specification]
#[verifier::external_body]
pub struct ExCancellationToken(tokio_util::sync::CancellationToken);

/// Relies on futures_channel::mpsc::channel with a buffer of zero: a bounded
/// in-memory channel; the returned send half is open until every sender is
/// dropped, at which point the receive half reports end of stream.
#[verifier::external_body]
fn open_body_channel() -> (r: (
    futures_channel::mpsc::Sender<hyper::body::Bytes>,
    futures_channel::mpsc::Receiver<hyper::body::Bytes>,
))
{
    futures_channel::mpsc::channel(0)
}

/// Relies on futures_channel::mpsc::Sender::try_send: it enqueues the bytes
/// and returns Ok only when the channel has spare capacity at this moment;
/// whether it does depends on the consumer, so nothing more is promised.
#[verifier::external_body]
fn try_send_body(
    sender: &mut futures_channel::mpsc::Sender<hyper::body::Bytes>,
    buf: &Vec<u8>,
) -> (r: bool)
{
    sender
        .try_send(hyper::body::Bytes::copy_from_slice(buf.as_slice()))
        .is_ok()
}

/// Relies on tokio_util::sync::CancellationToken::new: a fresh, unsignalled
/// token.
#[verifier::external_body]
fn new_cancellation_token() -> (r: tokio_util::sync::CancellationToken)
{
    tokio_util::sync::CancellationToken::new()
}

/// Relies on tokio_util::sync::CancellationToken::cancel: signals the token,
/// waking every task waiting on it; signalling again is a no-op.
#[verifier::external_body]
fn signal_cancellation(token: &tokio_util::sync::CancellationToken)
{
    token.cancel()
}

/// Mathematical image of a list of header (name, value) pairs.
pub open spec fn pairs_view(v: Seq<(String, String)>) -> Seq<(Seq<char>, Seq<char>)> {
    v.map_values(|p: (String, String)| (p.0@, p.1@))
}

/// The pending request line and header list, accumulated by the setters and
/// consumed once when the request is dispatched.
pub struct RequestBuilder {
    pub method: Option<String>,
    pub uri: Option<String>,
    pub version: Option<YahaHttpVersion>,
    pub headers: Vec<(String, String)>,
}

/// Mathematical view of a pending builder.
#[verifier::ext_equal]
pub struct BuilderView {
    pub method: Option<Seq<char>>,
    pub uri: Option<Seq<char>>,
    pub version: Option<YahaHttpVersion>,
    pub headers: Seq<(Seq<char>, Seq<char>)>,
}

impl View for RequestBuilder {
    type V = BuilderView;

    open spec fn view(&self) -> BuilderView {
        BuilderView {
            method: match self.method {
                Some(m) => Some(m@),
                None => None,
            },
            uri: match self.uri {
                Some(u) => Some(u@),
                None => None,
            },
            version: self.version,
            headers: pairs_view(self.headers@),
        }
    }
}

/// One request/response exchange: identity, the pending builder, the outbound
/// body channel, the cancellation signal, and the progressively captured
/// response state. Shared between the issuing thread and the dispatch task;
/// the caller guards it with one lock per request.
pub struct YahaNativeRequestContext {
    pub seq_id: i32,
    pub builder: Option<RequestBuilder>,
    pub sender: Option<futures_channel::mpsc::Sender<hyper::body::Bytes>>,
    pub cancellation_token: tokio_util::sync::CancellationToken,
    pub has_body: bool,
    pub completed: bool,
    pub cancel_requested: bool,
    pub response_version: YahaHttpVersion,
    pub response_status: u16,
    pub response_headers: Option<Vec<(String, String)>>,
    pub response_trailers: Option<Vec<(String, String)>>,
    pub last_error: Option<String>,
}

/// Mathematical view of a request context. The outbound channel is abstracted
/// to the one bit the design depends on: whether the body is still open.
#[verifier::ext_equal]
pub struct RequestContextView {
    pub seq_id: int,
    pub builder: Option<BuilderView>,
    pub body_open: bool,
    pub has_body: bool,
    pub completed: bool,
    pub cancel_requested: bool,
    pub response_version: YahaHttpVersion,
    pub response_status: u16,
    pub response_headers: Option<Seq<(Seq<char>, Seq<char>)>>,
    pub response_trailers: Option<Seq<(Seq<char>, Seq<char>)>>,
    pub last_error: Option<Seq<char>>,
}

impl View for YahaNativeRequestContext {
    type V = RequestContextView;

    open spec fn view(&self) -> RequestContextView {
        RequestContextView {
            seq_id: self.seq_id as int,
            builder: match self.builder {
                Some(b) => Some(b@),
                None => None,
            },
            body_open: self.sender is Some,
            has_body: self.has_body,
            completed: self.completed,
            cancel_requested: self.cancel_requested,
            response_version: self.response_version,
            response_status: self.response_status,
            response_headers: match self.response_headers {
                Some(h) => Some(pairs_view(h@)),
                None => None,
            },
            response_trailers: match self.response_trailers {
                Some(t) => Some(pairs_view(t@)),
                None => None,
            },
            last_error: match self.last_error {
                Some(e) => Some(e@),
                None => None,
            },
        }
    }
}

/// The state of a request context as `request_new` hands it out: an empty
/// builder, no body, nothing received, nothing reported.
pub open spec fn initial_request_view(seq_id: int) -> RequestContextView {
    RequestContextView {
        seq_id: seq_id,
        builder: Some(
            BuilderView {
                method: None,
                uri: None,
                version: None,
                headers: Seq::empty(),
            },
        ),
        body_open: false,
        has_body: false,
        completed: false,
        cancel_requested: false,
        response_version: YahaHttpVersion::Http10,
        response_status: 200,
        response_headers: None,
        response_trailers: None,
        last_error: None,
    }
}

impl YahaNativeRequestContext {
    /// Create a fresh request context with the given caller-assigned
    /// sequence number.
    pub fn request_new(seq_id: i32) -> (r: Self)
        ensures
            r@ == initial_request_view(seq_id as int),
    {
        let r = YahaNativeRequestContext {
            seq_id,
            builder: Some(
                RequestBuilder {
                    method: None,
                    uri: None,
                    version: None,
                    headers: Vec::new(),
                },
            ),
            sender: None,
            cancellation_token: new_cancellation_token(),
            has_body: false,
            completed: false,
            cancel_requested: false,
            response_version: YahaHttpVersion::Http10,
            response_status: 200,
            response_headers: None,
            response_trailers: None,
            last_error: None,
        };
        proof {
            assert(r@ =~~= initial_request_view(seq_id as int));
        }
        r
    }

    /// Set the request method on the pending builder.
    pub fn set_method(&mut self, value: String) -> (r: bool)
        requires
            old(self)@.builder is Some,
        ensures
            r,
            final(self)@ == (RequestContextView {
                builder: Some(BuilderView { method: Some(value@), ..old(self)@.builder->0 }),
                ..old(self)@
            }),
    {
        let builder = self.builder.take().unwrap();
        self.builder = Some(RequestBuilder { method: Some(value), ..builder });
        true
    }

    /// Set the request URI on the pending builder. The one fallible setter:
    /// an invalid URI is rejected, the builder keeps its previous state, and
    /// the parse error is recorded in the last-error slot.
    pub fn set_uri(&mut self, value: String) -> (r: bool)
        requires
            old(self)@.builder is Some,
        ensures
            r == is_valid_uri(value@),
            is_valid_uri(value@) ==> final(self)@ == (RequestContextView {
                builder: Some(BuilderView { uri: Some(value@), ..old(self)@.builder->0 }),
                ..old(self)@
            }),
            !is_valid_uri(value@) ==> {
                &&& final(self)@.last_error is Some
                &&& final(self)@ == (RequestContextView {
                    last_error: final(self)@.last_error,
                    ..old(self)@
                })
            },
    {
        match check_uri(value.as_str()) {
            Ok(()) => {
                let builder = self.builder.take().unwrap();
                self.builder = Some(RequestBuilder { uri: Some(value), ..builder });
                true
            },
            Err(message) => {
                self.last_error = Some(message);
                false
            },
        }
    }

    /// Set the protocol version on the pending builder.
    pub fn set_version(&mut self, value: YahaHttpVersion) -> (r: bool)
        requires
            old(self)@.builder is Some,
        ensures
            r,
            final(self)@ == (RequestContextView {
                builder: Some(BuilderView { version: Some(value), ..old(self)@.builder->0 }),
                ..old(self)@
            }),
    {
        let builder = self.builder.take().unwrap();
        self.builder = Some(RequestBuilder { version: Some(value), ..builder });
        true
    }

    /// Append one header pair to the pending builder. Order of insertion is
    /// kept and duplicate names stay as separate entries.
    pub fn set_header(&mut self, key: String, value: String) -> (r: bool)
        requires
            old(self)@.builder is Some,
        ensures
            r,
            final(self)@ == (RequestContextView {
                builder: Some(BuilderView {
                    headers: old(self)@.builder->0.headers.push((key@, value@)),
                    ..old(self)@.builder->0
                }),
                ..old(self)@
            }),
    {
        let mut builder = self.builder.take().unwrap();
        builder.headers.push((key, value));
        proof {
            assert(pairs_view(builder.headers@)
                =~= old(self)@.builder->0.headers.push((key@, value@)));
        }
        self.builder = Some(builder);
        true
    }

    /// Commit to streaming an outbound body (or not) when the request is
    /// dispatched.
    pub fn set_has_body(&mut self, value: bool) -> (r: bool)
        requires
            old(self)@.builder is Some,
        ensures
            r,
            final(self)@ == (RequestContextView { has_body: value, ..old(self)@ }),
    {
        self.has_body = value;
        true
    }

    /// First step of dispatch: create the outbound body channel. The send
    /// half is kept on the context only when a body was promised; otherwise
    /// it is dropped at once, so the receive half reports an empty body. The
    /// receive half is handed to the dispatch task either way.
    pub fn open_outbound_body(&mut self) -> (r: futures_channel::mpsc::Receiver<
        hyper::body::Bytes,
    >)
        requires
            old(self)@.builder is Some,
        ensures
            final(self)@ == (RequestContextView { body_open: old(self)@.has_body, ..old(self)@ }),
    {
        let (tx, rx) = open_body_channel();
        if self.has_body {
            self.sender = Some(tx);
        } else {
            self.sender = None;
        }
        rx
    }

    /// Consume the pending builder when the dispatch task materializes the
    /// request; a request context is dispatched at most once.
    pub fn take_builder(&mut self) -> (r: RequestBuilder)
        requires
            old(self)@.builder is Some,
        ensures
            final(self)@ == (RequestContextView { builder: None, ..old(self)@ }),
            r@ == old(self)@.builder->0,
    {
        self.builder.take().unwrap()
    }

    /// Signal cooperative cancellation. Never blocks; the dispatch task
    /// observes the signal at its next suspension point. Signalling more than
    /// once is allowed and changes nothing further.
    pub fn abort(&mut self)
        ensures
            final(self)@ == (RequestContextView { cancel_requested: true, ..old(self)@ }),
    {
        self.cancel_requested = true;
        signal_cancellation(&self.cancellation_token);
    }

    /// The cancellation signal the dispatch task races its suspension points
    /// against.
    pub fn cancellation_token(&self) -> &tokio_util::sync::CancellationToken
    {
        &self.cancellation_token
    }

    /// Attempt a non-blocking enqueue of outbound body bytes. Once the body
    /// has been half-closed every write is rejected with `AlreadyCompleted`;
    /// while it is open the write either lands (`Success`) or the bounded
    /// channel is at capacity (`Full`).
    pub fn write_body(&mut self, buf: &Vec<u8>) -> (r: WriteResult)
        ensures
            final(self)@ == old(self)@,
            r == WriteResult::AlreadyCompleted <==> !old(self)@.body_open,
    {
        match self.sender.as_mut() {
            Some(sender) => {
                if try_send_body(sender, buf) {
                    WriteResult::Success
                } else {
                    WriteResult::Full
                }
            },
            None => WriteResult::AlreadyCompleted,
        }
    }

    /// Half-close the outbound body by dropping the send half, if it is still
    /// present. Idempotent; the only legal transition of the body channel.
    pub fn try_complete(&mut self)
        ensures
            final(self)@ == (RequestContextView { body_open: false, ..old(self)@ }),
    {
        if self.sender.is_some() {
            self.sender = None;
        }
    }

    /// Explicitly half-close the outbound body; a no-op when already closed.
    pub fn complete_body(&mut self) -> (r: bool)
        ensures
            r,
            final(self)@ == (RequestContextView { body_open: false, ..old(self)@ }),
    {
        self.try_complete();
        true
    }

    /// Take the pending error message, clearing the slot.
    pub fn take_last_error(&mut self) -> (r: Option<String>)
        ensures
            final(self)@ == (RequestContextView { last_error: None, ..old(self)@ }),
            r is Some <==> old(self)@.last_error is Some,
            r matches Some(e) ==> old(self)@.last_error == Some(e@),
    {
        self.last_error.take()
    }

    /// Number of captured response headers; zero while none have arrived.
    pub fn response_get_headers_count(&self) -> (r: usize)
        ensures
            r as nat == match self@.response_headers {
                Some(h) => h.len(),
                None => 0,
            },
    {
        match self.response_headers.as_ref() {
            Some(headers) => headers.len(),
            None => 0,
        }
    }

    /// Name of the captured response header at `index`. Valid once headers
    /// have been captured; an out-of-range index is a caller error.
    pub fn response_get_header_key(&self, index: usize) -> (r: String)
        requires
            self@.response_headers matches Some(h) && index < h.len(),
        ensures
            r@ == self@.response_headers->0[index as int].0,
    {
        let headers = self.response_headers.as_ref().unwrap();
        headers[index].0.clone()
    }

    /// Value of the captured response header at `index`.
    pub fn response_get_header_value(&self, index: usize) -> (r: String)
        requires
            self@.response_headers matches Some(h) && index < h.len(),
        ensures
            r@ == self@.response_headers->0[index as int].1,
    {
        let headers = self.response_headers.as_ref().unwrap();
        headers[index].1.clone()
    }

    /// Number of captured response trailers; zero when the exchange produced
    /// none (or none have arrived yet).
    pub fn response_get_trailers_count(&self) -> (r: usize)
        ensures
            r as nat == match self@.response_trailers {
                Some(t) => t.len(),
                None => 0,
            },
    {
        match self.response_trailers.as_ref() {
            Some(trailers) => trailers.len(),
            None => 0,
        }
    }

    /// Name of the captured response trailer at `index`.
    pub fn response_get_trailers_key(&self, index: usize) -> (r: String)
        requires
            self@.response_trailers matches Some(t) && index < t.len(),
        ensures
            r@ == self@.response_trailers->0[index as int].0,
    {
        let trailers = self.response_trailers.as_ref().unwrap();
        trailers[index].0.clone()
    }

    /// Value of the captured response trailer at `index`.
    pub fn response_get_trailers_value(&self, index: usize) -> (r: String)
        requires
            self@.response_trailers matches Some(t) && index < t.len(),
        ensures
            r@ == self@.response_trailers->0[index as int].1,
    {
        let trailers = self.response_trailers.as_ref().unwrap();
        trailers[index].1.clone()
    }
}

/// With no body promised, setting up the outbound channel leaves the body
/// closed, so every later `write_body` is rejected with `AlreadyCompleted`
/// (by `write_body`'s contract on a closed body).
pub proof fn lemma_no_body_writes_rejected(pre: RequestContextView, post: RequestContextView)
    requires
        !pre.has_body,
        post == (RequestContextView { body_open: pre.has_body, ..pre }),
    ensures
        !post.body_open,
{
}

/// After `complete_body` (or any half-close) the body is closed, so every
/// later `write_body` is rejected with `AlreadyCompleted` (by `write_body`'s
/// contract on a closed body).
pub proof fn lemma_write_after_complete_rejected(pre: RequestContextView, post: RequestContextView)
    requires
        post == (RequestContextView { body_open: false, ..pre }),
    ensures
        !post.body_open,
{
}

} // verus!
