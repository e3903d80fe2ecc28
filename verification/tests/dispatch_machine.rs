use yaha_native::dispatch::{
    response_event, trailers_event, DispatchAction, DispatchEvent, DispatchState,
};
use yaha_native::primitives::{CompletionReason, WriteResult, YahaHttpVersion};
use yaha_native::request::YahaNativeRequestContext;

fn pairs(input: &[(&str, &str)]) -> Vec<(String, String)> {
    input.iter().map(|p| (p.0.to_string(), p.1.to_string())).collect()
}

#[test]
fn scenario_success_sequence() {
    // Request with 3 header pairs and no body; the server replies 200 with
    // 2 headers and one 100-byte frame, no trailers.
    let mut ctx = YahaNativeRequestContext::request_new(11);
    assert!(ctx.set_method("GET".to_string()));
    assert!(ctx.set_uri("https://example.com/".to_string()));
    assert!(ctx.set_header("h1".to_string(), "v1".to_string()));
    assert!(ctx.set_header("h2".to_string(), "v2".to_string()));
    assert!(ctx.set_header("h3".to_string(), "v3".to_string()));
    assert!(ctx.set_has_body(false));
    let _rx = ctx.open_outbound_body();
    let builder = ctx.take_builder();
    assert_eq!(builder.headers.len(), 3);

    let (s1, a1) = ctx.dispatch_step(
        DispatchState::Sending,
        DispatchEvent::ResponseReceived {
            status: 200,
            version: YahaHttpVersion::Http2,
            headers: pairs(&[("content-type", "text/plain"), ("server", "t")]),
        },
    );
    assert_eq!(s1, DispatchState::Streaming { trailers_received: false });
    assert_eq!(
        a1,
        Some(DispatchAction::NotifyHeaders { status: 200, version: YahaHttpVersion::Http2 })
    );

    let (s2, a2) = ctx.dispatch_step(s1, DispatchEvent::DataFrame { length: 100 });
    assert_eq!(s2, DispatchState::Streaming { trailers_received: false });
    assert_eq!(a2, Some(DispatchAction::NotifyData { length: 100 }));

    let (s3, a3) = ctx.dispatch_step(s2, DispatchEvent::EndOfStream);
    assert_eq!(s3, DispatchState::Terminated);
    assert_eq!(
        a3,
        Some(DispatchAction::NotifyComplete {
            reason: CompletionReason::Success,
            h2_error_code: 0,
        })
    );

    assert!(ctx.completed);
    assert_eq!(ctx.response_status, 200);
    assert_eq!(ctx.response_version, YahaHttpVersion::Http2);
    assert_eq!(ctx.response_get_headers_count(), 2);
    assert_eq!(ctx.response_get_header_key(0), "content-type");
    assert_eq!(ctx.response_get_header_value(0), "text/plain");
    assert_eq!(ctx.response_get_header_key(1), "server");
    assert_eq!(ctx.response_get_trailers_count(), 0);
}

#[test]
fn scenario_stream_reset_error_code_8() {
    // Request with a body; the server resets the stream mid-response with
    // reset code 8 (CANCEL): the terminal notification is Error with that
    // code.
    let mut ctx = YahaNativeRequestContext::request_new(12);
    assert!(ctx.set_has_body(true));
    let _rx = ctx.open_outbound_body();
    assert_eq!(ctx.write_body(&vec![1u8; 8]), WriteResult::Success);

    let (s1, _a1) = ctx.dispatch_step(
        DispatchState::Sending,
        DispatchEvent::ResponseReceived {
            status: 200,
            version: YahaHttpVersion::Http2,
            headers: Vec::new(),
        },
    );
    let (s2, a2) = ctx.dispatch_step(
        s1,
        DispatchEvent::FrameError { h2_code: Some(8), message: "stream reset".to_string() },
    );
    assert_eq!(s2, DispatchState::Terminated);
    assert_eq!(
        a2,
        Some(DispatchAction::NotifyComplete {
            reason: CompletionReason::Error,
            h2_error_code: 8,
        })
    );
    assert_eq!(ctx.take_last_error().as_deref(), Some("stream reset"));
}

#[test]
fn send_failure_without_reset_code_reports_zero() {
    let mut ctx = YahaNativeRequestContext::request_new(13);
    let (s, a) = ctx.dispatch_step(
        DispatchState::Sending,
        DispatchEvent::SendFailed { h2_code: None, message: "connect refused".to_string() },
    );
    assert_eq!(s, DispatchState::Terminated);
    assert_eq!(
        a,
        Some(DispatchAction::NotifyComplete {
            reason: CompletionReason::Error,
            h2_error_code: 0,
        })
    );
    assert_eq!(ctx.take_last_error().as_deref(), Some("connect refused"));
}

#[test]
fn send_failure_with_reset_code_reports_it() {
    let mut ctx = YahaNativeRequestContext::request_new(14);
    let (_s, a) = ctx.dispatch_step(
        DispatchState::Sending,
        DispatchEvent::SendFailed { h2_code: Some(11), message: "reset".to_string() },
    );
    assert_eq!(
        a,
        Some(DispatchAction::NotifyComplete {
            reason: CompletionReason::Error,
            h2_error_code: 11,
        })
    );
}

#[test]
fn client_missing_fails_immediately_with_error() {
    let mut ctx = YahaNativeRequestContext::request_new(15);
    let (s, a) = ctx.dispatch_step(DispatchState::Sending, DispatchEvent::ClientMissing);
    assert_eq!(s, DispatchState::Terminated);
    assert_eq!(
        a,
        Some(DispatchAction::NotifyComplete {
            reason: CompletionReason::Error,
            h2_error_code: 0,
        })
    );
    let message = ctx.take_last_error().expect("last error set");
    assert!(message.contains("has not been built"));
}

#[test]
fn abort_before_dispatch_reports_aborted_and_nothing_else() {
    let mut ctx = YahaNativeRequestContext::request_new(16);
    ctx.abort();
    let (s1, a1) = ctx.dispatch_step(DispatchState::Sending, DispatchEvent::Cancelled);
    assert_eq!(s1, DispatchState::Terminated);
    assert_eq!(
        a1,
        Some(DispatchAction::NotifyComplete {
            reason: CompletionReason::Aborted,
            h2_error_code: 0,
        })
    );
    // The terminal state absorbs anything the transport still produces:
    // zero data callbacks, and never a second terminal callback.
    let (s2, a2) = ctx.dispatch_step(s1, DispatchEvent::DataFrame { length: 10 });
    assert_eq!(s2, DispatchState::Terminated);
    assert_eq!(a2, None);
    let (s3, a3) = ctx.dispatch_step(s2, DispatchEvent::EndOfStream);
    assert_eq!(s3, DispatchState::Terminated);
    assert_eq!(a3, None);
}

#[test]
fn abort_mid_stream_reports_aborted_once() {
    let mut ctx = YahaNativeRequestContext::request_new(17);
    let (s1, _a1) = ctx.dispatch_step(
        DispatchState::Sending,
        DispatchEvent::ResponseReceived {
            status: 200,
            version: YahaHttpVersion::Http11,
            headers: Vec::new(),
        },
    );
    let (s2, a2) = ctx.dispatch_step(s1, DispatchEvent::Cancelled);
    assert_eq!(s2, DispatchState::Terminated);
    assert_eq!(
        a2,
        Some(DispatchAction::NotifyComplete {
            reason: CompletionReason::Aborted,
            h2_error_code: 0,
        })
    );
    let (_s3, a3) = ctx.dispatch_step(s2, DispatchEvent::Cancelled);
    assert_eq!(a3, None);
}

#[test]
fn no_data_callback_before_headers() {
    // A frame that somehow precedes the response is ignored: the headers
    // callback always comes before any data callback.
    let mut ctx = YahaNativeRequestContext::request_new(18);
    let (s, a) = ctx.dispatch_step(DispatchState::Sending, DispatchEvent::DataFrame {
        length: 5,
    });
    assert_eq!(s, DispatchState::Sending);
    assert_eq!(a, None);
}

#[test]
fn trailers_capture_and_half_close() {
    let mut ctx = YahaNativeRequestContext::request_new(19);
    assert!(ctx.set_has_body(true));
    let _rx = ctx.open_outbound_body();
    assert_eq!(ctx.write_body(&vec![9u8; 4]), WriteResult::Success);

    let (s1, _a1) = ctx.dispatch_step(
        DispatchState::Sending,
        DispatchEvent::ResponseReceived {
            status: 200,
            version: YahaHttpVersion::Http2,
            headers: Vec::new(),
        },
    );
    let (s2, a2) = ctx.dispatch_step(
        s1,
        DispatchEvent::TrailersFrame { trailers: pairs(&[("grpc-status", "0")]) },
    );
    assert_eq!(s2, DispatchState::Streaming { trailers_received: true });
    assert_eq!(a2, None);

    // A trailer frame half-closes the outbound body.
    assert_eq!(ctx.write_body(&vec![9u8; 4]), WriteResult::AlreadyCompleted);
    assert_eq!(ctx.response_get_trailers_count(), 1);
    assert_eq!(ctx.response_get_trailers_key(0), "grpc-status");
    assert_eq!(ctx.response_get_trailers_value(0), "0");

    let (s3, a3) = ctx.dispatch_step(s2, DispatchEvent::EndOfStream);
    assert_eq!(s3, DispatchState::Terminated);
    assert_eq!(
        a3,
        Some(DispatchAction::NotifyComplete {
            reason: CompletionReason::Success,
            h2_error_code: 0,
        })
    );
    assert!(ctx.completed);
}

#[test]
fn response_event_carries_header_map_entries() {
    let mut map = hyper::HeaderMap::new();
    map.insert("content-type", hyper::header::HeaderValue::from_static("text/html"));
    map.append("set-cookie", hyper::header::HeaderValue::from_static("a=1"));
    map.append("set-cookie", hyper::header::HeaderValue::from_static("b=2"));
    let e = response_event(204, YahaHttpVersion::Http2, &map);
    match e {
        DispatchEvent::ResponseReceived { status, version, headers } => {
            assert_eq!(status, 204);
            assert_eq!(version, YahaHttpVersion::Http2);
            assert_eq!(headers.len(), 3);
            assert_eq!(headers[0], ("content-type".to_string(), "text/html".to_string()));
            assert_eq!(headers[1], ("set-cookie".to_string(), "a=1".to_string()));
            assert_eq!(headers[2], ("set-cookie".to_string(), "b=2".to_string()));
        }
        _ => panic!("expected a response event"),
    }
}

#[test]
fn trailers_event_carries_header_map_entries() {
    let mut map = hyper::HeaderMap::new();
    map.insert("grpc-status", hyper::header::HeaderValue::from_static("0"));
    let e = trailers_event(&map);
    match e {
        DispatchEvent::TrailersFrame { trailers } => {
            assert_eq!(trailers, vec![("grpc-status".to_string(), "0".to_string())]);
        }
        _ => panic!("expected a trailers event"),
    }
}

#[test]
fn second_trailer_frame_does_not_overwrite() {
    let mut ctx = YahaNativeRequestContext::request_new(20);
    let (s1, _a1) = ctx.dispatch_step(
        DispatchState::Sending,
        DispatchEvent::ResponseReceived {
            status: 200,
            version: YahaHttpVersion::Http2,
            headers: Vec::new(),
        },
    );
    let (s2, a2) = ctx.dispatch_step(
        s1,
        DispatchEvent::TrailersFrame { trailers: pairs(&[("grpc-status", "0")]) },
    );
    assert_eq!(s2, DispatchState::Streaming { trailers_received: true });
    assert_eq!(a2, None);

    // The trailer list is populated at most once: a later trailer frame
    // changes nothing.
    let (s3, a3) = ctx.dispatch_step(
        s2,
        DispatchEvent::TrailersFrame { trailers: pairs(&[("grpc-status", "13")]) },
    );
    assert_eq!(s3, DispatchState::Streaming { trailers_received: true });
    assert_eq!(a3, None);
    assert_eq!(ctx.response_get_trailers_count(), 1);
    assert_eq!(ctx.response_get_trailers_value(0), "0");
}
