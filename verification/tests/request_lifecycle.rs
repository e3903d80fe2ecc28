use yaha_native::primitives::WriteResult;
use yaha_native::request::YahaNativeRequestContext;

#[test]
fn new_request_starts_empty() {
    let ctx = YahaNativeRequestContext::request_new(7);
    assert_eq!(ctx.seq_id, 7);
    assert!(ctx.builder.is_some());
    assert!(!ctx.has_body);
    assert!(!ctx.completed);
    assert!(!ctx.cancel_requested);
    assert_eq!(ctx.response_get_headers_count(), 0);
    assert_eq!(ctx.response_get_trailers_count(), 0);
    assert!(ctx.last_error.is_none());
}

#[test]
fn setters_accumulate_builder_state() {
    let mut ctx = YahaNativeRequestContext::request_new(1);
    assert!(ctx.set_method("POST".to_string()));
    assert!(ctx.set_uri("https://example.com/path?q=1".to_string()));
    assert!(ctx.set_header("accept".to_string(), "text/plain".to_string()));
    assert!(ctx.set_header("x-a".to_string(), "1".to_string()));
    assert!(ctx.set_has_body(true));
    let builder = ctx.take_builder();
    assert_eq!(builder.method.as_deref(), Some("POST"));
    assert_eq!(builder.uri.as_deref(), Some("https://example.com/path?q=1"));
    assert_eq!(builder.headers.len(), 2);
    assert_eq!(builder.headers[0].0, "accept");
    assert_eq!(builder.headers[0].1, "text/plain");
    assert_eq!(builder.headers[1].0, "x-a");
    assert!(ctx.builder.is_none());
    assert!(ctx.has_body);
}

#[test]
fn set_uri_invalid_keeps_state_and_records_error() {
    let mut ctx = YahaNativeRequestContext::request_new(2);
    assert!(ctx.set_method("GET".to_string()));
    assert!(ctx.set_header("x-k".to_string(), "v".to_string()));
    assert!(ctx.set_uri("https://example.com/".to_string()));

    // An empty string is not a URI: rejected, nothing else moves.
    assert!(!ctx.set_uri("".to_string()));
    assert!(ctx.last_error.is_some());
    let builder = ctx.take_builder();
    assert_eq!(builder.method.as_deref(), Some("GET"));
    assert_eq!(builder.uri.as_deref(), Some("https://example.com/"));
    assert_eq!(builder.headers.len(), 1);
}

#[test]
fn take_last_error_is_one_shot() {
    let mut ctx = YahaNativeRequestContext::request_new(3);
    assert!(!ctx.set_uri("not a uri at all \u{7f}".to_string()));
    assert!(ctx.take_last_error().is_some());
    assert!(ctx.take_last_error().is_none());
}

#[test]
fn no_body_means_channel_closed_and_writes_rejected() {
    let mut ctx = YahaNativeRequestContext::request_new(4);
    assert!(ctx.set_has_body(false));
    let _rx = ctx.open_outbound_body();
    assert_eq!(ctx.write_body(&vec![1u8, 2, 3]), WriteResult::AlreadyCompleted);
    assert_eq!(ctx.write_body(&Vec::new()), WriteResult::AlreadyCompleted);
}

#[test]
fn write_body_success_then_full_then_rejected() {
    let mut ctx = YahaNativeRequestContext::request_new(5);
    assert!(ctx.set_has_body(true));
    let _rx = ctx.open_outbound_body();

    // A zero-buffer channel takes one chunk before the consumer drains it.
    assert_eq!(ctx.write_body(&vec![42u8; 16]), WriteResult::Success);
    assert_eq!(ctx.write_body(&vec![43u8; 16]), WriteResult::Full);

    assert!(ctx.complete_body());
    assert_eq!(ctx.write_body(&vec![44u8; 16]), WriteResult::AlreadyCompleted);
}

#[test]
fn complete_body_is_idempotent() {
    let mut ctx = YahaNativeRequestContext::request_new(6);
    assert!(ctx.set_has_body(true));
    let _rx = ctx.open_outbound_body();
    assert!(ctx.complete_body());
    assert!(ctx.complete_body());
    assert_eq!(ctx.write_body(&vec![1u8]), WriteResult::AlreadyCompleted);
}

#[test]
fn abort_sets_flag_and_signals_token() {
    let mut ctx = YahaNativeRequestContext::request_new(8);
    assert!(!ctx.cancellation_token().is_cancelled());
    ctx.abort();
    assert!(ctx.cancel_requested);
    assert!(ctx.cancellation_token().is_cancelled());
    // Re-signalling is allowed and changes nothing further.
    ctx.abort();
    assert!(ctx.cancel_requested);
}
