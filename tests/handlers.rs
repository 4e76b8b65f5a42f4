use grpc_demo::bidi::{transform, BidiAction, BidiStream};
use grpc_demo::client::ClientStream;
use grpc_demo::message::{Fault, Request, ServiceError};
use grpc_demo::query_log::QueryLog;
use grpc_demo::service::{DemoServiceImpl, StreamPolicy};
use grpc_demo::stream::{ServerStream, StreamState, STREAM_CAPACITY};
use grpc_demo::text::unary_reply_text;
use grpc_demo::tokens::{
    draw_token_chars, get_random_strings, tokens_from_chars, TOKEN_COUNT, TOKEN_LEN,
};

fn req(q: &str) -> Request {
    Request::new(q.to_string())
}

fn fault() -> Fault {
    Fault::new(14, "connection reset".to_string())
}

fn log_entries(svc: &DemoServiceImpl) -> Vec<String> {
    svc.log().snapshot()
}

/// Drains a producer, every send accepted.
fn drain(stream: &mut ServerStream) -> Vec<String> {
    let mut out = Vec::new();
    while let Some(r) = stream.next_response() {
        out.push(r.result);
        assert_eq!(stream.record_send(true), Ok(()));
    }
    out
}

#[test]
fn unary_replies_and_records_query() {
    let mut svc = DemoServiceImpl::new(StreamPolicy::Snapshot);
    let r = svc.unary(Some(req("hello"))).unwrap();
    assert_eq!(r.result, "Result for hello");
    assert_eq!(log_entries(&svc), vec!["hello".to_string()]);
}

#[test]
fn unary_undelivered_request_is_invalid_and_log_untouched() {
    let mut svc = DemoServiceImpl::new(StreamPolicy::Snapshot);
    svc.unary(Some(req("a"))).unwrap();
    assert_eq!(svc.unary(None), Err(ServiceError::InvalidRequest));
    assert_eq!(log_entries(&svc), vec!["a".to_string()]);
}

#[test]
fn unary_calls_each_leave_exactly_one_entry() {
    let mut svc = DemoServiceImpl::default();
    let queries = ["q3", "q1", "q4", "q2", "q5"];
    for q in queries.iter() {
        svc.unary(Some(req(q))).unwrap();
    }
    let mut log = log_entries(&svc);
    assert_eq!(log.len(), queries.len());
    log.sort();
    assert_eq!(log, vec!["q1", "q2", "q3", "q4", "q5"]);
}

#[test]
fn unary_reply_text_has_prefix() {
    assert_eq!(unary_reply_text(""), "Result for ");
    assert_eq!(unary_reply_text("x y"), "Result for x y");
}

#[test]
fn query_log_appends_in_order() {
    let mut log = QueryLog::new();
    assert_eq!(log.len(), 0);
    log.append("b".to_string());
    log.append("a".to_string());
    log.append("b".to_string());
    assert_eq!(log.len(), 3);
    assert_eq!(log.snapshot(), vec!["b", "a", "b"]);
}

#[test]
fn server_streaming_snapshot_ignores_later_appends() {
    let mut svc = DemoServiceImpl::new(StreamPolicy::Snapshot);
    svc.unary(Some(req("X"))).unwrap();
    svc.unary(Some(req("Y"))).unwrap();
    let mut stream = svc.server_streaming(&req("")).unwrap();
    let first = stream.next_response().unwrap();
    assert_eq!(first.result, "X");
    stream.record_send(true).unwrap();
    svc.unary(Some(req("Z"))).unwrap();
    let rest = drain(&mut stream);
    assert_eq!(rest, vec!["Y"]);
    assert_eq!(stream.state(), StreamState::Completed);
    assert_eq!(log_entries(&svc), vec!["X", "Y", "Z"]);
}

#[test]
fn server_streaming_empty_log_completes_at_once() {
    let svc = DemoServiceImpl::new(StreamPolicy::Snapshot);
    let stream = svc.server_streaming(&req("q")).unwrap();
    assert_eq!(stream.state(), StreamState::Completed);
    assert!(stream.next_response().is_none());
}

#[test]
fn server_streaming_random_tokens() {
    let svc = DemoServiceImpl::default();
    assert_eq!(svc.policy(), StreamPolicy::RandomTokens);
    let mut stream = svc.server_streaming(&req("ignored")).unwrap();
    assert_eq!(stream.state(), StreamState::Created);
    let tokens = drain(&mut stream);
    assert_eq!(tokens.len(), TOKEN_COUNT);
    for t in tokens.iter() {
        assert_eq!(t.chars().count(), TOKEN_LEN);
        assert!(t.chars().all(|c| c.is_ascii_alphanumeric()));
    }
}

#[test]
fn random_strings_are_drawn_afresh() {
    let a = get_random_strings();
    let b = get_random_strings();
    assert_eq!(a.len(), 5);
    assert!(a.iter().all(|t| t.len() == 10 && t.bytes().all(|c| c.is_ascii_alphanumeric())));
    assert_ne!(a, b);
}

#[test]
fn server_streaming_disabled_is_unimplemented() {
    let svc = DemoServiceImpl::new(StreamPolicy::Disabled);
    assert!(matches!(svc.server_streaming(&req("q")), Err(ServiceError::Unimplemented)));
}

#[test]
fn slow_consumer_delays_but_loses_nothing() {
    let items: Vec<String> = (0..10).map(|i| format!("item{}", i)).collect();
    let mut stream = ServerStream::new(items.clone());
    let mut channel: Vec<String> = Vec::new();
    let mut received: Vec<String> = Vec::new();
    let mut tick = 0;
    loop {
        // the consumer takes one item every third tick
        if tick % 3 == 0 && !channel.is_empty() {
            received.push(channel.remove(0));
        }
        match stream.next_response() {
            Some(r) if channel.len() < STREAM_CAPACITY => {
                channel.push(r.result);
                stream.record_send(true).unwrap();
            }
            Some(_) => {}
            None if channel.is_empty() => break,
            None => {}
        }
        tick += 1;
    }
    assert_eq!(received, items);
    assert_eq!(stream.sent_count(), 10);
    assert_eq!(stream.state(), StreamState::Completed);
}

#[test]
fn producer_with_consumer_gone_is_unavailable() {
    let mut stream = ServerStream::new(vec!["a".to_string(), "b".to_string()]);
    stream.record_send(true).unwrap();
    assert_eq!(stream.state(), StreamState::Streaming);
    assert_eq!(stream.record_send(false), Err(ServiceError::ProducerUnavailable));
    assert_eq!(stream.state(), StreamState::Cancelled);
    assert!(stream.next_response().is_none());
}

#[test]
fn cancel_after_completion_keeps_completed() {
    let mut stream = ServerStream::new(vec!["a".to_string()]);
    stream.record_send(true).unwrap();
    stream.cancel();
    assert_eq!(stream.state(), StreamState::Completed);
}

fn aggregate(items: Vec<Result<Request, Fault>>) -> Result<String, ServiceError> {
    let svc = DemoServiceImpl::default();
    let mut call = svc.client_streaming();
    for item in items {
        call.push(item);
        if call.is_failed() {
            break;
        }
    }
    call.finish().map(|r| r.result)
}

#[test]
fn client_streaming_joins_with_commas() {
    assert_eq!(aggregate(vec![Ok(req("A")), Ok(req("B")), Ok(req("C"))]), Ok("A,B,C".to_string()));
}

#[test]
fn client_streaming_empty_stream_gives_empty_result() {
    assert_eq!(aggregate(vec![]), Ok(String::new()));
}

#[test]
fn client_streaming_single_item_has_no_separator() {
    assert_eq!(aggregate(vec![Ok(req("only"))]), Ok("only".to_string()));
}

#[test]
fn client_streaming_separator_follows_position_not_text() {
    assert_eq!(aggregate(vec![Ok(req("")), Ok(req("B"))]), Ok(",B".to_string()));
    assert_eq!(aggregate(vec![Ok(req("")), Ok(req(""))]), Ok(",".to_string()));
}

#[test]
fn client_streaming_fault_fails_the_call() {
    let r = aggregate(vec![Ok(req("A")), Ok(req("B")), Err(fault()), Ok(req("C"))]);
    assert_eq!(r, Err(ServiceError::StreamFault(fault())));
}

#[test]
fn client_stream_ignores_items_after_fault() {
    let mut call = ClientStream::new();
    call.push(Ok(req("A")));
    call.push(Err(fault()));
    call.push(Ok(req("B")));
    assert!(call.is_failed());
    assert_eq!(call.finish(), Err(ServiceError::StreamFault(fault())));
}

fn run_bidi(call: &mut BidiStream, items: Vec<Option<Result<Request, Fault>>>) -> Vec<BidiAction> {
    items.into_iter().map(|i| call.on_inbound(i)).collect()
}

fn emitted(actions: &[BidiAction]) -> Vec<String> {
    actions
        .iter()
        .filter_map(|a| match a {
            BidiAction::Emit(r) => Some(r.result.clone()),
            _ => None,
        })
        .collect()
}

#[test]
fn transform_upper_cases() {
    assert_eq!(transform(&req("x")).result, "X");
    assert_eq!(transform(&req("Hello, wörld")).result, "HELLO, WÖRLD");
    assert_eq!(transform(&req("")).result, "");
}

#[test]
fn bidi_transforms_each_item_in_order() {
    let svc = DemoServiceImpl::default();
    let mut call = svc.bidirectional_streaming();
    assert_eq!(call.state(), StreamState::Created);
    let actions = run_bidi(&mut call, vec![Some(Ok(req("x"))), Some(Ok(req("y"))), Some(Ok(req("z")))]);
    assert_eq!(emitted(&actions), vec!["X", "Y", "Z"]);
    assert_eq!(call.state(), StreamState::Streaming);
    assert!(matches!(call.on_inbound(None), BidiAction::End));
    assert_eq!(call.state(), StreamState::Completed);
    assert!(matches!(call.on_inbound(Some(Ok(req("w")))), BidiAction::Stop));
}

#[test]
fn bidi_item_output_independent_of_stream() {
    let mut short = BidiStream::new();
    let mut long = BidiStream::new();
    let a = run_bidi(&mut short, vec![Some(Ok(req("ab")))]);
    let b = run_bidi(&mut long, vec![Some(Ok(req("zz"))), Some(Ok(req("q"))), Some(Ok(req("ab")))]);
    assert_eq!(emitted(&a)[0], emitted(&b)[2]);
}

#[test]
fn bidi_fault_after_two_items() {
    let mut call = BidiStream::new();
    let actions = run_bidi(
        &mut call,
        vec![Some(Ok(req("a"))), Some(Ok(req("b"))), Some(Err(fault())), Some(Ok(req("c")))],
    );
    assert_eq!(emitted(&actions), vec!["A", "B"]);
    assert!(matches!(&actions[2], BidiAction::Fail(ServiceError::StreamFault(f)) if *f == fault()));
    assert!(matches!(actions[3], BidiAction::Stop));
    assert_eq!(call.state(), StreamState::Errored);
}

#[test]
fn bidi_cancel_stops_production() {
    let mut call = BidiStream::new();
    let first = run_bidi(&mut call, vec![Some(Ok(req("a"))), Some(Ok(req("b")))]);
    assert_eq!(emitted(&first), vec!["A", "B"]);
    call.cancel();
    assert_eq!(call.state(), StreamState::Cancelled);
    let rest = run_bidi(&mut call, vec![Some(Ok(req("c"))), Some(Err(fault())), None]);
    assert!(rest.iter().all(|a| matches!(a, BidiAction::Stop)));
    assert_eq!(call.state(), StreamState::Cancelled);
}

#[test]
fn tokens_are_cut_from_draws_in_order() {
    let chars: Vec<char> = "abcdefghijABCDEFGHIJ0123456789klmnopqrstKLMNOPQRST".chars().collect();
    let tokens = tokens_from_chars(&chars);
    assert_eq!(
        tokens,
        vec!["abcdefghij", "ABCDEFGHIJ", "0123456789", "klmnopqrst", "KLMNOPQRST"]
    );
    for (i, t) in tokens.iter().enumerate() {
        for (j, c) in t.chars().enumerate() {
            assert_eq!(c, chars[i * TOKEN_LEN + j]);
        }
    }
}

#[test]
fn draw_token_chars_draws_exactly_n() {
    assert!(draw_token_chars(0).is_empty());
    let chars = draw_token_chars(TOKEN_COUNT * TOKEN_LEN);
    assert_eq!(chars.len(), 50);
    assert!(chars.iter().all(|c| c.is_ascii_alphanumeric()));
}
