use grpc_demo::message::{Request, Response, ServiceError};
use grpc_demo::service::{DemoServiceImpl, StreamPolicy};
use grpc_demo::stream::{ServerStream, StreamState, STREAM_CAPACITY};

fn runtime() -> tokio::runtime::Runtime {
    tokio::runtime::Builder::new_multi_thread().worker_threads(2).build().unwrap()
}

/// Runs a producer against a bounded channel until it ends; returns it.
async fn produce(
    mut producer: ServerStream,
    tx: tokio::sync::mpsc::Sender<Response>,
) -> (ServerStream, Option<ServiceError>) {
    while let Some(response) = producer.next_response() {
        let accepted = tx.send(response).await.is_ok();
        if let Err(e) = producer.record_send(accepted) {
            return (producer, Some(e));
        }
    }
    (producer, None)
}

#[test]
fn bounded_channel_slow_consumer_gets_every_item() {
    runtime().block_on(async {
        let mut svc = DemoServiceImpl::new(StreamPolicy::Snapshot);
        for i in 0..12 {
            svc.unary(Some(Request::new(format!("q{}", i)))).unwrap();
        }
        let producer = svc.server_streaming(&Request::new(String::new())).unwrap();
        let (tx, mut rx) = tokio::sync::mpsc::channel(STREAM_CAPACITY);
        let task = tokio::spawn(produce(producer, tx));
        let mut got = Vec::new();
        while let Some(r) = rx.recv().await {
            for _ in 0..20 {
                tokio::task::yield_now().await;
            }
            got.push(r.result);
        }
        let (producer, err) = task.await.unwrap();
        assert_eq!(err, None);
        assert_eq!(producer.state(), StreamState::Completed);
        let expected: Vec<String> = (0..12).map(|i| format!("q{}", i)).collect();
        assert_eq!(got, expected);
    });
}

#[test]
fn bounded_channel_consumer_gone_stops_producer() {
    runtime().block_on(async {
        let items: Vec<String> = (0..20).map(|i| format!("t{}", i)).collect();
        let (tx, mut rx) = tokio::sync::mpsc::channel(STREAM_CAPACITY);
        let task = tokio::spawn(produce(ServerStream::new(items), tx));
        let first = rx.recv().await.unwrap();
        assert_eq!(first.result, "t0");
        drop(rx);
        let (producer, err) = task.await.unwrap();
        assert_eq!(err, Some(ServiceError::ProducerUnavailable));
        assert_eq!(producer.state(), StreamState::Cancelled);
        assert!(producer.sent_count() < 20);
        assert!(producer.next_response().is_none());
    });
}
