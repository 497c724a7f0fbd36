use viz_core::body::BodyKind;
use viz_core::frame::{Frame, PollOutcome};
use viz_core::metrics::Prometheus;

#[test]
fn call_renders_registered_metrics_as_a_full_body() {
    let registry = prometheus::Registry::new();
    let counter =
        prometheus::IntCounter::new("requests_total", "Total requests served").unwrap();
    registry.register(Box::new(counter.clone())).unwrap();
    counter.inc();
    counter.inc();

    let handler = Prometheus::new(registry);
    let reply = handler.call().expect("encoding a live registry succeeds");
    assert_eq!(reply.content_type, "text/plain; version=0.0.4");
    assert_eq!(reply.body.body_kind(), BodyKind::Full);

    let mut body = reply.body;
    let text = match body.poll_frame() {
        PollOutcome::Ready(Some(Ok(Frame::Data(d)))) => String::from_utf8(d).unwrap(),
        other => panic!("expected the encoded page in one frame, got {other:?}"),
    };
    assert!(text.contains("requests_total"));
    assert!(text.contains('2'));
    assert_eq!(body.poll_frame(), PollOutcome::Ready(None));
}

#[test]
fn call_on_an_empty_registry_yields_an_empty_page() {
    let handler = Prometheus::new(prometheus::Registry::new());
    let reply = handler.call().expect("an empty registry still encodes");
    assert_eq!(reply.content_type, "text/plain; version=0.0.4");
    let mut body = reply.body;
    match body.poll_frame() {
        PollOutcome::Ready(Some(Ok(Frame::Data(d)))) => assert!(d.is_empty()),
        other => panic!("expected one (empty) data frame, got {other:?}"),
    }
}
