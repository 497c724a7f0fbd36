use viz_core::body::{Body, BodyKind, BodyState};
use viz_core::error::BodyError;
use viz_core::frame::{Frame, FrameItem, PollOutcome, SizeHint, StreamItem};

/// Polls a body to completion, collecting the data chunks in order and the
/// error that ended the stream, if any. Trailer frames are counted.
fn drain(mut body: Body) -> (Vec<Vec<u8>>, usize, Option<BodyError>) {
    let mut chunks = Vec::new();
    let mut trailers: usize = 0;
    loop {
        match body.poll_frame() {
            PollOutcome::Pending => continue,
            PollOutcome::Ready(None) => return (chunks, trailers, None),
            PollOutcome::Ready(Some(Ok(Frame::Data(d)))) => chunks.push(d),
            PollOutcome::Ready(Some(Ok(Frame::Trailers(_)))) => trailers += 1,
            PollOutcome::Ready(Some(Err(e))) => return (chunks, trailers, Some(e)),
        }
    }
}

#[test]
fn full_body_yields_bytes_in_one_frame_then_terminal() {
    let payload = b"hello body".to_vec();
    let mut body = Body::full(payload.clone());
    assert!(!body.is_end_stream());
    match body.poll_frame() {
        PollOutcome::Ready(Some(Ok(Frame::Data(d)))) => assert_eq!(d, payload),
        other => panic!("expected one data frame, got {other:?}"),
    }
    assert!(body.is_end_stream());
    assert_eq!(body.poll_frame(), PollOutcome::Ready(None));
    assert_eq!(body.poll_frame(), PollOutcome::Ready(None));
}

#[test]
fn full_body_size_hint_is_exact_and_shrinks_to_zero() {
    let mut body = Body::full(vec![1, 2, 3, 4, 5]);
    assert_eq!(body.size_hint(), SizeHint { lower: 5, upper: Some(5) });
    let _ = body.poll_frame();
    assert_eq!(body.size_hint(), SizeHint { lower: 0, upper: Some(0) });
}

#[test]
fn empty_body_is_terminal_from_the_first_poll() {
    let mut body = Body::empty();
    assert_eq!(body.body_kind(), BodyKind::Empty);
    assert_eq!(body.size_hint(), SizeHint { lower: 0, upper: Some(0) });
    assert!(body.is_end_stream());
    assert_eq!(body.poll_frame(), PollOutcome::Ready(None));
    assert_eq!(body.poll_frame(), PollOutcome::Ready(None));
}

#[test]
fn default_body_is_empty() {
    let body = Body::default();
    assert_eq!(body.body_kind(), BodyKind::Empty);
}

#[test]
fn from_static_and_from_text_carry_the_same_bytes() {
    let (chunks, _, err) = drain(Body::from_static(b"static bytes"));
    assert_eq!(chunks, vec![b"static bytes".to_vec()]);
    assert!(err.is_none());

    let (chunks, _, err) = drain(Body::from_text("some text"));
    assert_eq!(chunks, vec![b"some text".to_vec()]);
    assert!(err.is_none());
}

#[test]
fn scripted_source_yields_chunks_in_order_then_its_error() {
    let items = vec![
        FrameItem::Data(b"c1".to_vec()),
        FrameItem::Data(b"c2".to_vec()),
        FrameItem::Data(b"c3".to_vec()),
        FrameItem::Fail(BodyError::Source("E".to_string())),
    ];
    let mut body = Body::boxed(items);
    let mut seen = Vec::new();
    let error = loop {
        match body.poll_frame() {
            PollOutcome::Ready(Some(Ok(Frame::Data(d)))) => seen.push(d),
            PollOutcome::Ready(Some(Err(e))) => break e,
            other => panic!("unexpected outcome {other:?}"),
        }
    };
    assert_eq!(seen, vec![b"c1".to_vec(), b"c2".to_vec(), b"c3".to_vec()]);
    assert_eq!(error, BodyError::Source("E".to_string()));
    // After the failure the body stays terminal: no resurrection of c1.
    assert_eq!(body.poll_frame(), PollOutcome::Ready(None));
    assert_eq!(body.poll_frame(), PollOutcome::Ready(None));
}

#[test]
fn from_stream_maps_chunks_and_captures_external_errors() {
    let items = vec![
        StreamItem::Pending,
        StreamItem::Chunk(b"part".to_vec()),
        StreamItem::Fail("upstream gone".to_string()),
    ];
    let body = Body::from_stream(items);
    assert_eq!(body.body_kind(), BodyKind::Boxed);
    let (chunks, trailers, err) = drain(body);
    assert_eq!(chunks, vec![b"part".to_vec()]);
    assert_eq!(trailers, 0);
    assert_eq!(err, Some(BodyError::External("upstream gone".to_string())));
}

#[test]
fn boxed_body_reports_unknown_size_and_never_claims_end() {
    let body = Body::boxed(vec![]);
    assert_eq!(body.size_hint(), SizeHint { lower: 0, upper: None });
    assert!(!body.is_end_stream());
}

#[test]
fn incoming_body_reports_the_connection_hint_and_unifies_errors() {
    let items = vec![
        FrameItem::Pending,
        FrameItem::Data(b"ab".to_vec()),
        FrameItem::Fail("connection reset".to_string()),
    ];
    let mut body = Body::incoming(items, 2, Some(10));
    assert_eq!(body.body_kind(), BodyKind::Incoming);
    assert_eq!(body.size_hint(), SizeHint { lower: 2, upper: Some(10) });
    assert!(!body.is_end_stream());
    assert_eq!(body.poll_frame(), PollOutcome::Pending);
    match body.poll_frame() {
        PollOutcome::Ready(Some(Ok(Frame::Data(d)))) => assert_eq!(d, b"ab".to_vec()),
        other => panic!("expected data, got {other:?}"),
    }
    match body.poll_frame() {
        PollOutcome::Ready(Some(Err(e))) => {
            assert_eq!(e, BodyError::Connection("connection reset".to_string()));
        }
        other => panic!("expected connection error, got {other:?}"),
    }
    assert_eq!(body.poll_frame(), PollOutcome::Ready(None));
    assert!(body.is_end_stream());
}

#[test]
fn wrap_of_a_boxed_body_is_a_no_op() {
    let items = vec![
        FrameItem::Data(b"x".to_vec()),
        FrameItem::Fail(BodyError::Source("late".to_string())),
    ];
    let wrapped = Body::wrap(Body::boxed(items));
    assert_eq!(wrapped.body_kind(), BodyKind::Boxed);
    let rewrapped = Body::wrap(wrapped);
    assert_eq!(rewrapped.body_kind(), BodyKind::Boxed);
    let (chunks, _, err) = drain(rewrapped);
    assert_eq!(chunks, vec![b"x".to_vec()]);
    assert_eq!(err, Some(BodyError::Source("late".to_string())));
}

#[test]
fn wrap_preserves_each_variant_observable_data() {
    let (chunks, _, err) = drain(Body::wrap(Body::empty()));
    assert!(chunks.is_empty());
    assert!(err.is_none());

    let (chunks, _, err) = drain(Body::wrap(Body::full(b"whole".to_vec())));
    assert_eq!(chunks, vec![b"whole".to_vec()]);
    assert!(err.is_none());

    let incoming = Body::incoming(
        vec![
            FrameItem::Data(b"live".to_vec()),
            FrameItem::Fail("torn down".to_string()),
        ],
        0,
        None,
    );
    let wrapped = Body::wrap(incoming);
    assert_eq!(wrapped.body_kind(), BodyKind::Boxed);
    let (chunks, _, err) = drain(wrapped);
    assert_eq!(chunks, vec![b"live".to_vec()]);
    assert_eq!(err, Some(BodyError::Connection("torn down".to_string())));
}

#[test]
fn dropping_a_body_mid_drain_is_deterministic_for_each_variant() {
    // Each variant exclusively owns its buffers, so dropping it mid-drain
    // frees them right here; nothing keeps producing into a discarded body.
    let mut full = Body::full(b"unfinished".to_vec());
    let _ = full.size_hint();
    drop(full);

    let mut boxed = Body::boxed(vec![
        FrameItem::Data(b"one".to_vec()),
        FrameItem::Data(b"two".to_vec()),
    ]);
    let _ = boxed.poll_frame();
    drop(boxed);

    let mut incoming = Body::incoming(vec![FrameItem::Data(b"rx".to_vec())], 0, None);
    let _ = incoming.poll_frame();
    drop(incoming);
}

#[test]
fn body_state_tags_are_distinct() {
    assert_eq!(BodyState::Normal, BodyState::Normal.clone());
    assert_ne!(BodyState::Normal, BodyState::Empty);
    assert_ne!(BodyState::Empty, BodyState::Used);
}
