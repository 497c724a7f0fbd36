use viz_core::body::Body;
use viz_core::error::BodyError;
use viz_core::frame::{FrameItem, PollOutcome};
use viz_core::stream::ByteStream;

/// Pulls a byte stream to completion, collecting the buffers in order and
/// the stream-level error that ended it, if any.
fn drain_stream(mut stream: ByteStream) -> (Vec<Vec<u8>>, Option<BodyError>) {
    let mut buffers = Vec::new();
    loop {
        match stream.poll_next() {
            PollOutcome::Pending => continue,
            PollOutcome::Ready(None) => return (buffers, None),
            PollOutcome::Ready(Some(Ok(d))) => buffers.push(d),
            PollOutcome::Ready(Some(Err(e))) => return (buffers, Some(e.inner)),
        }
    }
}

#[test]
fn stream_skips_a_trailer_between_two_data_frames() {
    let trailer = vec![(b"grpc-status".to_vec(), b"0".to_vec())];
    let body = Body::boxed(vec![
        FrameItem::Data(b"c1".to_vec()),
        FrameItem::Trailers(trailer),
        FrameItem::Data(b"c2".to_vec()),
    ]);
    let mut stream = body.into_stream();
    assert_eq!(stream.poll_next(), PollOutcome::Ready(Some(Ok(b"c1".to_vec()))));
    // The trailer is consumed and discarded within this pull.
    assert_eq!(stream.poll_next(), PollOutcome::Ready(Some(Ok(b"c2".to_vec()))));
    assert_eq!(stream.poll_next(), PollOutcome::Ready(None));
}

#[test]
fn stream_wraps_frame_errors_without_losing_them() {
    let body = Body::incoming(
        vec![
            FrameItem::Data(b"rx".to_vec()),
            FrameItem::Fail("broken pipe".to_string()),
        ],
        0,
        None,
    );
    let (buffers, err) = drain_stream(body.into_stream());
    assert_eq!(buffers, vec![b"rx".to_vec()]);
    assert_eq!(err, Some(BodyError::Connection("broken pipe".to_string())));
}

#[test]
fn stream_over_empty_body_ends_immediately() {
    let mut stream = Body::empty().into_stream();
    assert_eq!(stream.size_hint(), (0, Some(0)));
    assert_eq!(stream.poll_next(), PollOutcome::Ready(None));
}

#[test]
fn stream_passes_pending_through() {
    let body = Body::boxed(vec![FrameItem::Pending, FrameItem::Data(b"later".to_vec())]);
    let mut stream = body.into_stream();
    assert_eq!(stream.poll_next(), PollOutcome::Pending);
    assert_eq!(stream.poll_next(), PollOutcome::Ready(Some(Ok(b"later".to_vec()))));
    assert_eq!(stream.poll_next(), PollOutcome::Ready(None));
}

#[test]
fn stream_size_hint_translates_the_frame_hint() {
    let full = Body::full(vec![0; 12]).into_stream();
    assert_eq!(full.size_hint(), (12, Some(12)));

    let boxed = Body::boxed(vec![]).into_stream();
    assert_eq!(boxed.size_hint(), (0, None));

    let incoming = Body::incoming(vec![], 3, Some(9)).into_stream();
    assert_eq!(incoming.size_hint(), (3, Some(9)));
}

#[test]
fn stream_size_hint_saturates_instead_of_overflowing() {
    let incoming = Body::incoming(vec![], u64::MAX, Some(u64::MAX)).into_stream();
    let (lower, upper) = incoming.size_hint();
    assert_eq!(lower, usize::MAX);
    assert_eq!(upper, Some(usize::MAX));
}
