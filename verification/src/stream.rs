use vstd::prelude::*;

use crate::body::{frame_step, Body, BodyKind};
use crate::error::{BodyError, StreamError};
use crate::frame::{Frame, FrameItem, PollOutcome};

verus! {

/// The byte-stream protocol, as one pull over the body's normalized outcome
/// sequence `s`: the frame adapter is polled, any trailer frame is discarded
/// — treated as "keep polling", never as data — and only data frames are
/// surfaced, with frame-level errors wrapped into the stream error shape.
pub open spec fn stream_step(s: Seq<FrameItem<BodyError>>) -> (PollOutcome<
    Option<Result<Vec<u8>, StreamError>>,
>, Seq<FrameItem<BodyError>>)
    decreases s.len(),
{
    if s.len() == 0 {
        (PollOutcome::Ready(None), s)
    } else {
        match s[0] {
            FrameItem::Pending => (PollOutcome::Pending, s.drop_first()),
            FrameItem::Data(d) => (PollOutcome::Ready(Some(Ok(d))), s.drop_first()),
            FrameItem::Trailers(_) => stream_step(s.drop_first()),
            FrameItem::Fail(e) => (
                PollOutcome::Ready(Some(Err(StreamError { inner: e }))),
                Seq::empty(),
            ),
        }
    }
}

/// All the data chunks a frame sequence still owes its consumer, in order:
/// everything up to the end of the sequence or its first failure, with
/// pending markers and trailers contributing nothing.
pub open spec fn delivered_data(s: Seq<FrameItem<BodyError>>) -> Seq<Vec<u8>>
    decreases s.len(),
{
    if s.len() == 0 {
        Seq::empty()
    } else {
        match s[0] {
            FrameItem::Data(d) => seq![d] + delivered_data(s.drop_first()),
            FrameItem::Fail(_) => Seq::empty(),
            FrameItem::Pending => delivered_data(s.drop_first()),
            FrameItem::Trailers(_) => delivered_data(s.drop_first()),
        }
    }
}

/// A secondary view of a body as a lazy, finite, non-restartable sequence of
/// plain byte buffers, for consumers uninterested in frame and trailer
/// structure. Built strictly on top of the frame-polling adapter.
pub struct ByteStream {
    body: Body,
}

impl ByteStream {
    /// The outcome sequence of the underlying body.
    pub closed spec fn steps(self) -> Seq<FrameItem<BodyError>> {
        self.body.steps()
    }

    /// The representation the underlying body holds.
    pub closed spec fn kind(self) -> BodyKind {
        self.body.kind()
    }

    /// The underlying connection's size hint, for an incoming body.
    pub closed spec fn incoming_hint(self) -> (u64, Option<u64>) {
        self.body.incoming_hint()
    }

    /// Pulls the next byte buffer, non-blocking: one step of [`stream_step`]
    /// over the body's outcome sequence. Trailer frames are consumed and
    /// discarded within the pull, and a frame-level error is surfaced
    /// wrapped, not lost.
    pub fn poll_next(&mut self) -> (r: PollOutcome<Option<Result<Vec<u8>, StreamError>>>)
        ensures
            (r, final(self).steps()) == stream_step(old(self).steps()),
            final(self).kind() == old(self).kind(),
            final(self).incoming_hint() == old(self).incoming_hint(),
    {
        loop
            invariant
                stream_step(self.body.steps()) == stream_step(old(self).steps()),
                self.body.kind() == old(self).kind(),
                self.body.incoming_hint() == old(self).incoming_hint(),
            decreases self.body.steps().len(),
        {
            let ghost before = self.body.steps();
            let polled = self.body.poll_frame();
            match polled {
                PollOutcome::Pending => {
                    return PollOutcome::Pending;
                },
                PollOutcome::Ready(None) => {
                    return PollOutcome::Ready(None);
                },
                PollOutcome::Ready(Some(Ok(frame))) => match frame {
                    Frame::Data(d) => {
                        return PollOutcome::Ready(Some(Ok(d)));
                    },
                    Frame::Trailers(_) => {
                        // Discarded: keep polling within this pull.
                    },
                },
                PollOutcome::Ready(Some(Err(e))) => {
                    return PollOutcome::Ready(Some(Err(StreamError { inner: e })));
                },
            }
        }
    }

    /// Translates the frame-level size hint into the stream-level numeric
    /// range, saturating at the platform's maximum rather than overflowing
    /// when the frame-level hint exceeds it.
    pub fn size_hint(&self) -> (r: (usize, Option<usize>))
        ensures
            self.kind() == BodyKind::Empty ==> r == (0usize, Some(0usize)),
            self.kind() == BodyKind::Boxed ==> r == (0usize, None::<usize>),
            self.kind() == BodyKind::Full && self.steps().len() == 0 ==> r == (
                0usize,
                Some(0usize),
            ),
            self.kind() == BodyKind::Full && self.steps().len() > 0 ==> (
            self.steps()[0] matches FrameItem::Data(d) && r.0 == sat_usize(
                d@.len() as u64,
            ) && r.1 == Some(sat_usize(d@.len() as u64))),
            self.kind() == BodyKind::Incoming ==> r.0 == sat_usize(
                self.incoming_hint().0,
            ) && r.1 == match self.incoming_hint().1 {
                Some(u) => Some(sat_usize(u)),
                None => None,
            },
    {
        let h = self.body.size_hint();
        let lower = sat_usize_exec(h.lower);
        let upper = match h.upper {
            Some(u) => Some(sat_usize_exec(u)),
            None => None,
        };
        (lower, upper)
    }
}

impl Body {
    /// Re-views this body as a plain byte stream over the same data.
    pub fn into_stream(self) -> (r: ByteStream)
        ensures
            r.steps() == self.steps(),
            r.kind() == self.kind(),
            r.incoming_hint() == self.incoming_hint(),
    {
        ByteStream { body: self }
    }
}

/// A frame-level byte count squeezed into the stream-level range: saturated
/// at the platform maximum where it does not fit.
pub open spec fn sat_usize(x: u64) -> usize {
    if x > usize::MAX as u64 {
        usize::MAX
    } else {
        x as usize
    }
}

fn sat_usize_exec(x: u64) -> (r: usize)
    ensures
        r == sat_usize(x),
{
    if x > usize::MAX as u64 {
        usize::MAX
    } else {
        x as usize
    }
}

} // verus!
