use vstd::prelude::*;
use vstd::slice::slice_to_vec;
use vstd::string::StringSliceAdditionalSpecFns;

use crate::error::BodyError;
use crate::frame::{Frame, FrameItem, PollOutcome, SizeHint, StreamItem};

verus! {

/// A body's lifecycle tag as tracked by the request layer: freshly
/// initialized, known to be empty, or already consumed.
#[derive(Clone, Debug, Eq, PartialEq, Structural)]
pub enum BodyState {
    /// The body is initialized and not yet consumed.
    Normal,
    /// The body is empty.
    Empty,
    /// The body has been consumed.
    Used,
}

/// Which of the four payload representations a body currently is. The
/// variant is fixed at construction and never changes in place.
#[derive(Clone, Copy, Debug, Eq, PartialEq, Structural)]
pub enum BodyKind {
    /// No payload at all.
    Empty,
    /// The whole payload is already materialized as one buffer.
    Full,
    /// A type-erased dynamic body implementation.
    Boxed,
    /// A live, connection-bound, partially received payload.
    Incoming,
}

/// The payload of an HTTP request or response: exactly one of four
/// representations, chosen at construction, whose remaining data shrinks as
/// it is consumed through [`Body::poll_frame`].
#[derive(Debug)]
pub enum Body {
    /// An empty body: terminal from the start.
    Empty,
    /// A body that consists of a single buffer, yielded as one data frame.
    Full(FullBody),
    /// A boxed dynamic body: a type-erased source whose failures already
    /// speak the unified error type, enforced at boxing time.
    Boxed(BoxedBody),
    /// An incoming body: bytes arriving from a connection's receive state.
    Incoming(IncomingBody),
}

/// The single-buffer representation: the buffer is present until the first
/// successful poll hands it out, and absent (terminal) afterwards.
#[derive(Debug)]
pub struct FullBody {
    data: Option<Vec<u8>>,
}

/// The type-erased representation: the wrapped implementation is modeled by
/// the sequence of outcomes its successive polls will produce, with errors
/// already converted to the unified type when the source was boxed.
#[derive(Debug)]
pub struct BoxedBody {
    items: Vec<FrameItem<BodyError>>,
}

/// The connection-bound representation: the connection's receive state is
/// modeled by the outcomes it will hand over, with its native error payloads
/// not yet unified, plus the size hint the connection exposes.
#[derive(Debug)]
pub struct IncomingBody {
    items: Vec<FrameItem<String>>,
    lower: u64,
    upper: Option<u64>,
}

/// How a connection-native poll outcome is normalized: data and trailers
/// pass through unchanged, and a connection failure becomes the unified
/// connection error.
pub open spec fn lift_incoming(item: FrameItem<String>) -> FrameItem<BodyError> {
    match item {
        FrameItem::Pending => FrameItem::Pending,
        FrameItem::Data(d) => FrameItem::Data(d),
        FrameItem::Trailers(t) => FrameItem::Trailers(t),
        FrameItem::Fail(e) => FrameItem::Fail(BodyError::Connection(e)),
    }
}

/// How a plain byte stream's outcome becomes a frame outcome: each chunk
/// becomes a data frame and each externally typed failure is captured, by
/// bounded conversion, as the unified external error.
pub open spec fn lift_stream(item: StreamItem) -> FrameItem<BodyError> {
    match item {
        StreamItem::Pending => FrameItem::Pending,
        StreamItem::Chunk(d) => FrameItem::Data(d),
        StreamItem::Fail(e) => FrameItem::Fail(BodyError::External(e)),
    }
}

/// The frame-polling protocol, as one step over the normalized outcome
/// sequence `s` of a body: the result of the next poll, paired with the
/// outcome sequence that remains afterwards. An exhausted body stays
/// terminal forever, and a failure drops everything behind it, so no data
/// is resurrected after an error.
pub open spec fn frame_step(s: Seq<FrameItem<BodyError>>) -> (PollOutcome<
    Option<Result<Frame, BodyError>>,
>, Seq<FrameItem<BodyError>>) {
    if s.len() == 0 {
        (PollOutcome::Ready(None), s)
    } else {
        match s[0] {
            FrameItem::Pending => (PollOutcome::Pending, s.drop_first()),
            FrameItem::Data(d) => (
                PollOutcome::Ready(Some(Ok(Frame::Data(d)))),
                s.drop_first(),
            ),
            FrameItem::Trailers(t) => (
                PollOutcome::Ready(Some(Ok(Frame::Trailers(t)))),
                s.drop_first(),
            ),
            FrameItem::Fail(e) => (
                PollOutcome::Ready(Some(Err(e))),
                Seq::empty(),
            ),
        }
    }
}

impl FullBody {
    /// The remaining outcomes: one data frame while the buffer is unclaimed,
    /// nothing once it has been handed out.
    pub closed spec fn steps(self) -> Seq<FrameItem<BodyError>> {
        match self.data {
            Some(d) => seq![FrameItem::Data(d)],
            None => Seq::empty(),
        }
    }

    fn poll(&mut self) -> (r: PollOutcome<Option<Result<Frame, BodyError>>>)
        ensures
            (r, final(self).steps()) == frame_step(old(self).steps()),
    {
        let mut taken: Option<Vec<u8>> = None;
        core::mem::swap(&mut self.data, &mut taken);
        match taken {
            Some(d) => {
                proof {
                    assert(old(self).steps().drop_first() =~= Seq::<
                        FrameItem<BodyError>,
                    >::empty());
                }
                PollOutcome::Ready(Some(Ok(Frame::Data(d))))
            },
            None => PollOutcome::Ready(None),
        }
    }
}

impl BoxedBody {
    /// The remaining outcomes, exactly as the wrapped implementation will
    /// produce them.
    pub closed spec fn steps(self) -> Seq<FrameItem<BodyError>> {
        self.items@
    }

    fn poll(&mut self) -> (r: PollOutcome<Option<Result<Frame, BodyError>>>)
        ensures
            (r, final(self).steps()) == frame_step(old(self).steps()),
    {
        if self.items.len() == 0 {
            PollOutcome::Ready(None)
        } else {
            let item = self.items.remove(0);
            proof {
                assert(old(self).items@.remove(0) =~= old(self).items@.drop_first());
            }
            match item {
                FrameItem::Pending => PollOutcome::Pending,
                FrameItem::Data(d) => PollOutcome::Ready(Some(Ok(Frame::Data(d)))),
                FrameItem::Trailers(t) => PollOutcome::Ready(
                    Some(Ok(Frame::Trailers(t))),
                ),
                FrameItem::Fail(e) => {
                    self.items.clear();
                    PollOutcome::Ready(Some(Err(e)))
                },
            }
        }
    }
}

impl IncomingBody {
    /// The remaining outcomes, normalized: the connection's native failures
    /// become unified connection errors.
    pub closed spec fn steps(self) -> Seq<FrameItem<BodyError>> {
        self.items@.map_values(|item: FrameItem<String>| lift_incoming(item))
    }

    /// The size hint the connection exposes: (lower bound, optional upper
    /// bound) on the remaining payload bytes.
    pub closed spec fn hint(self) -> (u64, Option<u64>) {
        (self.lower, self.upper)
    }

    fn poll(&mut self) -> (r: PollOutcome<Option<Result<Frame, BodyError>>>)
        ensures
            (r, final(self).steps()) == frame_step(old(self).steps()),
            final(self).hint() == old(self).hint(),
    {
        if self.items.len() == 0 {
            PollOutcome::Ready(None)
        } else {
            let item = self.items.remove(0);
            proof {
                assert(old(self).steps()[0] == lift_incoming(old(self).items@[0]));
                assert(self.items@.map_values(
                    |it: FrameItem<String>| lift_incoming(it),
                ) =~= old(self).steps().drop_first());
            }
            match item {
                FrameItem::Pending => PollOutcome::Pending,
                FrameItem::Data(d) => PollOutcome::Ready(Some(Ok(Frame::Data(d)))),
                FrameItem::Trailers(t) => PollOutcome::Ready(
                    Some(Ok(Frame::Trailers(t))),
                ),
                FrameItem::Fail(e) => {
                    self.items.clear();
                    PollOutcome::Ready(Some(Err(BodyError::Connection(e))))
                },
            }
        }
    }
}

impl Body {
    /// The normalized sequence of outcomes that this body's remaining polls
    /// will produce, whichever representation it holds.
    pub closed spec fn steps(self) -> Seq<FrameItem<BodyError>> {
        match self {
            Body::Empty => Seq::empty(),
            Body::Full(f) => f.steps(),
            Body::Boxed(b) => b.steps(),
            Body::Incoming(i) => i.steps(),
        }
    }

    /// Which of the four representations this body holds.
    pub closed spec fn kind(self) -> BodyKind {
        match self {
            Body::Empty => BodyKind::Empty,
            Body::Full(_) => BodyKind::Full,
            Body::Boxed(_) => BodyKind::Boxed,
            Body::Incoming(_) => BodyKind::Incoming,
        }
    }

    /// The size hint of the underlying connection; meaningful for an
    /// incoming body only.
    pub closed spec fn incoming_hint(self) -> (u64, Option<u64>) {
        match self {
            Body::Incoming(i) => i.hint(),
            _ => (0u64, None),
        }
    }

    /// Creates an empty body: zero reported size and terminal from the very
    /// first poll.
    pub fn empty() -> (r: Body)
        ensures
            r.kind() == BodyKind::Empty,
            r.steps() == Seq::<FrameItem<BodyError>>::empty(),
    {
        Body::Empty
    }

    /// Creates a body whose whole payload is the given buffer, to be yielded
    /// as exactly one data frame; ownership is transferred, not copied.
    pub fn full(data: Vec<u8>) -> (r: Body)
        ensures
            r.kind() == BodyKind::Full,
            r.steps() == seq![FrameItem::<BodyError>::Data(data)],
    {
        Body::Full(FullBody { data: Some(data) })
    }

    /// Creates a body over a static byte slice.
    pub fn from_static(data: &'static [u8]) -> (r: Body)
        ensures
            r.kind() == BodyKind::Full,
            r.steps().len() == 1,
            r.steps()[0] matches FrameItem::Data(d) && d@ == data@,
    {
        Body::full(slice_to_vec(data))
    }

    /// Creates a body over the UTF-8 bytes of a text value.
    pub fn from_text(text: &str) -> (r: Body)
        ensures
            r.kind() == BodyKind::Full,
            r.steps().len() == 1,
            r.steps()[0] matches FrameItem::Data(d) && d@ == text.spec_bytes(),
    {
        Body::full(slice_to_vec(text.as_bytes()))
    }

    /// Collapses this body into the boxed representation. When the body is
    /// already boxed this is a no-op returning it unchanged — an explicit
    /// fast-path tag check, so repeated re-wrapping never stacks another
    /// layer. In every case the observable outcome sequence is preserved.
    pub fn wrap(body: Body) -> (r: Body)
        ensures
            r.kind() == BodyKind::Boxed,
            body.kind() == BodyKind::Boxed ==> r == body,
            r.steps() == body.steps(),
    {
        match body {
            Body::Boxed(b) => Body::Boxed(b),
            Body::Empty => Body::Boxed(BoxedBody { items: Vec::new() }),
            Body::Full(f) => {
                let mut items: Vec<FrameItem<BodyError>> = Vec::new();
                let mut taken = f;
                let mut data: Option<Vec<u8>> = None;
                core::mem::swap(&mut taken.data, &mut data);
                match data {
                    Some(d) => {
                        items.push(FrameItem::Data(d));
                        proof {
                            assert(items@ =~= body.steps());
                        }
                    },
                    None => {
                        proof {
                            assert(items@ =~= body.steps());
                        }
                    },
                }
                Body::Boxed(BoxedBody { items })
            },
            Body::Incoming(i) => {
                let IncomingBody { items, lower: _, upper: _ } = i;
                Body::Boxed(BoxedBody { items: lift_incoming_items(items) })
            },
        }
    }

    /// Creates a boxed body directly from the outcomes a dynamic source will
    /// produce; its failures must already speak the unified error type.
    pub fn boxed(items: Vec<FrameItem<BodyError>>) -> (r: Body)
        ensures
            r.kind() == BodyKind::Boxed,
            r.steps() == items@,
    {
        Body::Boxed(BoxedBody { items })
    }

    /// Creates a body from a fallible byte stream: each chunk becomes a data
    /// frame and each failure is captured as the unified external error. The
    /// source is wrapped, not polled: no outcome is consumed ahead of the
    /// consumer's own pulls.
    pub fn from_stream(items: Vec<StreamItem>) -> (r: Body)
        ensures
            r.kind() == BodyKind::Boxed,
            r.steps() == items@.map_values(|item: StreamItem| lift_stream(item)),
    {
        Body::Boxed(BoxedBody { items: lift_stream_items(items) })
    }

    /// Creates an incoming body over a connection's receive state: the
    /// outcomes the connection will hand over, still carrying its native
    /// error payloads, and the size hint it exposes.
    pub fn incoming(items: Vec<FrameItem<String>>, lower: u64, upper: Option<u64>) -> (r:
        Body)
        ensures
            r.kind() == BodyKind::Incoming,
            r.steps() == items@.map_values(|item: FrameItem<String>| lift_incoming(item)),
            r.incoming_hint() == (lower, upper),
    {
        Body::Incoming(IncomingBody { items, lower, upper })
    }

    /// Polls for the next frame, non-blocking: one step of [`frame_step`]
    /// over this body's outcome sequence. Dispatches on the active variant
    /// and normalizes its native result; the variant itself never changes,
    /// and completion is terminal and sticky.
    pub fn poll_frame(&mut self) -> (r: PollOutcome<Option<Result<Frame, BodyError>>>)
        ensures
            (r, final(self).steps()) == frame_step(old(self).steps()),
            final(self).kind() == old(self).kind(),
            final(self).incoming_hint() == old(self).incoming_hint(),
    {
        match self {
            Body::Empty => PollOutcome::Ready(None),
            Body::Full(f) => f.poll(),
            Body::Boxed(b) => b.poll(),
            Body::Incoming(i) => i.poll(),
        }
    }

    /// Reports which of the four representations this body holds.
    pub fn body_kind(&self) -> (k: BodyKind)
        ensures
            k == self.kind(),
    {
        match self {
            Body::Empty => BodyKind::Empty,
            Body::Full(_) => BodyKind::Full,
            Body::Boxed(_) => BodyKind::Boxed,
            Body::Incoming(_) => BodyKind::Incoming,
        }
    }

    /// Answers, without polling, whether this stream is already known to be
    /// finished: always for an empty body, never for a boxed one (its inner
    /// state is opaque), and by the remaining data for the other two.
    pub fn is_end_stream(&self) -> (r: bool)
        ensures
            r == match self.kind() {
                BodyKind::Empty => true,
                BodyKind::Boxed => false,
                BodyKind::Full => self.steps().len() == 0,
                BodyKind::Incoming => self.steps().len() == 0,
            },
    {
        match self {
            Body::Empty => true,
            Body::Boxed(_) => false,
            Body::Full(f) => f.data.is_none(),
            Body::Incoming(i) => i.items.len() == 0,
        }
    }

    /// Reports the expected size range without polling, from cheap
    /// variant-local metadata: exactly zero for an empty or drained full
    /// body, the remembered buffer length for an undrained full body,
    /// unknown for a boxed body, and the connection's own hint for an
    /// incoming body.
    pub fn size_hint(&self) -> (h: SizeHint)
        ensures
            self.kind() == BodyKind::Empty ==> h.lower == 0 && h.upper == Some(0u64),
            self.kind() == BodyKind::Full && self.steps().len() == 0 ==> h.lower == 0
                && h.upper == Some(0u64),
            self.kind() == BodyKind::Full && self.steps().len() > 0 ==> (
            self.steps()[0] matches FrameItem::Data(d) && h.lower == d@.len()
                && h.upper == Some(h.lower)),
            self.kind() == BodyKind::Boxed ==> h.lower == 0 && h.upper is None,
            self.kind() == BodyKind::Incoming ==> h.lower == self.incoming_hint().0
                && h.upper == self.incoming_hint().1,
    {
        match self {
            Body::Empty => SizeHint { lower: 0, upper: Some(0) },
            Body::Full(f) => match &f.data {
                Some(d) => {
                    let n = d.len() as u64;
                    SizeHint { lower: n, upper: Some(n) }
                },
                None => SizeHint { lower: 0, upper: Some(0) },
            },
            Body::Boxed(_) => SizeHint { lower: 0, upper: None },
            Body::Incoming(i) => SizeHint { lower: i.lower, upper: i.upper },
        }
    }
}

impl Default for Body {
    /// The default body is the empty one.
    fn default() -> (r: Body)
        ensures
            r.kind() == BodyKind::Empty,
            r.steps() == Seq::<FrameItem<BodyError>>::empty(),
    {
        Body::Empty
    }
}

/// Normalizes a connection's scripted outcomes, converting each native
/// failure payload into the unified connection error.
fn lift_incoming_items(items: Vec<FrameItem<String>>) -> (r: Vec<FrameItem<BodyError>>)
    ensures
        r@ == items@.map_values(|item: FrameItem<String>| lift_incoming(item)),
{
    let ghost orig = items@;
    let mut rest = items;
    let mut out: Vec<FrameItem<BodyError>> = Vec::new();
    while rest.len() > 0
        invariant
            out@.len() + rest@.len() == orig.len(),
            rest@ == orig.skip(out@.len() as int),
            out@ == orig.take(out@.len() as int).map_values(
                |item: FrameItem<String>| lift_incoming(item),
            ),
        decreases rest@.len(),
    {
        let ghost k = out@.len() as int;
        let item = rest.remove(0);
        proof {
            assert(item == orig[k]);
            assert(rest@ =~= orig.skip(k + 1));
        }
        let lifted = match item {
            FrameItem::Pending => FrameItem::Pending,
            FrameItem::Data(d) => FrameItem::Data(d),
            FrameItem::Trailers(t) => FrameItem::Trailers(t),
            FrameItem::Fail(e) => FrameItem::Fail(BodyError::Connection(e)),
        };
        out.push(lifted);
        proof {
            assert(out@ =~= orig.take(k + 1).map_values(
                |it: FrameItem<String>| lift_incoming(it),
            ));
        }
    }
    proof {
        assert(out@ =~= orig.map_values(|item: FrameItem<String>| lift_incoming(item)));
    }
    out
}

/// Converts a byte stream's scripted outcomes into frame outcomes, capturing
/// each externally typed failure as the unified external error.
fn lift_stream_items(items: Vec<StreamItem>) -> (r: Vec<FrameItem<BodyError>>)
    ensures
        r@ == items@.map_values(|item: StreamItem| lift_stream(item)),
{
    let ghost orig = items@;
    let mut rest = items;
    let mut out: Vec<FrameItem<BodyError>> = Vec::new();
    while rest.len() > 0
        invariant
            out@.len() + rest@.len() == orig.len(),
            rest@ == orig.skip(out@.len() as int),
            out@ == orig.take(out@.len() as int).map_values(
                |item: StreamItem| lift_stream(item),
            ),
        decreases rest@.len(),
    {
        let ghost k = out@.len() as int;
        let item = rest.remove(0);
        proof {
            assert(item == orig[k]);
            assert(rest@ =~= orig.skip(k + 1));
        }
        let lifted = match item {
            StreamItem::Pending => FrameItem::Pending,
            StreamItem::Chunk(d) => FrameItem::Data(d),
            StreamItem::Fail(e) => FrameItem::Fail(BodyError::External(e)),
        };
        out.push(lifted);
        proof {
            assert(out@ =~= orig.take(k + 1).map_values(
                |it: StreamItem| lift_stream(it),
            ));
        }
    }
    proof {
        assert(out@ =~= orig.map_values(|item: StreamItem| lift_stream(item)));
    }
    out
}

} // verus!
