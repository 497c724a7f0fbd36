use vstd::prelude::*;

use crate::body::{frame_step, Body};
use crate::error::{BodyError, StreamError};
use crate::frame::{Frame, FrameItem, PollOutcome};
use crate::stream::stream_step;

verus! {

/// Law: a body built over one full buffer yields exactly that buffer, in one
/// data frame, and is terminal afterwards; polling again after termination
/// yields the terminal result, not an error, forever.
pub proof fn law_full_body_drains_once(b: Body, d: Vec<u8>)
    requires
        b.steps() == seq![FrameItem::<BodyError>::Data(d)],
    ensures
        frame_step(b.steps()).0 == PollOutcome::Ready(Some(Ok::<Frame, BodyError>(Frame::Data(d)))),
        frame_step(b.steps()).1 == Seq::<FrameItem<BodyError>>::empty(),
        frame_step(frame_step(b.steps()).1) == (
            PollOutcome::<Option<Result<Frame, BodyError>>>::Ready(None),
            Seq::<FrameItem<BodyError>>::empty(),
        ),
{
    assert(b.steps().drop_first() =~= Seq::<FrameItem<BodyError>>::empty());
}

/// Law: a body with nothing left — an empty body from the start, or any
/// body already drained — answers every poll with the terminal result and
/// never changes again.
pub proof fn law_terminal_is_sticky(b: Body)
    requires
        b.steps().len() == 0,
    ensures
        frame_step(b.steps()) == (
            PollOutcome::<Option<Result<Frame, BodyError>>>::Ready(None),
            b.steps(),
        ),
{
}

/// Law: a dynamic source scripted to yield three chunks and then fail is
/// drained in exactly that order — first chunk, second, third, then the
/// error — and every poll after the error finds the body terminal, with no
/// resurrection of earlier data.
pub proof fn law_source_order_and_failure(c1: Vec<u8>, c2: Vec<u8>, c3: Vec<u8>, e: BodyError)
    ensures
        ({
            let s0 = seq![
                FrameItem::<BodyError>::Data(c1),
                FrameItem::<BodyError>::Data(c2),
                FrameItem::<BodyError>::Data(c3),
                FrameItem::<BodyError>::Fail(e),
            ];
            let (r1, s1) = frame_step(s0);
            let (r2, s2) = frame_step(s1);
            let (r3, s3) = frame_step(s2);
            let (r4, s4) = frame_step(s3);
            &&& r1 == PollOutcome::Ready(Some(Ok::<Frame, BodyError>(Frame::Data(c1))))
            &&& r2 == PollOutcome::Ready(Some(Ok::<Frame, BodyError>(Frame::Data(c2))))
            &&& r3 == PollOutcome::Ready(Some(Ok::<Frame, BodyError>(Frame::Data(c3))))
            &&& r4 == PollOutcome::<Option<Result<Frame, BodyError>>>::Ready(
                Some(Err(e)),
            )
            &&& s4 == Seq::<FrameItem<BodyError>>::empty()
            &&& frame_step(s4).0 == PollOutcome::<Option<Result<Frame, BodyError>>>::Ready(
                None,
            )
        }),
{
    let s0 = seq![
        FrameItem::<BodyError>::Data(c1),
        FrameItem::<BodyError>::Data(c2),
        FrameItem::<BodyError>::Data(c3),
        FrameItem::<BodyError>::Fail(e),
    ];
    assert(s0.drop_first() =~= seq![
        FrameItem::<BodyError>::Data(c2),
        FrameItem::<BodyError>::Data(c3),
        FrameItem::<BodyError>::Fail(e),
    ]);
    assert(s0.drop_first().drop_first() =~= seq![
        FrameItem::<BodyError>::Data(c3),
        FrameItem::<BodyError>::Fail(e),
    ]);
    assert(s0.drop_first().drop_first().drop_first() =~= seq![
        FrameItem::<BodyError>::Fail(e),
    ]);
}

/// Law: over every frame sequence, one pull through the byte-stream adapter
/// accounts for exactly the data that sequence owes: a yielded buffer is the
/// next owed chunk with the rest still owed by what remains, a pending pull
/// owes everything still, and an ended or failed stream owes nothing more.
/// The pull's outcome type can carry bytes only, so a trailer never surfaces
/// as stream data.
pub proof fn law_stream_accounts_for_all_data(s: Seq<FrameItem<BodyError>>)
    ensures
        ({
            let (r, rest) = stream_step(s);
            crate::stream::delivered_data(s) == match r {
                PollOutcome::Pending => crate::stream::delivered_data(rest),
                PollOutcome::Ready(None) => Seq::<Vec<u8>>::empty(),
                PollOutcome::Ready(Some(Ok(d))) => seq![d]
                    + crate::stream::delivered_data(rest),
                PollOutcome::Ready(Some(Err(_))) => Seq::<Vec<u8>>::empty(),
            }
        }),
    decreases s.len(),
{
    if s.len() > 0 {
        match s[0] {
            FrameItem::Trailers(_) => {
                law_stream_accounts_for_all_data(s.drop_first());
            },
            _ => {},
        }
    }
}

/// Law: pulled through the byte-stream adapter, a frame sequence carrying a
/// trailer between two data frames yields exactly the two data buffers, in
/// order, and then the terminal result; the trailer never surfaces as
/// stream data.
pub proof fn law_stream_skips_trailers(
    c1: Vec<u8>,
    t: Vec<(Vec<u8>, Vec<u8>)>,
    c2: Vec<u8>,
)
    ensures
        ({
            let s0 = seq![
                FrameItem::<BodyError>::Data(c1),
                FrameItem::<BodyError>::Trailers(t),
                FrameItem::<BodyError>::Data(c2),
            ];
            let (r1, s1) = stream_step(s0);
            let (r2, s2) = stream_step(s1);
            let (r3, _) = stream_step(s2);
            &&& r1 == PollOutcome::Ready(Some(Ok::<Vec<u8>, StreamError>(c1)))
            &&& r2 == PollOutcome::Ready(Some(Ok::<Vec<u8>, StreamError>(c2)))
            &&& r3 == PollOutcome::<Option<Result<Vec<u8>, StreamError>>>::Ready(None)
        }),
{
    reveal_with_fuel(stream_step, 4);
    let s0 = seq![
        FrameItem::<BodyError>::Data(c1),
        FrameItem::<BodyError>::Trailers(t),
        FrameItem::<BodyError>::Data(c2),
    ];
    assert(s0.drop_first() =~= seq![
        FrameItem::<BodyError>::Trailers(t),
        FrameItem::<BodyError>::Data(c2),
    ]);
    assert(s0.drop_first().drop_first() =~= seq![FrameItem::<BodyError>::Data(c2)]);
    assert(s0.drop_first().drop_first().drop_first() =~= Seq::<
        FrameItem<BodyError>,
    >::empty());
}

} // verus!
