//! What the session-based backends share: the frames in flight, the units retrieved ahead of a poll,
//! and the recovery ladder.
use crate::types::{EncodedFrame, HdrMeta, PayloadKind, PixelFormat};
use vstd::prelude::*;

verus! {

/// What the frame flow carries from one frame to the next.
#[derive(Clone, Copy, Debug)]
pub struct FlowState {
    pub frame_idx: i64,
    pub force_kf: bool,
    pub hdr_meta: Option<HdrMeta>,
    pub test_force_at: Option<i64>,
    /// Resets since the last unit.
    pub resets_without_output: u32,
}

/// A frame in flight: what its unit will carry.
#[derive(Clone, Copy, Debug, PartialEq, Eq, Structural)]
pub struct PendingUnit {
    pub pts_ns: u64,
    pub forced: bool,
    pub recovery_anchor: bool,
}

/// How the wait for room goes on.
#[derive(Clone, Copy, Debug, PartialEq, Eq, Structural)]
pub enum DrainStep {
    /// Look again at once.
    Again,
    /// Sleep a little first.
    Wait,
    /// The stream has ended; no more room will come.
    Ended,
}

/// What a poll does first.
pub enum PollBegin {
    /// No session, nothing to poll.
    Idle,
    Ready(EncodedFrame),
    /// Query the component for output.
    Query,
}

/// How a reset is carried out.
#[derive(Clone, Copy, Debug, PartialEq, Eq, Structural)]
pub enum ResetPlan {
    /// Nothing runs; the next frame builds anew.
    Idle,
    /// The session was dropped; the next frame opens a fresh one.
    TornDown,
    /// Restart the component in place.
    Rebuild,
}

/// The unit of a frame with the given content.
pub open spec fn unit_of(
    au: EncodedFrame,
    frame: PendingUnit,
    data: Seq<u8>,
    key: bool,
) -> bool {
    &&& au.data@ == data
    &&& au.pts_ns == frame.pts_ns
    &&& au.keyframe == (key || frame.forced)
    &&& au.recovery_anchor == frame.recovery_anchor
    &&& !au.chunk_aligned
}

/// The oldest frame in flight; a unit without one carries nothing.
pub open spec fn oldest(pending: Seq<PendingUnit>) -> PendingUnit {
    if pending.len() > 0 {
        pending[0]
    } else {
        PendingUnit { pts_ns: 0, forced: false, recovery_anchor: false }
    }
}

/// The frames in flight without the oldest.
pub open spec fn without_oldest(pending: Seq<PendingUnit>) -> Seq<PendingUnit> {
    if pending.len() > 0 {
        pending.drop_first()
    } else {
        pending
    }
}

/// One more reset without output, counted up to the limit of its word.
pub open spec fn reset_count(before: u32) -> u32 {
    if before < u32::MAX {
        (before + 1) as u32
    } else {
        u32::MAX
    }
}

/// The input layout for a sample depth.
pub open spec fn input_format(ten_bit: bool) -> PixelFormat {
    if ten_bit {
        PixelFormat::P010
    } else {
        PixelFormat::Nv12
    }
}

/// Why a frame is refused.
#[derive(Clone, Copy, Debug, PartialEq, Eq, Structural)]
pub enum InputError {
    /// The frame's size is not the encoder's.
    SizeMismatch { width: u32, height: u32 },
    /// A frame without a texture.
    NeedsTexture,
    /// The frame is not in the layout of the encoder's input.
    FormatMismatch { expected: PixelFormat, delivered: PixelFormat },
}

/// Why an encoder of size `own` refuses a frame.
pub open spec fn input_refusal(
    own: (u32, u32),
    ten_bit: bool,
    size: (u32, u32),
    payload: PayloadKind,
    format: PixelFormat,
) -> Option<InputError> {
    if size != own {
        Some(InputError::SizeMismatch { width: size.0, height: size.1 })
    } else if payload != PayloadKind::D3d11 {
        Some(InputError::NeedsTexture)
    } else if format != input_format(ten_bit) {
        Some(InputError::FormatMismatch { expected: input_format(ten_bit), delivered: format })
    } else {
        None
    }
}

/// Refuses a frame that does not fit an encoder of size `own`.
pub fn check_input(
    own: (u32, u32),
    ten_bit: bool,
    size: (u32, u32),
    payload: PayloadKind,
    format: PixelFormat,
) -> (r: Result<(), InputError>)
    ensures
        r == match input_refusal(own, ten_bit, size, payload, format) {
            Some(e) => Err::<(), InputError>(e),
            None => Ok::<(), InputError>(()),
        },
{
    if size.0 != own.0 || size.1 != own.1 {
        return Err(InputError::SizeMismatch { width: size.0, height: size.1 });
    }
    if payload != PayloadKind::D3d11 {
        return Err(InputError::NeedsTexture);
    }
    let expected = if ten_bit {
        PixelFormat::P010
    } else {
        PixelFormat::Nv12
    };
    if format != expected {
        return Err(InputError::FormatMismatch { expected, delivered: format });
    }
    Ok(())
}

/// Presentation times of the units in a queue.
pub open spec fn unit_times(units: Seq<EncodedFrame>) -> Seq<u64> {
    units.map_values(|u: EncodedFrame| u.pts_ns)
}

/// Every submitted frame is accounted for, and in submit order: first come the frames whose units were
/// delivered, then those whose units wait in a queue, then those in flight. Frames are told by their
/// presentation times.
pub open spec fn accounts(
    submitted: Seq<u64>,
    delivered: Seq<u64>,
    ready: Seq<EncodedFrame>,
    in_flight: Seq<u64>,
) -> bool {
    submitted == delivered + unit_times(ready) + in_flight
}

/// Handing out the first unit of the queue delivers the oldest frame that is owed, and no other.
pub proof fn law_queued_units_are_delivered_in_order(
    submitted: Seq<u64>,
    delivered: Seq<u64>,
    ready: Seq<EncodedFrame>,
    in_flight: Seq<u64>,
)
    requires
        accounts(submitted, delivered, ready, in_flight),
        ready.len() > 0,
    ensures
        accounts(submitted, delivered.push(ready[0].pts_ns), ready.drop_first(), in_flight),
        submitted[delivered.len() as int] == ready[0].pts_ns,
{
    assert(unit_times(ready)[0] == ready[0].pts_ns);
    assert(delivered.push(ready[0].pts_ns) + unit_times(ready.drop_first()) =~= delivered
        + unit_times(ready));
}

/// Where nothing waits in the queue, the unit of the oldest frame in flight is the next to deliver.
pub proof fn law_oldest_in_flight_is_next(
    submitted: Seq<u64>,
    delivered: Seq<u64>,
    ready: Seq<EncodedFrame>,
    in_flight: Seq<u64>,
)
    requires
        accounts(submitted, delivered, ready, in_flight),
        ready.len() == 0,
        in_flight.len() > 0,
    ensures
        accounts(submitted, delivered.push(in_flight[0]), ready, in_flight.drop_first()),
        submitted[delivered.len() as int] == in_flight[0],
{
    assert(unit_times(ready) =~= Seq::empty());
    assert(delivered.push(in_flight[0]) + in_flight.drop_first() =~= delivered + in_flight);
}

/// A frame that goes into flight is owed after all others.
pub(crate) proof fn lemma_submit_accounts(
    submitted: Seq<u64>,
    delivered: Seq<u64>,
    ready: Seq<EncodedFrame>,
    in_flight: Seq<u64>,
    pts_ns: u64,
)
    requires
        accounts(submitted, delivered, ready, in_flight),
    ensures
        accounts(submitted.push(pts_ns), delivered, ready, in_flight.push(pts_ns)),
{
    assert(submitted.push(pts_ns) =~= delivered + unit_times(ready) + in_flight.push(pts_ns));
}

/// A unit moved from flight to the end of the queue stays in its place.
pub(crate) proof fn lemma_retrieve_accounts(
    submitted: Seq<u64>,
    delivered: Seq<u64>,
    ready: Seq<EncodedFrame>,
    in_flight: Seq<u64>,
    after: Seq<EncodedFrame>,
)
    requires
        accounts(submitted, delivered, ready, in_flight),
        in_flight.len() > 0,
        after.len() == ready.len() + 1,
        after.drop_last() == ready,
        after.last().pts_ns == in_flight[0],
    ensures
        accounts(submitted, delivered, after, in_flight.drop_first()),
{
    assert(unit_times(after) =~= unit_times(ready).push(in_flight[0])) by {
        assert forall|i: int| 0 <= i < ready.len() implies unit_times(after)[i] == unit_times(ready)[i] by {
            assert(after.drop_last()[i] == ready[i]);
        }
    }
    assert(unit_times(after) + in_flight.drop_first() =~= unit_times(ready) + in_flight);
    assert(delivered + unit_times(after) + in_flight.drop_first() =~= delivered + (unit_times(after)
        + in_flight.drop_first()));
    assert(delivered + unit_times(ready) + in_flight =~= delivered + (unit_times(ready) + in_flight));
}

/// A frame is taken exactly where its size is the encoder's, it has a texture, and that is in the
/// input layout of the encoder's depth; of several faults the first in this order is told.
pub proof fn law_a_frame_is_taken_where_it_fits(
    own: (u32, u32),
    ten_bit: bool,
    size: (u32, u32),
    payload: PayloadKind,
    format: PixelFormat,
    r: Result<(), InputError>,
)
    requires
        call_ensures(check_input, (own, ten_bit, size, payload, format), r),
    ensures
        r is Ok <==> size == own && payload == PayloadKind::D3d11 && (if ten_bit {
            format == PixelFormat::P010
        } else {
            format == PixelFormat::Nv12
        }),
        r matches Err(e) ==> {
            &&& size != own <==> e == (InputError::SizeMismatch { width: size.0, height: size.1 })
            &&& e == InputError::NeedsTexture <==> size == own && payload != PayloadKind::D3d11
            &&& e is FormatMismatch ==> e == (InputError::FormatMismatch {
                expected: if ten_bit {
                    PixelFormat::P010
                } else {
                    PixelFormat::Nv12
                },
                delivered: format,
            })
        },
{
}

} // verus!
