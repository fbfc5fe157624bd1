//! What holds of the NVENC backend across its operations.
use crate::flow::{accounts, lemma_retrieve_accounts, lemma_submit_accounts};
use crate::nvenc::{
    inflight_setting, Absorbed, NvencD3d11Encoder, NvencError, NvencFlow, PendingFrame, PicturePlan,
    RetrieveDone, RetrieveJob, POOL,
};
use crate::types::AuChunk;
use vstd::prelude::*;

verus! {

/// The frames in flight are the latest ones submitted, each on the output buffer of its turn.
pub open spec fn in_turn(pending: Seq<PendingFrame>, bitstreams: Seq<u64>, next: int) -> bool {
    &&& bitstreams.len() == POOL
    &&& pending.len() <= next
    &&& forall|i: int|
        0 <= i < pending.len() ==> (#[trigger] pending[i]).bitstream == bitstreams[(next
            - pending.len() + i) % (POOL as int)]
}

/// No output buffer occurs twice.
pub open spec fn buffers_distinct(bitstreams: Seq<u64>) -> bool {
    forall|i: int, j: int|
        0 <= i < bitstreams.len() && 0 <= j < bitstreams.len() && i != j ==> (#[trigger] bitstreams[i])
            != (#[trigger] bitstreams[j])
}

/// While fewer frames are in flight than the pool has buffers, the buffer whose turn it is belongs to
/// none of them.
pub proof fn law_output_buffer_is_free(
    pending: Seq<PendingFrame>,
    bitstreams: Seq<u64>,
    next: int,
    i: int,
)
    requires
        in_turn(pending, bitstreams, next),
        buffers_distinct(bitstreams),
        pending.len() < POOL,
        0 <= i < pending.len(),
    ensures
        pending[i].bitstream != bitstreams[next % (POOL as int)],
{
    let turn = next - pending.len() + i;
    assert(next - POOL < turn < next);
    let a = turn % (POOL as int);
    let b = next % (POOL as int);
    assert(a != b) by {
        if a == b {
            vstd::arithmetic::div_mod::lemma_fundamental_div_mod(turn, POOL as int);
            vstd::arithmetic::div_mod::lemma_fundamental_div_mod(next, POOL as int);
            let q = next / (POOL as int) - turn / (POOL as int);
            assert(next - turn == 8 * q);
        }
    }
}

/// Submitting on the buffer of the turn keeps the frames in turn.
pub proof fn law_submit_keeps_turns(
    pending: Seq<PendingFrame>,
    bitstreams: Seq<u64>,
    next: int,
    frame: PendingFrame,
)
    requires
        in_turn(pending, bitstreams, next),
        frame.bitstream == bitstreams[next % (POOL as int)],
    ensures
        in_turn(pending.push(frame), bitstreams, next + 1),
{
    let after = pending.push(frame);
    assert forall|i: int| 0 <= i < after.len() implies (#[trigger] after[i]).bitstream == bitstreams[(
    next + 1 - after.len() + i) % (POOL as int)] by {
        if i < pending.len() {
            assert(after[i] == pending[i]);
        }
    }
}

/// Retrieving the oldest frame keeps the others in turn.
pub proof fn law_retrieve_keeps_turns(pending: Seq<PendingFrame>, bitstreams: Seq<u64>, next: int)
    requires
        in_turn(pending, bitstreams, next),
        pending.len() > 0,
    ensures
        in_turn(pending.drop_first(), bitstreams, next),
{
    let after = pending.drop_first();
    assert forall|i: int| 0 <= i < after.len() implies (#[trigger] after[i]).bitstream == bitstreams[(
    next - after.len() + i) % (POOL as int)] by {
        assert(after[i] == pending[i + 1]);
    }
}

/// On the two-thread path a frame that may be submitted always leaves a buffer to spare, whatever the
/// setting and the capturer's ring say.
pub proof fn law_two_thread_flight_fits_the_pool(
    flow: NvencFlow,
    setting: Option<Seq<char>>,
    env_cap: usize,
    in_flight: nat,
)
    requires
        env_cap == inflight_setting(setting),
        in_flight < flow.inflight_limit(env_cap),
    ensures
        in_flight + 1 < POOL,
{
}

/// The bytes of the chunks, put together.
pub open spec fn contents(chunks: Seq<AuChunk>) -> Seq<u8>
    decreases chunks.len(),
{
    if chunks.len() == 0 {
        Seq::empty()
    } else {
        contents(chunks.drop_last()) + chunks.last().data@
    }
}

/// A run of deliveries out of samples of one growing unit: `states[i]` delivers `chunks[i]` out of a
/// sample with `slices[i]` slices in the unit's first `lens[i]` bytes, and becomes `states[i + 1]`.
/// Nothing of the unit was delivered before.
pub open spec fn delivery_run(
    states: Seq<NvencD3d11Encoder>,
    slices: Seq<u32>,
    lens: Seq<int>,
    chunks: Seq<AuChunk>,
    unit: Seq<u8>,
) -> bool {
    &&& states.len() == chunks.len() + 1
    &&& slices.len() == chunks.len()
    &&& lens.len() == chunks.len()
    &&& states[0].flow.chunk is None
    &&& unit.len() <= usize::MAX
    &&& forall|i: int|
        0 <= i < chunks.len() ==> {
            &&& states[i].flow.chunk_progress().emitted <= lens[i] <= unit.len()
            &&& (#[trigger] states[i]).emits(
                slices[i],
                unit.subrange(0, lens[i]),
                chunks[i],
                states[i + 1],
            )
        }
}

proof fn lemma_run_delivers_a_prefix(
    states: Seq<NvencD3d11Encoder>,
    slices: Seq<u32>,
    lens: Seq<int>,
    chunks: Seq<AuChunk>,
    unit: Seq<u8>,
    n: int,
)
    requires
        delivery_run(states, slices, lens, chunks, unit),
        0 <= n <= chunks.len(),
    ensures
        states[n].flow.chunk_progress().emitted <= unit.len(),
        states[n].flow.chunk_progress().opened == (n > 0),
        states[n].pending@ == states[0].pending@,
        contents(chunks.take(n)) == unit.subrange(
            0,
            states[n].flow.chunk_progress().emitted as int,
        ),
    decreases n,
{
    if n == 0 {
        assert(contents(chunks.take(0)) =~= unit.subrange(0, 0));
    } else {
        lemma_run_delivers_a_prefix(states, slices, lens, chunks, unit, n - 1);
        let i = n - 1;
        assert(states[i].emits(slices[i], unit.subrange(0, lens[i]), chunks[i], states[i + 1]));
        let emitted = states[i].flow.chunk_progress().emitted as int;
        assert(chunks.take(n).drop_last() =~= chunks.take(i));
        assert(chunks.take(n).last() == chunks[i]);
        assert(unit.subrange(0, lens[i]).subrange(emitted, lens[i]) =~= unit.subrange(
            emitted,
            lens[i],
        ));
        assert(unit.subrange(0, emitted) + unit.subrange(emitted, lens[i]) =~= unit.subrange(
            0,
            lens[i],
        ));
    }
}

/// The chunks of a unit, put together, are the unit, each with the time and the recovery mark of its
/// frame: whatever was delivered while it grew, the chunk that ends the delivery brings the rest. The
/// first chunk alone says that it is the first, and the last one alone that it is the last.
pub proof fn law_chunks_make_up_the_unit(
    states: Seq<NvencD3d11Encoder>,
    slices: Seq<u32>,
    lens: Seq<int>,
    chunks: Seq<AuChunk>,
    unit: Seq<u8>,
    frame: PendingFrame,
    finishing: NvencD3d11Encoder,
    keyframe: bool,
    r: Result<AuChunk, NvencError>,
    after: NvencD3d11Encoder,
)
    requires
        delivery_run(states, slices, lens, chunks, unit),
        states.last().hands_over(frame, finishing),
        finishing.finishes(frame, unit, keyframe, r, after),
    ensures
        r is Ok,
        contents(chunks.push(r->Ok_0)) == unit,
        forall|i: int|
            0 <= i < chunks.len() ==> {
                let c = #[trigger] chunks[i];
                c.first == (i == 0) && !c.last && c.pts_ns == frame.pts_ns && c.recovery_anchor
                    == frame.anchor
            },
        (r->Ok_0).first == (chunks.len() == 0),
        (r->Ok_0).last,
        (r->Ok_0).pts_ns == frame.pts_ns,
        (r->Ok_0).recovery_anchor == frame.anchor,
        after.flow.chunk is None,
{
    let n = chunks.len() as int;
    lemma_run_delivers_a_prefix(states, slices, lens, chunks, unit, n);
    assert(chunks.take(n) =~= chunks);
    let tail = r->Ok_0;
    assert(chunks.push(tail).drop_last() =~= chunks);
    let emitted = states[n].flow.chunk_progress().emitted as int;
    assert(unit.subrange(0, emitted) + unit.subrange(emitted, unit.len() as int) =~= unit);
    assert forall|i: int| 0 <= i < n implies {
        let c = #[trigger] chunks[i];
        c.first == (i == 0) && !c.last && c.pts_ns == frame.pts_ns && c.recovery_anchor
            == frame.anchor
    } by {
        lemma_run_delivers_a_prefix(states, slices, lens, chunks, unit, i);
        assert(states[i].emits(slices[i], unit.subrange(0, lens[i]), chunks[i], states[i + 1]));
    }
}

/// A delivery out of a sample with more slices and bytes than were delivered moves on: the bytes and
/// slices delivered are then those of the sample.
pub proof fn law_chunk_delivery_advances(flow: NvencFlow, sample_len: usize, slices: u32)
    requires
        flow.chunk_progress().emitted < sample_len,
        flow.chunk_progress().slices_out < slices,
    ensures
        flow.delivered(sample_len, slices).chunk_progress().emitted == sample_len,
        flow.delivered(sample_len, slices).chunk_progress().emitted
            > flow.chunk_progress().emitted,
        flow.delivered(sample_len, slices).chunk_progress().slices_out
            > flow.chunk_progress().slices_out,
        flow.delivered(sample_len, slices).chunk_progress().opened,
{
}

impl NvencD3d11Encoder {
    /// Presentation times of the frames in flight.
    pub open spec fn flight_times(self) -> Seq<u64> {
        self.pending@.map_values(|p: PendingFrame| p.pts_ns)
    }

    /// Every frame the driver took is delivered, waits in the queue, or is in flight.
    pub open spec fn accounts_for(self, submitted: Seq<u64>, delivered: Seq<u64>) -> bool {
        accounts(submitted, delivered, self.ready@, self.flight_times())
    }
}

/// A submitted frame is owed after all others.
pub proof fn law_submit_keeps_the_account(
    before: NvencD3d11Encoder,
    plan: PicturePlan,
    mapped: u64,
    pts_ns: u64,
    job: Option<RetrieveJob>,
    after: NvencD3d11Encoder,
    submitted: Seq<u64>,
    delivered: Seq<u64>,
)
    requires
        before.accounts_for(submitted, delivered),
        before.notes_submitted(plan, mapped, pts_ns, job, after),
    ensures
        after.accounts_for(submitted.push(pts_ns), delivered),
{
    lemma_submit_accounts(submitted, delivered, before.ready@, before.flight_times(), pts_ns);
    assert(after.flight_times() =~= before.flight_times().push(pts_ns));
}

/// A completion that is taken in moves the oldest frame from flight to the end of the queue: no frame
/// is lost, doubled or moved.
pub proof fn law_completion_keeps_the_account(
    before: NvencD3d11Encoder,
    done: RetrieveDone,
    a: Absorbed,
    after: NvencD3d11Encoder,
    submitted: Seq<u64>,
    delivered: Seq<u64>,
)
    requires
        before.accounts_for(submitted, delivered),
        before.absorbs(done, a, after),
        a.result is Ok,
    ensures
        after.accounts_for(submitted, delivered),
{
    assert(before.flight_times()[0] == before.pending@[0].pts_ns);
    lemma_retrieve_accounts(
        submitted,
        delivered,
        before.ready@,
        before.flight_times(),
        after.ready@,
    );
    assert(after.flight_times() =~= before.flight_times().drop_first());
}

} // verus!
