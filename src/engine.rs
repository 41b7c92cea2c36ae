//! Correlation of responses to requests: request ids, the buffer of responses
//! that arrived while another id was awaited, and the rule applied to each
//! frame read while awaiting.
use std::collections::HashMap;
use std::collections::HashSet;
use vstd::prelude::*;

verus! {

broadcast use vstd::std_specs::hash::group_hash_axioms;

/// The `{id, status}` header of a data frame. A missing `id` reads as 0.
#[derive(Debug, Clone, Copy, PartialEq, Eq, Structural)]
pub struct Header {
    pub id: u64,
    pub status: i64,
}

/// One frame read from the connection.
#[derive(Debug)]
pub enum Frame {
    /// A liveness probe and its payload.
    Ping(String),
    /// A data frame: its text, and its header, or `None` when the header
    /// could not be decoded.
    Text(String, Option<Header>),
    /// A frame of any other type.
    Other,
}

/// What a frame read while awaiting an id amounts to.
#[derive(Debug)]
pub enum FrameOutcome {
    /// A liveness probe: answer it with this payload and read on.
    Probe(String),
    /// A response for another id, now buffered: read on.
    Buffered,
    /// The awaited response.
    Matched(String),
    /// An error envelope: the wait is over, whatever id was awaited.
    ApiFailure(String),
    /// A data frame whose header could not be decoded.
    Malformed(String),
    /// A frame of another type: read on.
    Skipped,
}

/// How a wait for an id begins.
#[derive(Debug)]
pub enum AwaitStart {
    /// The response was already buffered; it is removed from the buffer.
    Ready(String),
    /// Frames must be read.
    Wait,
    /// The id is not awaitable: it was never issued, its response was already
    /// handed out, or it was abandoned.
    NotAwaitable,
}

/// True when a header marks an error envelope.
pub open spec fn is_error_header(h: Header) -> bool {
    h.id == 0 || h.status != 200
}

/// The rule for one frame read while `awaited` is awaited: the buffer after
/// it, and the outcome.
pub open spec fn frame_step(pending: Map<u64, String>, awaited: u64, frame: Frame) -> (
    Map<u64, String>,
    FrameOutcome,
) {
    match frame {
        Frame::Ping(p) => (pending, FrameOutcome::Probe(p)),
        Frame::Other => (pending, FrameOutcome::Skipped),
        Frame::Text(t, None) => (pending, FrameOutcome::Malformed(t)),
        Frame::Text(t, Some(h)) => if is_error_header(h) {
            (pending, FrameOutcome::ApiFailure(t))
        } else if h.id != awaited {
            (pending.insert(h.id, t), FrameOutcome::Buffered)
        } else {
            (pending, FrameOutcome::Matched(t))
        },
    }
}

/// True when the outcome ends the wait.
pub open spec fn ends_wait(o: FrameOutcome) -> bool {
    match o {
        FrameOutcome::Matched(_) | FrameOutcome::ApiFailure(_) | FrameOutcome::Malformed(_) => true,
        _ => false,
    }
}

/// The wait for `awaited`, started on a buffer that does not hold it, over
/// the frames read in order: the buffer after them, and the outcome of the
/// frame that ended the wait (`None` while none did).
pub open spec fn await_run(pending: Map<u64, String>, awaited: u64, frames: Seq<Frame>) -> (
    Map<u64, String>,
    Option<FrameOutcome>,
)
    decreases frames.len(),
{
    if frames.len() == 0 {
        (pending, None)
    } else {
        let (p, o) = frame_step(pending, awaited, frames[0]);
        if ends_wait(o) {
            (p, Some(o))
        } else {
            await_run(p, awaited, frames.drop_first())
        }
    }
}

/// How a wait for `id` begins, on a buffer and a set of awaitable ids: the
/// buffer and the set after it, and what it found.
pub open spec fn await_start(pending: Map<u64, String>, awaitable: Set<u64>, id: u64) -> (
    Map<u64, String>,
    Set<u64>,
    AwaitStart,
) {
    if pending.contains_key(id) {
        (pending.remove(id), awaitable.remove(id), AwaitStart::Ready(pending[id]))
    } else if awaitable.contains(id) {
        (pending, awaitable, AwaitStart::Wait)
    } else {
        (pending, awaitable, AwaitStart::NotAwaitable)
    }
}

/// True when a frame read while `awaited` is awaited lets the wait go on
/// without failing it: a liveness probe, a frame of another type, or a
/// successful response for another id.
pub open spec fn passes_over(f: Frame, awaited: u64) -> bool {
    match f {
        Frame::Ping(_) | Frame::Other => true,
        Frame::Text(_, Some(h)) => h.id != awaited && h.id != 0 && h.status == 200,
        Frame::Text(_, None) => false,
    }
}

/// The buffer after storing, in turn, each response among `frames` under
/// the id of its header.
pub open spec fn buffer_frames(pending: Map<u64, String>, frames: Seq<Frame>) -> Map<u64, String>
    decreases frames.len(),
{
    if frames.len() == 0 {
        pending
    } else {
        let next = match frames[0] {
            Frame::Text(t, Some(h)) => pending.insert(h.id, t),
            _ => pending,
        };
        buffer_frames(next, frames.drop_first())
    }
}

/// Out-of-order delivery: while `awaited` is awaited, the successful
/// responses for other ids that arrive first are buffered under their own
/// ids, probes and other frames among them change nothing, and the wait ends
/// with the response whose header carries the awaited id.
pub proof fn lemma_out_of_order_delivery(
    pending: Map<u64, String>,
    awaited: u64,
    before: Seq<Frame>,
    reply: String,
)
    requires
        awaited != 0,
        forall|i: int| 0 <= i < before.len() ==> passes_over(#[trigger] before[i], awaited),
    ensures
        await_run(
            pending,
            awaited,
            before.push(Frame::Text(reply, Some(Header { id: awaited, status: 200 }))),
        ) == (buffer_frames(pending, before), Some(FrameOutcome::Matched(reply))),
    decreases before.len(),
{
    let last = Frame::Text(reply, Some(Header { id: awaited, status: 200 }));
    let frames = before.push(last);
    if before.len() == 0 {
        assert(frames[0] == last);
    } else {
        let rest = before.drop_first();
        assert(frames[0] == before[0]);
        assert(passes_over(before[0], awaited));
        assert(frames.drop_first() =~= rest.push(last));
        assert forall|i: int| 0 <= i < rest.len() implies passes_over(#[trigger] rest[i], awaited) by {
            assert(rest[i] == before[i + 1]);
        }
        let next = match before[0] {
            Frame::Text(t, Some(h)) => pending.insert(h.id, t),
            _ => pending,
        };
        lemma_out_of_order_delivery(next, awaited, rest, reply);
    }
}

/// Probes are transparent to a wait: a liveness probe read at any point of
/// the wait for `awaited` changes neither its outcome nor the buffer, so it
/// is never handed out as a response.
pub proof fn lemma_probe_transparent(
    pending: Map<u64, String>,
    awaited: u64,
    frames: Seq<Frame>,
    at: int,
    payload: String,
)
    requires
        0 <= at <= frames.len(),
    ensures
        await_run(pending, awaited, frames.insert(at, Frame::Ping(payload))) == await_run(
            pending,
            awaited,
            frames,
        ),
    decreases frames.len(),
{
    let with = frames.insert(at, Frame::Ping(payload));
    if at == 0 {
        assert(with[0] == Frame::Ping(payload));
        assert(with.drop_first() =~= frames);
    } else {
        assert(with[0] == frames[0]);
        let (p, o) = frame_step(pending, awaited, frames[0]);
        if !ends_wait(o) {
            assert(with.drop_first() =~= frames.drop_first().insert(at - 1, Frame::Ping(payload)));
            lemma_probe_transparent(p, awaited, frames.drop_first(), at - 1, payload);
        }
    }
}

/// A wait for `awaited`, begun on a buffer that does not hold it, never
/// buffers it.
proof fn lemma_wait_never_buffers_awaited(pending: Map<u64, String>, awaited: u64, frames: Seq<Frame>)
    requires
        !pending.contains_key(awaited),
    ensures
        !await_run(pending, awaited, frames).0.contains_key(awaited),
    decreases frames.len(),
{
    if frames.len() > 0 {
        let (p, o) = frame_step(pending, awaited, frames[0]);
        if !ends_wait(o) {
            lemma_wait_never_buffers_awaited(p, awaited, frames.drop_first());
        }
    }
}

/// A response is handed out once: after a wait for `id` ended with its
/// response, taken from the buffer or read off the connection, a second wait
/// for `id` reports it not awaitable at once, without reading a frame.
pub proof fn lemma_handed_out_once(
    pending: Map<u64, String>,
    awaitable: Set<u64>,
    id: u64,
    frames: Seq<Frame>,
    reply: String,
)
    ensures
        pending.contains_key(id) ==> {
            let (next_pending, next_awaitable, _) = await_start(pending, awaitable, id);
            await_start(next_pending, next_awaitable, id).2 == AwaitStart::NotAwaitable
        },
        !pending.contains_key(id) && await_run(pending, id, frames).1 == Some(
            FrameOutcome::Matched(reply),
        ) ==> await_start(await_run(pending, id, frames).0, awaitable.remove(id), id).2
            == AwaitStart::NotAwaitable,
{
    if !pending.contains_key(id) {
        lemma_wait_never_buffers_awaited(pending, id, frames);
    }
}

/// Request ids and the responses not yet handed out.
pub struct Correlator {
    last_id: u64,
    pending: HashMap<u64, String>,
    awaitable: HashSet<u64>,
}

impl Correlator {
    /// The last id issued; 0 before the first.
    pub closed spec fn last_id(&self) -> u64 {
        self.last_id
    }

    /// Buffered responses by id.
    pub closed spec fn pending(&self) -> Map<u64, String> {
        self.pending@
    }

    /// Ids issued whose response has not been handed out nor abandoned.
    pub closed spec fn awaitable(&self) -> Set<u64> {
        self.awaitable@
    }

    /// Every awaitable id has been issued.
    pub closed spec fn wf(&self) -> bool {
        forall|id: u64| #[trigger] self.awaitable@.contains(id) ==> 0 < id <= self.last_id
    }

    pub fn new() -> (r: Self)
        ensures
            r.wf(),
            r.last_id() == 0,
            r.pending() == Map::<u64, String>::empty(),
            r.awaitable() == Set::<u64>::empty(),
    {
        Correlator { last_id: 0, pending: HashMap::new(), awaitable: HashSet::new() }
    }

    /// The last id issued; 0 before the first.
    pub fn last_issued(&self) -> (r: u64)
        ensures
            r == self.last_id(),
    {
        self.last_id
    }

    /// Issues the next id, one more than the last; ids are never reused.
    pub fn issue(&mut self) -> (id: u64)
        requires
            old(self).wf(),
            old(self).last_id() < u64::MAX,
        ensures
            final(self).wf(),
            id == old(self).last_id() + 1,
            final(self).last_id() == id,
            final(self).pending() == old(self).pending(),
            final(self).awaitable() == old(self).awaitable().insert(id),
    {
        self.last_id = self.last_id + 1;
        self.awaitable.insert(self.last_id);
        self.last_id
    }

    /// Gives up on an id: its response, should it come, is never handed out
    /// by a wait that reads it.
    pub fn abandon(&mut self, id: u64)
        requires
            old(self).wf(),
        ensures
            final(self).wf(),
            final(self).last_id() == old(self).last_id(),
            final(self).pending() == old(self).pending(),
            final(self).awaitable() == old(self).awaitable().remove(id),
    {
        self.awaitable.remove(&id);
    }

    /// Begins the wait for `id`: hands out a buffered response at once, or
    /// says that frames must be read, or that the id is not awaitable.
    pub fn begin_await(&mut self, id: u64) -> (r: AwaitStart)
        requires
            old(self).wf(),
        ensures
            final(self).wf(),
            final(self).last_id() == old(self).last_id(),
            (final(self).pending(), final(self).awaitable(), r) == await_start(
                old(self).pending(),
                old(self).awaitable(),
                id,
            ),
    {
        match self.pending.remove(&id) {
            Some(p) => {
                self.awaitable.remove(&id);
                AwaitStart::Ready(p)
            },
            None => {
                if self.awaitable.contains(&id) {
                    AwaitStart::Wait
                } else {
                    AwaitStart::NotAwaitable
                }
            },
        }
    }

    /// Applies the rule of `frame_step` to one frame read while `awaited` is
    /// awaited. When the frame is the awaited response, `awaited` stops being
    /// awaitable.
    pub fn accept(&mut self, awaited: u64, frame: Frame) -> (r: FrameOutcome)
        requires
            old(self).wf(),
        ensures
            final(self).wf(),
            final(self).last_id() == old(self).last_id(),
            (final(self).pending(), r) == frame_step(old(self).pending(), awaited, frame),
            final(self).awaitable() == match r {
                FrameOutcome::Matched(_) => old(self).awaitable().remove(awaited),
                _ => old(self).awaitable(),
            },
    {
        match frame {
            Frame::Ping(p) => FrameOutcome::Probe(p),
            Frame::Other => FrameOutcome::Skipped,
            Frame::Text(t, None) => FrameOutcome::Malformed(t),
            Frame::Text(t, Some(h)) => {
                if h.id == 0 || h.status != 200 {
                    FrameOutcome::ApiFailure(t)
                } else if h.id != awaited {
                    self.pending.insert(h.id, t);
                    FrameOutcome::Buffered
                } else {
                    self.awaitable.remove(&awaited);
                    FrameOutcome::Matched(t)
                }
            },
        }
    }
}

} // verus!
