//! Pipelined calls on one connection: requests are written in windows, and
//! after each window their responses are awaited in order. A response that
//! arrives while another is awaited is buffered by the correlation engine
//! and taken when its turn comes. Nothing is retried: the first failure ends
//! the batch.
use vstd::prelude::*;

use crate::api::ClientError;
use crate::engine::{frame_step, AwaitStart, Correlator, FrameOutcome};
use crate::executor::Event;
use crate::json::{request_frame, request_text, views};

verus! {

broadcast use vstd::std_specs::hash::group_hash_axioms;

/// True when the responses of the requests written so far are awaited right
/// after request `idx` (from 0) of `total`: after every request whose index
/// is a positive multiple of `batch_size`, and after the last.
pub open spec fn flushes_after(idx: int, batch_size: int, total: int) -> bool {
    (idx != 0 && idx % batch_size == 0) || idx + 1 == total
}

/// The responses taken from the buffer, in order, from the one of request
/// `results.len()` on, while they are there and their requests were written.
pub open spec fn drain(pending: Map<u64, String>, results: Seq<String>, first: int, sent: int) -> (
    Map<u64, String>,
    Seq<String>,
)
    decreases sent - results.len(),
{
    let id = (first + results.len()) as u64;
    if results.len() < sent && pending.contains_key(id) {
        drain(pending.remove(id), results.push(pending[id]), first, sent)
    } else {
        (pending, results)
    }
}

/// What to do next in a batch.
#[derive(Debug)]
pub enum PipelineAction {
    /// Write this text frame; then report `Sent` or `SendFailed`.
    Send(String),
    /// Read one frame; then report `Received` or `ReadFailed`.
    Receive,
    /// Answer a liveness probe with this payload, ignoring a failure to
    /// write it, then read one frame; then report `Received` or `ReadFailed`.
    Pong(String),
    /// The batch is over: the text of each response in the order of the
    /// requests, or why it failed.
    Finish(Result<Vec<String>, ClientError>),
}

/// Where a batch stands.
#[derive(Debug, Clone, Copy, PartialEq, Eq, Structural)]
pub enum PipelineStage {
    /// No batch is in progress.
    Idle,
    /// The frame of request `idx` is being written.
    Sending { idx: usize },
    /// The response of the request that follows those answered is awaited.
    Awaiting,
}

/// A batch of calls of one method, pipelined on one connection.
pub struct Pipeline {
    engine: Correlator,
    method: String,
    params: Vec<String>,
    batch_size: usize,
    first: u64,
    sent: usize,
    results: Vec<String>,
    stage: PipelineStage,
}

impl Pipeline {
    /// The correlation state.
    pub closed spec fn engine(&self) -> Correlator {
        self.engine
    }

    /// The method of the batch.
    pub closed spec fn method(&self) -> Seq<char> {
        self.method@
    }

    /// The parameters text of each request.
    pub closed spec fn params(&self) -> Seq<Seq<char>> {
        views(self.params@)
    }

    /// How many requests a window holds.
    pub closed spec fn batch_size(&self) -> usize {
        self.batch_size
    }

    /// The id of the batch's first request; request `k` has id `first + k`.
    pub closed spec fn first(&self) -> u64 {
        self.first
    }

    /// How many requests have been written.
    pub closed spec fn sent(&self) -> usize {
        self.sent
    }

    /// The responses taken so far, in the order of the requests.
    pub closed spec fn results(&self) -> Seq<String> {
        self.results@
    }

    /// Where the batch stands.
    pub closed spec fn stage(&self) -> PipelineStage {
        self.stage
    }

    /// The id of the response awaited.
    pub open spec fn awaited(&self) -> u64 {
        (self.first() + self.results().len()) as u64
    }

    /// The invariant of a batch in progress, but for its stage.
    closed spec fn in_flight(&self) -> bool {
        &&& self.engine.wf()
        &&& self.batch_size > 0
        &&& self.results@.len() <= self.sent <= self.params@.len()
        &&& self.first + self.params@.len() <= u64::MAX
        &&& self.first + self.sent == self.engine.last_id() + 1
        &&& forall|j: int|
            self.results@.len() <= j < self.sent ==> #[trigger] self.engine.awaitable().contains(
                (self.first + j) as u64,
            )
    }

    /// The invariant of a batch.
    pub closed spec fn wf(&self) -> bool {
        &&& self.engine.wf()
        &&& self.stage != PipelineStage::Idle ==> {
            &&& self.in_flight()
            &&& match self.stage {
                PipelineStage::Sending { idx } => idx + 1 == self.sent,
                PipelineStage::Awaiting => self.results@.len() < self.sent,
                PipelineStage::Idle => true,
            }
        }
    }

    /// The writing of request `idx`, with the next id.
    pub open spec fn sends(old: Pipeline, new: Pipeline, idx: int, r: PipelineAction) -> bool {
        &&& r matches PipelineAction::Send(f) && f@ == request_text(
            (new.first() + idx) as u64,
            new.method(),
            new.params()[idx],
        )
        &&& new.stage() == (PipelineStage::Sending { idx: idx as usize })
        &&& new.sent() == idx + 1
    }

    /// What follows a write or a response: the buffered responses are
    /// taken; then the next response is awaited, or the next request
    /// written, or the batch ends with all its responses.
    pub open spec fn proceeds(old: Pipeline, new: Pipeline, pending: Map<u64, String>, results: Seq<String>, r: PipelineAction) -> bool {
        let (p, rs) = drain(pending, results, old.first() as int, old.sent() as int);
        if rs.len() < old.sent() {
            &&& r == PipelineAction::Receive
            &&& new.stage() == PipelineStage::Awaiting
            &&& new.results() == rs
            &&& new.engine().pending() == p
            &&& new.sent() == old.sent()
        } else if old.sent() < old.params().len() {
            &&& Self::sends(old, new, old.sent() as int, r)
            &&& new.results() == rs
            &&& new.engine().pending() == p
        } else {
            &&& r matches PipelineAction::Finish(Ok(v)) && v@ == rs
            &&& new.stage() == PipelineStage::Idle
        }
    }
}

impl Pipeline {
    /// What every step keeps: the method, the parameters, the window size
    /// and the first id.
    pub open spec fn kept(old: Pipeline, new: Pipeline) -> bool {
        &&& new.method() == old.method()
        &&& new.params() == old.params()
        &&& new.batch_size() == old.batch_size()
        &&& new.first() == old.first()
    }

    /// True when `e` reports the outcome of the action that `stage` waits on.
    pub open spec fn accepts_spec(stage: PipelineStage, e: Event) -> bool {
        match stage {
            PipelineStage::Idle => false,
            PipelineStage::Sending { .. } => e is Sent || e is SendFailed,
            PipelineStage::Awaiting => e is Received || e is ReadFailed,
        }
    }

    /// The rule of one step: the batch after `e`, and the action it asks for.
    pub open spec fn step_spec(old: Pipeline, e: Event, new: Pipeline, r: PipelineAction) -> bool {
        &&& Self::kept(old, new)
        &&& match (old.stage(), e) {
            (PipelineStage::Sending { idx }, Event::Sent) => if flushes_after(
                idx as int,
                old.batch_size() as int,
                old.params().len() as int,
            ) {
                Self::proceeds(old, new, old.engine().pending(), old.results(), r)
            } else {
                &&& Self::sends(old, new, idx + 1, r)
                &&& new.results() == old.results()
                &&& new.engine().pending() == old.engine().pending()
            },
            (PipelineStage::Sending { .. }, Event::SendFailed(m)) => {
                &&& r == PipelineAction::Finish(Err(ClientError::TransportError(m)))
                &&& new.stage() == PipelineStage::Idle
            },
            (PipelineStage::Awaiting, Event::Received(f)) => {
                let (next_pending, o) = frame_step(old.engine().pending(), old.awaited(), f);
                match o {
                    FrameOutcome::Probe(p) => {
                        &&& r == PipelineAction::Pong(p)
                        &&& new.stage() == old.stage()
                        &&& new.sent() == old.sent()
                        &&& new.results() == old.results()
                        &&& new.engine().pending() == next_pending
                    },
                    FrameOutcome::Buffered | FrameOutcome::Skipped => {
                        &&& r == PipelineAction::Receive
                        &&& new.stage() == old.stage()
                        &&& new.sent() == old.sent()
                        &&& new.results() == old.results()
                        &&& new.engine().pending() == next_pending
                    },
                    FrameOutcome::Matched(p) => Self::proceeds(
                        old,
                        new,
                        next_pending,
                        old.results().push(p),
                        r,
                    ),
                    FrameOutcome::ApiFailure(t) => {
                        &&& r == PipelineAction::Finish(Err(ClientError::ApiError(t)))
                        &&& new.stage() == PipelineStage::Idle
                    },
                    FrameOutcome::Malformed(t) => {
                        &&& r == PipelineAction::Finish(Err(ClientError::DecodeError(t)))
                        &&& new.stage() == PipelineStage::Idle
                    },
                }
            },
            (PipelineStage::Awaiting, Event::ReadFailed(m)) => {
                &&& r == PipelineAction::Finish(Err(ClientError::TransportError(m)))
                &&& new.stage() == PipelineStage::Idle
            },
            _ => false,
        }
    }

    /// A pipeline with no batch in progress.
    pub fn new() -> (r: Self)
        ensures
            r.wf(),
            r.stage() == PipelineStage::Idle,
            r.engine().last_id() == 0,
            r.engine().pending() == Map::<u64, String>::empty(),
    {
        Pipeline {
            engine: Correlator::new(),
            method: String::new(),
            params: Vec::new(),
            batch_size: 1,
            first: 1,
            sent: 0,
            results: Vec::new(),
            stage: PipelineStage::Idle,
        }
    }

    /// True when no batch is in progress and ids are left for `total`
    /// requests.
    pub fn can_start(&self, total: usize) -> (r: bool)
        ensures
            r == (self.stage() == PipelineStage::Idle && self.engine().last_id() + total < u64::MAX),
    {
        self.stage == PipelineStage::Idle && (total as u64) < u64::MAX - self.engine.last_issued()
    }

    /// True when `e` reports the outcome of the action asked for last.
    pub fn accepts(&self, e: &Event) -> (r: bool)
        ensures
            r == Self::accepts_spec(self.stage(), *e),
    {
        match self.stage {
            PipelineStage::Idle => false,
            PipelineStage::Sending { .. } => match e {
                Event::Sent | Event::SendFailed(_) => true,
                _ => false,
            },
            PipelineStage::Awaiting => match e {
                Event::Received(_) | Event::ReadFailed(_) => true,
                _ => false,
            },
        }
    }

    fn send_next(&mut self) -> (r: PipelineAction)
        requires
            old(self).in_flight(),
            old(self).sent() < old(self).params().len(),
        ensures
            final(self).wf(),
            Self::kept(*old(self), *final(self)),
            Self::sends(*old(self), *final(self), old(self).sent() as int, r),
            final(self).results() == old(self).results(),
            final(self).engine().pending() == old(self).engine().pending(),
    {
        assert(self.params().len() == self.params@.len());
        let total = self.params.len();
        assert(self.sent < total);
        let id = self.engine.issue();
        let frame = request_frame(id, self.method.as_str(), self.params[self.sent].as_str());
        self.stage = PipelineStage::Sending { idx: self.sent };
        self.sent = self.sent + 1;
        PipelineAction::Send(frame)
    }

    fn proceed(&mut self) -> (r: PipelineAction)
        requires
            old(self).in_flight(),
            old(self).stage() != PipelineStage::Idle,
        ensures
            final(self).wf(),
            Self::kept(*old(self), *final(self)),
            Self::proceeds(*old(self), *final(self), old(self).engine().pending(), old(self).results(), r),
    {
        let ghost start = drain(self.engine.pending(), self.results@, self.first as int, self.sent as int);
        let mut go = true;
        while go && self.results.len() < self.sent
            invariant
                self.in_flight(),
                self.stage != PipelineStage::Idle,
                Self::kept(*old(self), *self),
                self.sent == old(self).sent,
                drain(self.engine.pending(), self.results@, self.first as int, self.sent as int) == start,
                !go ==> self.results@.len() < self.sent && !self.engine.pending().contains_key(
                    (self.first + self.results@.len()) as u64,
                ),
            decreases self.sent - self.results@.len(), if go { 1int } else { 0int },
        {
            let id = self.first + self.results.len() as u64;
            let ghost before = self.results@;
            let ghost a0 = self.engine.awaitable();
            match self.engine.begin_await(id) {
                AwaitStart::Ready(p) => {
                    self.results.push(p);
                    assert(self.results@ == before.push(p));
                    assert forall|j: int|
                        self.results@.len() <= j < self.sent implies #[trigger] self.engine.awaitable().contains(
                            (self.first + j) as u64,
                        ) by {
                        assert(a0.contains((self.first + j) as u64));
                        assert((self.first + j) as u64 != id);
                    }
                },
                _ => {
                    go = false;
                },
            }
        }
        proof {
            let id = (self.first + self.results@.len()) as u64;
            if self.results@.len() < self.sent {
                assert(!self.engine.pending().contains_key(id));
            }
            assert(drain(self.engine.pending(), self.results@, self.first as int, self.sent as int)
                == (self.engine.pending(), self.results@));
        }
        if self.results.len() < self.sent {
            self.stage = PipelineStage::Awaiting;
            PipelineAction::Receive
        } else if self.sent < self.params.len() {
            self.send_next()
        } else {
            self.stage = PipelineStage::Idle;
            let mut out: Vec<String> = Vec::new();
            std::mem::swap(&mut out, &mut self.results);
            PipelineAction::Finish(Ok(out))
        }
    }

    /// Begins a batch: request `k` calls `method` with `params[k]`, and
    /// responses are awaited after every `batch_size` requests and after the
    /// last. An empty batch ends at once.
    pub fn start(&mut self, method: &str, params: Vec<String>, batch_size: usize) -> (r: PipelineAction)
        requires
            old(self).wf(),
            old(self).stage() == PipelineStage::Idle,
            batch_size > 0,
            old(self).engine().last_id() + params@.len() < u64::MAX,
        ensures
            final(self).wf(),
            final(self).method() == method@,
            final(self).params() == views(params@),
            final(self).batch_size() == batch_size,
            final(self).first() == old(self).engine().last_id() + 1,
            final(self).results() == Seq::<String>::empty(),
            final(self).engine().pending() == old(self).engine().pending(),
            if params@.len() == 0 {
                &&& r matches PipelineAction::Finish(Ok(v)) && v@.len() == 0
                &&& final(self).stage() == PipelineStage::Idle
            } else {
                Self::sends(*final(self), *final(self), 0, r)
            },
    {
        let empty = params.len() == 0;
        self.method = String::from_str(method);
        self.params = params;
        self.batch_size = batch_size;
        self.first = self.engine.last_issued() + 1;
        self.sent = 0;
        self.results = Vec::new();
        if empty {
            return PipelineAction::Finish(Ok(Vec::new()));
        }
        self.stage = PipelineStage::Sending { idx: 0 };
        self.send_next()
    }

    /// Takes what became of the last action and says what to do next.
    pub fn step(&mut self, e: Event) -> (r: PipelineAction)
        requires
            old(self).wf(),
            Self::accepts_spec(old(self).stage(), e),
        ensures
            final(self).wf(),
            Self::step_spec(*old(self), e, *final(self), r),
    {
        match self.stage {
            PipelineStage::Sending { idx } => match e {
                Event::Sent => {
                    if (idx != 0 && idx % self.batch_size == 0) || idx + 1 == self.params.len() {
                        self.proceed()
                    } else {
                        self.send_next()
                    }
                },
                Event::SendFailed(m) => {
                    self.stage = PipelineStage::Idle;
                    PipelineAction::Finish(Err(ClientError::TransportError(m)))
                },
                _ => PipelineAction::Receive,
            },
            PipelineStage::Awaiting => match e {
                Event::Received(f) => {
                    let id = self.first + self.results.len() as u64;
                    let ghost a0 = self.engine.awaitable();
                    match self.engine.accept(id, f) {
                        FrameOutcome::Probe(p) => PipelineAction::Pong(p),
                        FrameOutcome::Buffered | FrameOutcome::Skipped => PipelineAction::Receive,
                        FrameOutcome::Matched(p) => {
                            self.results.push(p);
                            assert forall|j: int|
                                self.results@.len() <= j < self.sent implies #[trigger] self.engine.awaitable().contains(
                                    (self.first + j) as u64,
                                ) by {
                                assert(a0.contains((self.first + j) as u64));
                                assert((self.first + j) as u64 != id);
                            }
                            self.proceed()
                        },
                        FrameOutcome::ApiFailure(t) => {
                            self.stage = PipelineStage::Idle;
                            PipelineAction::Finish(Err(ClientError::ApiError(t)))
                        },
                        FrameOutcome::Malformed(t) => {
                            self.stage = PipelineStage::Idle;
                            PipelineAction::Finish(Err(ClientError::DecodeError(t)))
                        },
                    }
                },
                Event::ReadFailed(m) => {
                    self.stage = PipelineStage::Idle;
                    PipelineAction::Finish(Err(ClientError::TransportError(m)))
                },
                _ => PipelineAction::Receive,
            },
            PipelineStage::Idle => PipelineAction::Receive,
        }
    }
}

} // verus!
