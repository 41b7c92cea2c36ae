//! The call executor: one logical call at a time, driven by the caller that
//! owns the connection. Each step takes what happened to the last action and
//! says what to do next. A failure of the first attempt drops the
//! connection and retries the call once, on a fresh connection that is
//! logged on again when a credential is held.
use vstd::prelude::*;

use crate::api::session::{logon_signature, pkcs8_pem_readable, signed_logon_text, Logon};
use crate::api::{wrap, wrapped, ClientError, ParamWrapper, QueryType};
use crate::engine::{await_start, frame_step, AwaitStart, Correlator, Frame, FrameOutcome};
use crate::json::{request_frame, request_text};

verus! {

/// What became of the last action.
#[derive(Debug)]
pub enum Event {
    /// A connection was acquired.
    Connected,
    /// No connection could be acquired.
    ConnectFailed(ws_tool::errors::WsError),
    /// The frame was written.
    Sent,
    /// Writing the frame failed.
    SendFailed(ws_tool::errors::WsError),
    /// A frame was read.
    Received(Frame),
    /// Reading failed.
    ReadFailed(ws_tool::errors::WsError),
}

/// What to do next.
#[derive(Debug)]
pub enum Action {
    /// Drop the connection held, if any, and acquire a new one; then report
    /// `Connected` or `ConnectFailed`.
    Connect,
    /// Write this text frame; then report `Sent` or `SendFailed`.
    Send(String),
    /// Read one frame; then report `Received` or `ReadFailed`.
    Receive,
    /// Answer a liveness probe with this payload, ignoring a failure to
    /// write it, then read one frame; then report `Received` or `ReadFailed`.
    Pong(String),
    /// The call is over: the text of its response, or why it failed.
    Finish(Result<String, ClientError>),
}

/// Where the current call stands.
#[derive(Debug, Clone, Copy, PartialEq, Eq, Structural)]
pub enum Stage {
    /// No call is in progress.
    Idle,
    /// A connection is being acquired.
    Connecting,
    /// The frame of request `id` is being written; `logon` tells a logon
    /// from the call's own request.
    Sending { id: u64, logon: bool },
    /// The response to request `id` is awaited.
    Awaiting { id: u64, logon: bool },
}

/// One operation on the wire, as recorded by the executor.
#[derive(Debug, Clone, Copy, PartialEq, Eq, Structural)]
pub enum WireOp {
    /// A connection was asked for.
    Connect,
    /// A logon request with this id was written.
    Logon(u64),
    /// The call's own request with this id was written.
    Request(u64),
    /// A liveness probe was answered.
    Pong,
}

/// How many operations of `ops` satisfy `f`.
pub open spec fn count_ops(ops: Seq<WireOp>, f: spec_fn(WireOp) -> bool) -> nat
    decreases ops.len(),
{
    if ops.len() == 0 {
        0
    } else {
        count_ops(ops.drop_last(), f) + if f(ops.last()) {
            1nat
        } else {
            0nat
        }
    }
}

/// How many requests of the call itself `ops` writes.
pub open spec fn requests(ops: Seq<WireOp>) -> nat {
    count_ops(ops, |o: WireOp| o is Request)
}

/// How many connections `ops` asks for.
pub open spec fn connects(ops: Seq<WireOp>) -> nat {
    count_ops(ops, |o: WireOp| o is Connect)
}

/// How many logon requests `ops` writes.
pub open spec fn logons(ops: Seq<WireOp>) -> nat {
    count_ops(ops, |o: WireOp| o is Logon)
}

/// True when the latest connection asked for in `ops` has had no logon
/// written on it yet.
pub open spec fn needs_logon(ops: Seq<WireOp>) -> bool
    decreases ops.len(),
{
    if ops.len() == 0 {
        false
    } else {
        match ops.last() {
            WireOp::Connect => true,
            WireOp::Logon(_) => false,
            _ => needs_logon(ops.drop_last()),
        }
    }
}

/// True when every request in `ops` is written after a logon on its
/// connection: between any connection asked for and a later request, a
/// logon was written.
pub open spec fn logon_before_requests(ops: Seq<WireOp>) -> bool
    decreases ops.len(),
{
    if ops.len() == 0 {
        true
    } else {
        &&& logon_before_requests(ops.drop_last())
        &&& (ops.last() is Request ==> !needs_logon(ops.drop_last()))
    }
}

proof fn lemma_push(ops: Seq<WireOp>, op: WireOp)
    ensures
        requests(ops.push(op)) == requests(ops) + if op is Request {
            1nat
        } else {
            0nat
        },
        connects(ops.push(op)) == connects(ops) + if op is Connect {
            1nat
        } else {
            0nat
        },
        logons(ops.push(op)) == logons(ops) + if op is Logon {
            1nat
        } else {
            0nat
        },
        needs_logon(ops.push(op)) == match op {
            WireOp::Connect => true,
            WireOp::Logon(_) => false,
            _ => needs_logon(ops),
        },
        logon_before_requests(ops.push(op)) == (logon_before_requests(ops) && (op is Request
            ==> !needs_logon(ops))),
{
    assert(ops.push(op).drop_last() =~= ops);
}

proof fn lemma_push_call(wire: Seq<WireOp>, start: int, op: WireOp)
    requires
        0 <= start <= wire.len(),
    ensures
        wire.push(op).subrange(start, wire.len() + 1 as int) == wire.subrange(start, wire.len() as int).push(
            op,
        ),
{
    assert(wire.push(op).subrange(start, wire.len() + 1 as int) =~= wire.subrange(
        start,
        wire.len() as int,
    ).push(op));
}

/// The method of logon requests.
pub open spec fn logon_method() -> Seq<char> {
    "session.logon"@
}

/// The executor of calls.
pub struct Executor {
    engine: Correlator,
    connected: bool,
    auth: Option<Logon>,
    recv_window: i64,
    method: String,
    params: String,
    retries: u8,
    stage: Stage,
    wire: Ghost<Seq<WireOp>>,
    call_start: Ghost<int>,
    call_base: Ghost<int>,
}

impl Executor {
    /// The correlation state.
    pub closed spec fn engine(&self) -> Correlator {
        self.engine
    }

    /// Whether a connection is held.
    pub closed spec fn connected(&self) -> bool {
        self.connected
    }

    /// The credential, if any.
    pub closed spec fn auth(&self) -> Option<Logon> {
        self.auth
    }

    /// The receive window of signed calls.
    pub closed spec fn recv_window(&self) -> i64 {
        self.recv_window
    }

    /// The method of the current call.
    pub closed spec fn method(&self) -> Seq<char> {
        self.method@
    }

    /// The parameters text of the current call.
    pub closed spec fn params(&self) -> Seq<char> {
        self.params@
    }

    /// Retries left to the current call: 1 during its first attempt.
    pub closed spec fn retries(&self) -> u8 {
        self.retries
    }

    /// Where the current call stands.
    pub closed spec fn stage(&self) -> Stage {
        self.stage
    }

    /// Every operation on the wire since the executor was made.
    pub closed spec fn wire(&self) -> Seq<WireOp> {
        self.wire@
    }

    /// The operations on the wire of the current (or last) call.
    pub closed spec fn call_ops(&self) -> Seq<WireOp> {
        self.wire@.subrange(self.call_start@, self.wire@.len() as int)
    }

    /// The api key of the credential; empty without one.
    pub open spec fn api_key(&self) -> Seq<char> {
        match self.auth() {
            Some(a) => a.api_key@,
            None => Seq::empty(),
        }
    }

    /// The request being written or awaited is the last one issued.
    pub open spec fn current_id_is_last(&self) -> bool {
        match self.stage() {
            Stage::Sending { id, .. } | Stage::Awaiting { id, .. } => id == self.last_id(),
            _ => true,
        }
    }

    /// True when a credential is held.
    pub open spec fn has_credential(&self) -> bool {
        self.auth() is Some
    }

    /// The last request id issued.
    pub open spec fn last_id(&self) -> u64 {
        self.engine().last_id()
    }

    /// True while the call has not written its own request in the current
    /// attempt.
    closed spec fn before_request(&self) -> bool {
        match self.stage {
            Stage::Connecting => true,
            Stage::Sending { logon, .. } => logon,
            Stage::Awaiting { logon, .. } => logon,
            Stage::Idle => false,
        }
    }

    /// The executor's invariant but for the ids it awaits.
    closed spec fn wf_core(&self) -> bool {
        let ops = self.call_ops();
        &&& self.engine.wf()
        &&& 0 <= self.call_start@ <= self.wire@.len()
        &&& self.retries <= 1
        &&& (self.stage is Connecting ==> !self.connected)
        &&& ((self.stage is Sending || self.stage is Awaiting) ==> self.connected)
        &&& self.current_id_is_last()
        &&& self.stage != Stage::Idle ==> {
            &&& requests(ops) + self.retries + (if self.before_request() {
                1int
            } else {
                0int
            }) <= 2
            &&& connects(ops) + self.retries <= 2
            &&& logons(ops) + (if self.stage is Connecting {
                1int
            } else {
                0int
            }) <= connects(ops)
            &&& self.engine.last_id() == self.call_base@ + logons(ops) + requests(ops)
            &&& self.call_base@ + 4 <= u64::MAX
        }
        &&& requests(ops) <= 2
        &&& connects(ops) <= 2
        &&& self.auth is Some ==> {
            &&& logon_before_requests(self.wire@)
            &&& (self.stage is Sending || self.stage is Awaiting || (self.stage is Idle
                && self.connected)) ==> !needs_logon(self.wire@)
        }
    }

    /// The executor's invariant.
    pub closed spec fn wf(&self) -> bool {
        &&& self.wf_core()
        &&& match self.stage {
            Stage::Sending { id, .. } | Stage::Awaiting { id, .. } => self.engine.awaitable().contains(
                id,
            ),
            _ => true,
        }
    }

    /// The outcome of a failed attempt with error `e`: a reconnection when
    /// a retry is left, else the end of the call. The connection is dropped
    /// either way.
    pub open spec fn failed(old: Executor, new: Executor, e: ClientError, r: Action) -> bool {
        &&& !new.connected()
        &&& new.engine().pending() == old.engine().pending()
        &&& new.last_id() == old.last_id()
        &&& if old.retries() == 1 {
            &&& r == Action::Connect
            &&& new.retries() == 0
            &&& new.stage() == Stage::Connecting
        } else {
            &&& r == Action::Finish(Err(e))
            &&& new.stage() == Stage::Idle
        }
    }

    /// The writing of the call's own request, with the next id.
    pub open spec fn sends_request(old: Executor, new: Executor, r: Action) -> bool {
        let id = (old.last_id() + 1) as u64;
        &&& r matches Action::Send(f) && f@ == request_text(id, new.method(), new.params())
        &&& new.stage() == Stage::Sending { id, logon: false }
        &&& new.last_id() == id
    }

    /// The writing of a logon request, with the next id, signed for the
    /// credential held.
    pub open spec fn sends_logon(old: Executor, new: Executor, r: Action) -> bool {
        let id = (old.last_id() + 1) as u64;
        let cred = old.auth().unwrap();
        &&& r matches Action::Send(f) && exists|ts: i64|
            f@ == request_text(
                id,
                logon_method(),
                #[trigger] signed_logon_text(
                    cred.api_key@,
                    logon_signature(cred.perm_key@, cred.api_key@, old.recv_window(), ts),
                    ts,
                    old.recv_window(),
                ),
            )
        &&& new.stage() == Stage::Sending { id, logon: true }
        &&& new.last_id() == id
    }

    /// What follows a response to request `logon`-or-not: the call's own
    /// request after a logon, else the end of the call with `p`.
    pub open spec fn answered(old: Executor, new: Executor, p: String, logon: bool, r: Action) -> bool {
        if logon {
            Self::sends_request(old, new, r)
        } else {
            r == Action::Finish(Ok(p)) && new.stage() == Stage::Idle && new.last_id() == old.last_id()
        }
    }

    /// What follows a connection: a logon when a credential is held, else
    /// the call's own request.
    pub open spec fn after_connect(old: Executor, new: Executor, r: Action) -> bool {
        &&& new.engine().pending() == old.engine().pending()
        &&& match old.auth() {
            None => new.connected() && Self::sends_request(old, new, r),
            Some(cred) => if pkcs8_pem_readable(cred.perm_key@) {
                new.connected() && Self::sends_logon(old, new, r)
            } else {
                &&& r == Action::Finish(Err(ClientError::InvalidKey))
                &&& !new.connected()
                &&& new.stage() == Stage::Idle
                &&& new.last_id() == old.last_id()
            },
        }
    }

    /// True when `e` reports the outcome of the action that `stage` waits on.
    pub open spec fn accepts_spec(stage: Stage, e: Event) -> bool {
        match stage {
            Stage::Idle => false,
            Stage::Connecting => e is Connected || e is ConnectFailed,
            Stage::Sending { .. } => e is Sent || e is SendFailed,
            Stage::Awaiting { .. } => e is Received || e is ReadFailed,
        }
    }

    /// The rule of one step: the executor after `e`, and the action it asks for.
    pub open spec fn step_spec(old: Executor, e: Event, new: Executor, r: Action) -> bool {
        match old.stage() {
            Stage::Connecting => match e {
                Event::Connected => Self::after_connect(old, new, r),
                Event::ConnectFailed(m) => Self::failed(old, new, ClientError::ConnectionFailed(m), r),
                _ => false,
            },
            Stage::Sending { id, logon } => match e {
                Event::Sent => {
                    let (next_pending, next_awaitable, s) = await_start(old.engine().pending(), old.engine().awaitable(), id);
                    &&& new.engine().pending() == next_pending
                    &&& new.connected()
                    &&& match s {
                        AwaitStart::Ready(p) => Self::answered(old, new, p, logon, r),
                        _ => {
                            &&& r == Action::Receive
                            &&& new.stage() == Stage::Awaiting { id, logon }
                            &&& new.last_id() == old.last_id()
                        },
                    }
                },
                Event::SendFailed(m) => Self::failed(old, new, ClientError::TransportError(m), r),
                _ => false,
            },
            Stage::Awaiting { id, logon } => match e {
                Event::Received(f) => {
                    let (next_pending, o) = frame_step(old.engine().pending(), id, f);
                    match o {
                        FrameOutcome::Probe(p) => {
                            &&& r == Action::Pong(p)
                            &&& new.stage() == old.stage()
                            &&& new.engine().pending() == next_pending
                            &&& new.last_id() == old.last_id()
                        },
                        FrameOutcome::Buffered | FrameOutcome::Skipped => {
                            &&& r == Action::Receive
                            &&& new.stage() == old.stage()
                            &&& new.engine().pending() == next_pending
                            &&& new.last_id() == old.last_id()
                        },
                        FrameOutcome::Matched(p) => {
                            &&& new.engine().pending() == next_pending
                            &&& new.connected()
                            &&& Self::answered(old, new, p, logon, r)
                        },
                        FrameOutcome::ApiFailure(t) => Self::failed(old, new, ClientError::ApiError(t), r),
                        FrameOutcome::Malformed(t) => {
                            &&& r == Action::Finish(Err(ClientError::DecodeError(t)))
                            &&& new.stage() == Stage::Idle
                            &&& new.connected()
                            &&& new.last_id() == old.last_id()
                        },
                    }
                },
                Event::ReadFailed(m) => Self::failed(old, new, ClientError::TransportError(m), r),
                _ => false,
            },
            Stage::Idle => false,
        }
    }

    /// An executor with no connection and no call, which logs on with `auth`
    /// when given one.
    pub fn new(auth: Option<Logon>, recv_window: i64) -> (r: Self)
        ensures
            r.wf(),
            r.auth() == auth,
            r.recv_window() == recv_window,
            r.stage() == Stage::Idle,
            !r.connected(),
            r.last_id() == 0,
            r.engine().pending() == Map::<u64, String>::empty(),
            r.wire() == Seq::<WireOp>::empty(),
    {
        Executor {
            engine: Correlator::new(),
            connected: false,
            auth,
            recv_window,
            method: String::new(),
            params: String::new(),
            retries: 0,
            stage: Stage::Idle,
            wire: Ghost(Seq::empty()),
            call_start: Ghost(0),
            call_base: Ghost(0),
        }
    }

    /// True when no call is in progress and ids are left for one.
    pub fn can_start(&self) -> (r: bool)
        ensures
            r == (self.stage() == Stage::Idle && self.last_id() <= u64::MAX - 4),
    {
        self.stage == Stage::Idle && self.engine.last_issued() <= u64::MAX - 4
    }

    /// True when `e` reports the outcome of the action asked for last.
    pub fn accepts(&self, e: &Event) -> (r: bool)
        ensures
            r == Self::accepts_spec(self.stage(), *e),
    {
        match self.stage {
            Stage::Idle => false,
            Stage::Connecting => match e {
                Event::Connected | Event::ConnectFailed(_) => true,
                _ => false,
            },
            Stage::Sending { .. } => match e {
                Event::Sent | Event::SendFailed(_) => true,
                _ => false,
            },
            Stage::Awaiting { .. } => match e {
                Event::Received(_) | Event::ReadFailed(_) => true,
                _ => false,
            },
        }
    }

    /// Wraps `param` for a call of classification `ty`, stamped now, with the
    /// credential's api key (empty without one).
    pub fn wrap<P>(&self, ty: QueryType, param: P) -> (r: ParamWrapper<P>)
        ensures
            exists|ts: i64|
                #[trigger] wrapped(
                    ty,
                    param,
                    self.recv_window(),
                    self.api_key(),
                    ts,
                    r,
                ),
    {
        let ts = crate::millis_ts();
        let r = match &self.auth {
            Some(a) => wrap(ty, param, self.recv_window, a.api_key.as_str(), ts),
            None => {
                proof {
                    reveal_strlit("");
                }
                assert(""@ =~= Seq::<char>::empty());
                wrap(ty, param, self.recv_window, "", ts)
            },
        };
        assert(wrapped(ty, param, self.recv_window(), self.api_key(), ts, r));
        r
    }

    fn push_op(&mut self, op: WireOp)
        requires
            0 <= old(self).call_start@ <= old(self).wire@.len(),
        ensures
            final(self).wire@ == old(self).wire@.push(op),
            final(self).call_ops() == old(self).call_ops().push(op),
            final(self).call_start == old(self).call_start,
            final(self).call_base == old(self).call_base,
            final(self).engine == old(self).engine,
            final(self).connected == old(self).connected,
            final(self).auth == old(self).auth,
            final(self).recv_window == old(self).recv_window,
            final(self).method == old(self).method,
            final(self).params == old(self).params,
            final(self).retries == old(self).retries,
            final(self).stage == old(self).stage,
            requests(final(self).call_ops()) == requests(old(self).call_ops()) + if op is Request {
                1nat
            } else {
                0nat
            },
            connects(final(self).call_ops()) == connects(old(self).call_ops()) + if op is Connect {
                1nat
            } else {
                0nat
            },
            logons(final(self).call_ops()) == logons(old(self).call_ops()) + if op is Logon {
                1nat
            } else {
                0nat
            },
            needs_logon(final(self).wire@) == match op {
                WireOp::Connect => true,
                WireOp::Logon(_) => false,
                _ => needs_logon(old(self).wire@),
            },
            logon_before_requests(final(self).wire@) == (logon_before_requests(old(self).wire@) && (
            op is Request ==> !needs_logon(old(self).wire@))),
    {
        proof {
            lemma_push_call(self.wire@, self.call_start@, op);
            lemma_push(self.call_ops(), op);
            lemma_push(self.wire@, op);
        }
        self.wire = Ghost(self.wire@.push(op));
    }
}


impl Executor {
    /// True when the call's own request may be written next.
    closed spec fn ready_for_request(&self) -> bool {
        let ops = self.call_ops();
        &&& self.engine.wf()
        &&& 0 <= self.call_start@ <= self.wire@.len()
        &&& self.retries <= 1
        &&& self.connected
        &&& requests(ops) + self.retries <= 1
        &&& connects(ops) + self.retries <= 2
        &&& logons(ops) <= connects(ops)
        &&& self.engine.last_id() == self.call_base@ + logons(ops) + requests(ops)
        &&& self.call_base@ + 4 <= u64::MAX
        &&& self.auth is Some ==> logon_before_requests(self.wire@) && !needs_logon(self.wire@)
    }

    /// Writes the call's own request with the next id.
    fn send_request(&mut self) -> (r: Action)
        requires
            old(self).ready_for_request(),
        ensures
            final(self).wf(),
            Self::sends_request(*old(self), *final(self), r),
            Self::kept(*old(self), *final(self)),
            final(self).connected(),
            final(self).engine().pending() == old(self).engine().pending(),
            final(self).retries == old(self).retries,
            final(self).call_start == old(self).call_start,
            final(self).call_base == old(self).call_base,
    {
        let id = self.engine.issue();
        let frame = request_frame(id, self.method.as_str(), self.params.as_str());
        self.stage = Stage::Sending { id, logon: false };
        self.push_op(WireOp::Request(id));
        Action::Send(frame)
    }

    /// What a step keeps: the credential, the window, the call.
    pub open spec fn kept(old: Executor, new: Executor) -> bool {
        &&& new.auth() == old.auth()
        &&& new.recv_window() == old.recv_window()
        &&& new.method() == old.method()
        &&& new.params() == old.params()
    }

    /// Acts on a fresh connection: a logon when a credential is held, else
    /// the call's own request.
    fn on_connected(&mut self) -> (r: Action)
        requires
            old(self).wf(),
            old(self).stage() == Stage::Connecting,
        ensures
            final(self).wf(),
            Self::after_connect(*old(self), *final(self), r),
            Self::kept(*old(self), *final(self)),
            final(self).engine().pending() == old(self).engine().pending(),
            final(self).retries == old(self).retries,
            final(self).call_start == old(self).call_start,
            final(self).call_base == old(self).call_base,
    {
        self.connected = true;
        match &self.auth {
            None => self.send_request(),
            Some(cred) => match cred.sign(self.recv_window) {
                None => {
                    self.connected = false;
                    self.stage = Stage::Idle;
                    Action::Finish(Err(ClientError::InvalidKey))
                },
                Some(signed) => {
                    let params = signed.params_text();
                    let id = self.engine.issue();
                    let frame = request_frame(id, "session.logon", params.as_str());
                    self.stage = Stage::Sending { id, logon: true };
                    self.push_op(WireOp::Logon(id));
                    let ghost ts = signed.timestamp_view();
                    assert(frame@ == request_text(
                        id,
                        logon_method(),
                        signed_logon_text(
                            old(self).auth().unwrap().api_key@,
                            logon_signature(
                                old(self).auth().unwrap().perm_key@,
                                old(self).auth().unwrap().api_key@,
                                old(self).recv_window(),
                                ts,
                            ),
                            ts,
                            old(self).recv_window(),
                        ),
                    ));
                    Action::Send(frame)
                },
            },
        }
    }

    /// Ends the current attempt with `e`: retries once on a new connection,
    /// or ends the call.
    fn fail(&mut self, e: ClientError) -> (r: Action)
        requires
            old(self).wf(),
            old(self).stage() != Stage::Idle,
        ensures
            final(self).wf(),
            Self::failed(*old(self), *final(self), e, r),
            Self::kept(*old(self), *final(self)),
            final(self).engine().pending() == old(self).engine().pending(),
            final(self).call_start == old(self).call_start,
            final(self).call_base == old(self).call_base,
    {
        match self.stage {
            Stage::Sending { id, .. } | Stage::Awaiting { id, .. } => self.engine.abandon(id),
            _ => {},
        }
        self.connected = false;
        if self.retries == 1 {
            self.retries = 0;
            self.stage = Stage::Connecting;
            self.push_op(WireOp::Connect);
            Action::Connect
        } else {
            self.stage = Stage::Idle;
            Action::Finish(Err(e))
        }
    }

    /// Acts on the response `p` to the request awaited.
    fn on_answer(&mut self, p: String, logon: bool) -> (r: Action)
        requires
            old(self).wf_core(),
            old(self).connected(),
            old(self).stage() is Sending || old(self).stage() is Awaiting,
            logon == match old(self).stage() {
                Stage::Sending { logon, .. } | Stage::Awaiting { logon, .. } => logon,
                _ => false,
            },
        ensures
            final(self).wf(),
            Self::answered(*old(self), *final(self), p, logon, r),
            Self::kept(*old(self), *final(self)),
            final(self).connected(),
            final(self).engine().pending() == old(self).engine().pending(),
            final(self).retries == old(self).retries,
            final(self).call_start == old(self).call_start,
            final(self).call_base == old(self).call_base,
    {
        if logon {
            self.send_request()
        } else {
            self.stage = Stage::Idle;
            Action::Finish(Ok(p))
        }
    }

    fn begin(&mut self, method: &str, params: String, retries: u8) -> (r: Action)
        requires
            old(self).wf(),
            old(self).stage() == Stage::Idle,
            old(self).last_id() <= u64::MAX - 4,
            retries <= 1,
        ensures
            final(self).wf(),
            final(self).auth() == old(self).auth(),
            final(self).recv_window() == old(self).recv_window(),
            final(self).method() == method@,
            final(self).params() == params@,
            final(self).retries() == retries,
            final(self).engine().pending() == old(self).engine().pending(),
            if old(self).connected() {
                final(self).connected() && Self::sends_request(*old(self), *final(self), r)
            } else {
                &&& r == Action::Connect
                &&& final(self).stage() == Stage::Connecting
                &&& final(self).last_id() == old(self).last_id()
            },
            requests(final(self).call_ops()) <= 2,
            connects(final(self).call_ops()) <= 2,
            final(self).has_credential() ==> logon_before_requests(final(self).wire()),
            final(self).current_id_is_last(),
    {
        self.method = String::from_str(method);
        self.params = params;
        self.retries = retries;
        self.call_start = Ghost(self.wire@.len() as int);
        self.call_base = Ghost(self.engine.last_id() as int);
        assert(self.call_ops() =~= Seq::<WireOp>::empty());
        if self.connected {
            self.send_request()
        } else {
            self.stage = Stage::Connecting;
            self.push_op(WireOp::Connect);
            Action::Connect
        }
    }

    /// Begins a call of `method` with this parameters text, to be retried
    /// once: writes its request when a connection is held, else asks for one.
    pub fn start(&mut self, method: &str, params: String) -> (r: Action)
        requires
            old(self).wf(),
            old(self).stage() == Stage::Idle,
            old(self).last_id() <= u64::MAX - 4,
        ensures
            final(self).wf(),
            final(self).auth() == old(self).auth(),
            final(self).recv_window() == old(self).recv_window(),
            final(self).method() == method@,
            final(self).params() == params@,
            final(self).retries() == 1,
            final(self).engine().pending() == old(self).engine().pending(),
            if old(self).connected() {
                final(self).connected() && Self::sends_request(*old(self), *final(self), r)
            } else {
                &&& r == Action::Connect
                &&& final(self).stage() == Stage::Connecting
                &&& final(self).last_id() == old(self).last_id()
            },
            requests(final(self).call_ops()) <= 2,
            connects(final(self).call_ops()) <= 2,
            final(self).has_credential() ==> logon_before_requests(final(self).wire()),
            final(self).current_id_is_last(),
    {
        self.begin(method, params, 1)
    }

    /// Begins a call of `method` with this parameters text that is not
    /// retried: its first failure ends it.
    pub fn start_once(&mut self, method: &str, params: String) -> (r: Action)
        requires
            old(self).wf(),
            old(self).stage() == Stage::Idle,
            old(self).last_id() <= u64::MAX - 4,
        ensures
            final(self).wf(),
            final(self).auth() == old(self).auth(),
            final(self).recv_window() == old(self).recv_window(),
            final(self).method() == method@,
            final(self).params() == params@,
            final(self).retries() == 0,
            final(self).engine().pending() == old(self).engine().pending(),
            if old(self).connected() {
                final(self).connected() && Self::sends_request(*old(self), *final(self), r)
            } else {
                &&& r == Action::Connect
                &&& final(self).stage() == Stage::Connecting
                &&& final(self).last_id() == old(self).last_id()
            },
            requests(final(self).call_ops()) <= 2,
            connects(final(self).call_ops()) <= 2,
            final(self).has_credential() ==> logon_before_requests(final(self).wire()),
            final(self).current_id_is_last(),
    {
        self.begin(method, params, 0)
    }

    /// Takes what became of the last action and says what to do next.
    pub fn step(&mut self, e: Event) -> (r: Action)
        requires
            old(self).wf(),
            Self::accepts_spec(old(self).stage(), e),
        ensures
            final(self).wf(),
            Self::kept(*old(self), *final(self)),
            Self::step_spec(*old(self), e, *final(self), r),
            requests(final(self).call_ops()) <= 2,
            connects(final(self).call_ops()) <= 2,
            final(self).has_credential() ==> logon_before_requests(final(self).wire()),
            final(self).current_id_is_last(),
    {
        match self.stage {
            Stage::Connecting => match e {
                Event::Connected => self.on_connected(),
                Event::ConnectFailed(m) => self.fail(ClientError::ConnectionFailed(m)),
                _ => Action::Receive,
            },
            Stage::Sending { id, logon } => match e {
                Event::Sent => match self.engine.begin_await(id) {
                    AwaitStart::Ready(p) => self.on_answer(p, logon),
                    _ => {
                        self.stage = Stage::Awaiting { id, logon };
                        Action::Receive
                    },
                },
                Event::SendFailed(m) => self.fail(ClientError::TransportError(m)),
                _ => Action::Receive,
            },
            Stage::Awaiting { id, logon } => match e {
                Event::Received(f) => match self.engine.accept(id, f) {
                    FrameOutcome::Probe(p) => {
                        self.push_op(WireOp::Pong);
                        Action::Pong(p)
                    },
                    FrameOutcome::Buffered | FrameOutcome::Skipped => Action::Receive,
                    FrameOutcome::Matched(p) => self.on_answer(p, logon),
                    FrameOutcome::ApiFailure(t) => self.fail(ClientError::ApiError(t)),
                    FrameOutcome::Malformed(t) => {
                        self.stage = Stage::Idle;
                        Action::Finish(Err(ClientError::DecodeError(t)))
                    },
                },
                Event::ReadFailed(m) => self.fail(ClientError::TransportError(m)),
                _ => Action::Receive,
            },
            Stage::Idle => Action::Receive,
        }
    }
}

} // verus!
