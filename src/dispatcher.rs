//! The serve loop of one listener, as a state machine: the caller performs
//! each returned action (receive, call an upstream, send a reply) and feeds
//! back what came of it as the next event.
use vstd::prelude::*;

use crate::address::SocketAddress;

verus! {

/// One datagram received by a listener: its bytes and the client to answer.
#[derive(Debug, Clone, PartialEq, Eq)]
pub struct Request {
    /// The raw bytes of the request.
    pub body: Vec<u8>,
    /// The origin of the request.
    pub src_addr: SocketAddress,
}

/// What a request is to the relay: its bytes and its origin.
pub struct RequestModel {
    pub body: Seq<u8>,
    pub src: SocketAddress,
}

impl View for Request {
    type V = RequestModel;

    open spec fn view(&self) -> RequestModel {
        RequestModel { body: self.body@, src: self.src_addr }
    }
}

impl Request {
    /// A request with the given bytes, to be answered at `src_addr`.
    pub fn new(body: Vec<u8>, src_addr: SocketAddress) -> (r: Request)
        ensures
            r@ == (RequestModel { body: body@, src: src_addr }),
    {
        Request { body, src_addr }
    }

    /// The client that sent the request.
    pub fn src_addr(&self) -> (r: SocketAddress)
        ensures
            r == self.src_addr,
    {
        self.src_addr
    }
}

/// Where a listener stands in its life.
#[derive(Debug, Clone, Copy, PartialEq, Eq, Structural)]
pub enum Phase {
    /// Waiting for its socket to be bound.
    Idle,
    /// At the top of the loop: waiting for a request or for shutdown.
    Listening,
    /// Trying the upstreams in order for the pending request.
    Forwarding,
    /// Waiting for the reply to be written back to the client.
    Replying,
    /// Done; it takes no further event.
    Stopped,
}

/// Why a listener ended early.
#[derive(Debug, Clone, Copy, PartialEq, Eq, Structural)]
pub enum DispatchError {
    /// Its address could not be bound.
    Bind,
    /// A reply could not be written to its socket.
    Reply,
}

/// What came of the last action.
#[derive(Debug, PartialEq, Eq)]
pub enum Event {
    /// The socket was bound.
    Bound,
    /// The socket could not be bound.
    BindFailed,
    /// The shutdown signal fired while waiting for a request.
    ShutdownFired,
    /// A datagram arrived.
    Received(Request),
    /// Receiving failed for one datagram; the socket stays usable.
    ReceiveFailed,
    /// The upstream that was called answered with these bytes.
    UpstreamAnswered(Vec<u8>),
    /// The upstream that was called failed.
    UpstreamFailed,
    /// The reply was written.
    ReplySent,
    /// The reply could not be written.
    ReplyFailed,
}

pub enum EventModel {
    Bound,
    BindFailed,
    ShutdownFired,
    Received(RequestModel),
    ReceiveFailed,
    UpstreamAnswered(Seq<u8>),
    UpstreamFailed,
    ReplySent,
    ReplyFailed,
}

impl View for Event {
    type V = EventModel;

    open spec fn view(&self) -> EventModel {
        match self {
            Event::Bound => EventModel::Bound,
            Event::BindFailed => EventModel::BindFailed,
            Event::ShutdownFired => EventModel::ShutdownFired,
            Event::Received(r) => EventModel::Received(r@),
            Event::ReceiveFailed => EventModel::ReceiveFailed,
            Event::UpstreamAnswered(b) => EventModel::UpstreamAnswered(b@),
            Event::UpstreamFailed => EventModel::UpstreamFailed,
            Event::ReplySent => EventModel::ReplySent,
            Event::ReplyFailed => EventModel::ReplyFailed,
        }
    }
}

/// What the caller is to do next.
#[derive(Debug, PartialEq, Eq)]
pub enum Action {
    /// Wait, together, for the next datagram and for the shutdown signal.
    AwaitRequest,
    /// Send `query` to the upstream at position `upstream` of the list.
    Forward { upstream: usize, query: Vec<u8> },
    /// Send `payload` to `to` on this listener's socket.
    Reply { to: SocketAddress, payload: Vec<u8> },
    /// The listener has ended, with this outcome.
    Exit(Result<(), DispatchError>),
}

pub enum ActionModel {
    AwaitRequest,
    Forward { upstream: nat, query: Seq<u8> },
    Reply { to: SocketAddress, payload: Seq<u8> },
    Exit(Result<(), DispatchError>),
}

impl View for Action {
    type V = ActionModel;

    open spec fn view(&self) -> ActionModel {
        match self {
            Action::AwaitRequest => ActionModel::AwaitRequest,
            Action::Forward { upstream, query } => ActionModel::Forward {
                upstream: *upstream as nat,
                query: query@,
            },
            Action::Reply { to, payload } => ActionModel::Reply { to: *to, payload: payload@ },
            Action::Exit(o) => ActionModel::Exit(*o),
        }
    }
}

/// The abstract state of a listener.
pub struct DispatcherModel {
    pub bind: SocketAddress,
    pub upstreams: nat,
    pub phase: Phase,
    /// The position of the upstream being tried, while forwarding.
    pub next: nat,
    /// The request being forwarded.
    pub pending: Option<RequestModel>,
}

impl DispatcherModel {
    /// A request is held exactly while forwarding, and then the upstream
    /// being tried is one of the list.
    pub open spec fn wf(self) -> bool {
        &&& (self.phase == Phase::Forwarding <==> self.pending is Some)
        &&& (self.phase == Phase::Forwarding ==> self.next < self.upstreams)
    }

    /// Whether `e` is an outcome of the action that the listener last asked for.
    pub open spec fn accepts(self, e: EventModel) -> bool {
        match self.phase {
            Phase::Idle => e is Bound || e is BindFailed,
            Phase::Listening => e is ShutdownFired || e is Received || e is ReceiveFailed,
            Phase::Forwarding => e is UpstreamAnswered || e is UpstreamFailed,
            Phase::Replying => e is ReplySent || e is ReplyFailed,
            Phase::Stopped => false,
        }
    }

    /// The same listener back at the top of its loop.
    pub open spec fn listening(self) -> DispatcherModel {
        DispatcherModel { phase: Phase::Listening, next: 0, pending: None, ..self }
    }

    /// The same listener, ended.
    pub open spec fn stopped(self) -> DispatcherModel {
        DispatcherModel { phase: Phase::Stopped, next: 0, pending: None, ..self }
    }

    /// One transition: the next state and the action it asks for.
    ///
    /// A request is forwarded to the upstreams in list order; the first answer
    /// is sent back to the request's origin and ends the attempts; when every
    /// upstream has failed the request is dropped without a reply. Shutdown is
    /// seen only at the top of the loop.
    pub open spec fn step(self, e: EventModel) -> (DispatcherModel, ActionModel) {
        match e {
            EventModel::Bound => (self.listening(), ActionModel::AwaitRequest),
            EventModel::BindFailed => (
                self.stopped(),
                ActionModel::Exit(Err(DispatchError::Bind)),
            ),
            EventModel::ShutdownFired => (self.stopped(), ActionModel::Exit(Ok(()))),
            EventModel::ReceiveFailed => (self.listening(), ActionModel::AwaitRequest),
            EventModel::Received(req) => if self.upstreams == 0 {
                (self.listening(), ActionModel::AwaitRequest)
            } else {
                (
                    DispatcherModel {
                        phase: Phase::Forwarding,
                        next: 0,
                        pending: Some(req),
                        ..self
                    },
                    ActionModel::Forward { upstream: 0, query: req.body },
                )
            },
            EventModel::UpstreamFailed => if self.next + 1 < self.upstreams {
                (
                    DispatcherModel { next: self.next + 1, ..self },
                    ActionModel::Forward {
                        upstream: self.next + 1,
                        query: self.pending->Some_0.body,
                    },
                )
            } else {
                (self.listening(), ActionModel::AwaitRequest)
            },
            EventModel::UpstreamAnswered(resp) => (
                DispatcherModel { phase: Phase::Replying, next: 0, pending: None, ..self },
                ActionModel::Reply { to: self.pending->Some_0.src, payload: resp },
            ),
            EventModel::ReplySent => (self.listening(), ActionModel::AwaitRequest),
            EventModel::ReplyFailed => (
                self.stopped(),
                ActionModel::Exit(Err(DispatchError::Reply)),
            ),
        }
    }

    /// Whether each event of `events` is accepted in turn.
    pub open spec fn accepts_all(self, events: Seq<EventModel>) -> bool
        decreases events.len(),
    {
        if events.len() == 0 {
            true
        } else {
            self.accepts(events[0]) && self.step(events[0]).0.accepts_all(events.drop_first())
        }
    }

    /// The state after `events`, and the actions asked for on the way.
    pub open spec fn run(self, events: Seq<EventModel>) -> (DispatcherModel, Seq<ActionModel>)
        decreases events.len(),
    {
        if events.len() == 0 {
            (self, Seq::empty())
        } else {
            let (s1, a) = self.step(events[0]);
            let (s2, rest) = s1.run(events.drop_first());
            (s2, seq![a] + rest)
        }
    }
}

/// The serve loop of one listener: one bind address, the number of
/// configured upstreams, and the request in flight.
pub struct Dispatcher {
    bind: SocketAddress,
    upstreams: usize,
    phase: Phase,
    next: usize,
    pending: Option<Request>,
}

impl View for Dispatcher {
    type V = DispatcherModel;

    closed spec fn view(&self) -> DispatcherModel {
        DispatcherModel {
            bind: self.bind,
            upstreams: self.upstreams as nat,
            phase: self.phase,
            next: self.next as nat,
            pending: match self.pending {
                Some(r) => Some(r@),
                None => None,
            },
        }
    }
}

impl Dispatcher {
    pub open spec fn wf(&self) -> bool {
        self@.wf()
    }

    /// A listener for `bind` that will try `upstreams` upstreams; it waits for
    /// its socket to be bound.
    pub fn new(bind: SocketAddress, upstreams: usize) -> (r: Dispatcher)
        ensures
            r.wf(),
            r@ == (DispatcherModel {
                bind,
                upstreams: upstreams as nat,
                phase: Phase::Idle,
                next: 0,
                pending: None,
            }),
    {
        Dispatcher { bind, upstreams, phase: Phase::Idle, next: 0, pending: None }
    }

    /// The address this listener binds.
    pub fn bind_address(&self) -> (r: SocketAddress)
        ensures
            r == self@.bind,
    {
        self.bind
    }

    /// Where the listener stands.
    pub fn phase(&self) -> (r: Phase)
        ensures
            r == self@.phase,
    {
        self.phase
    }

    /// Whether `e` may be fed to `step` now.
    pub fn accepts(&self, e: &Event) -> (r: bool)
        ensures
            r == self@.accepts(e@),
    {
        match self.phase {
            Phase::Idle => matches!(e, Event::Bound | Event::BindFailed),
            Phase::Listening => matches!(
                e,
                Event::ShutdownFired | Event::Received(_) | Event::ReceiveFailed
            ),
            Phase::Forwarding => matches!(e, Event::UpstreamAnswered(_) | Event::UpstreamFailed),
            Phase::Replying => matches!(e, Event::ReplySent | Event::ReplyFailed),
            Phase::Stopped => false,
        }
    }

    fn enter_listening(&mut self)
        ensures
            final(self)@ == old(self)@.listening(),
    {
        self.phase = Phase::Listening;
        self.next = 0;
        self.pending = None;
    }

    fn enter_stopped(&mut self)
        ensures
            final(self)@ == old(self)@.stopped(),
    {
        self.phase = Phase::Stopped;
        self.next = 0;
        self.pending = None;
    }

    /// Feeds the outcome of the last action and returns the next action.
    pub fn step(&mut self, e: Event) -> (a: Action)
        requires
            old(self).wf(),
            old(self)@.accepts(e@),
        ensures
            final(self).wf(),
            (final(self)@, a@) == old(self)@.step(e@),
    {
        match e {
            Event::Bound => {
                self.enter_listening();
                Action::AwaitRequest
            },
            Event::BindFailed => {
                self.enter_stopped();
                Action::Exit(Err(DispatchError::Bind))
            },
            Event::ShutdownFired => {
                self.enter_stopped();
                Action::Exit(Ok(()))
            },
            Event::ReceiveFailed => {
                self.enter_listening();
                Action::AwaitRequest
            },
            Event::Received(req) => {
                if self.upstreams == 0 {
                    self.enter_listening();
                    Action::AwaitRequest
                } else {
                    let query = req.body.clone();
                    proof {
                        assert(query@ =~= req.body@);
                    }
                    self.phase = Phase::Forwarding;
                    self.next = 0;
                    self.pending = Some(req);
                    Action::Forward { upstream: 0, query }
                }
            },
            Event::UpstreamFailed => {
                if self.next + 1 < self.upstreams {
                    self.next = self.next + 1;
                    let query = match &self.pending {
                        Some(req) => {
                            let q = req.body.clone();
                            proof {
                                assert(q@ =~= req.body@);
                            }
                            q
                        },
                        None => Vec::new(),
                    };
                    Action::Forward { upstream: self.next, query }
                } else {
                    self.enter_listening();
                    Action::AwaitRequest
                }
            },
            Event::UpstreamAnswered(payload) => {
                let to = match &self.pending {
                    Some(req) => req.src_addr,
                    None => self.bind,
                };
                self.phase = Phase::Replying;
                self.next = 0;
                self.pending = None;
                Action::Reply { to, payload }
            },
            Event::ReplySent => {
                self.enter_listening();
                Action::AwaitRequest
            },
            Event::ReplyFailed => {
                self.enter_stopped();
                Action::Exit(Err(DispatchError::Reply))
            },
        }
    }
}

/// `n` upstream failures in a row.
pub open spec fn failures(n: nat) -> Seq<EventModel> {
    Seq::new(n, |i: int| EventModel::UpstreamFailed)
}

/// Running two runs of events one after the other is running their
/// concatenation.
pub proof fn lemma_run_append(s: DispatcherModel, e1: Seq<EventModel>, e2: Seq<EventModel>)
    ensures
        s.run(e1 + e2) == (s.run(e1).0.run(e2).0, s.run(e1).1 + s.run(e1).0.run(e2).1),
        s.accepts_all(e1 + e2) == (s.accepts_all(e1) && s.run(e1).0.accepts_all(e2)),
    decreases e1.len(),
{
    if e1.len() == 0 {
        assert(e1 + e2 =~= e2);
        assert(Seq::<ActionModel>::empty() + s.run(e2).1 =~= s.run(e2).1);
    } else {
        let s1 = s.step(e1[0]).0;
        let a = s.step(e1[0]).1;
        assert((e1 + e2)[0] == e1[0]);
        assert((e1 + e2).drop_first() =~= e1.drop_first() + e2);
        lemma_run_append(s1, e1.drop_first(), e2);
        let r1 = s1.run(e1.drop_first());
        assert(seq![a] + (r1.1 + r1.0.run(e2).1) =~= (seq![a] + r1.1) + r1.0.run(e2).1);
    }
}

/// A run of one event is one step.
proof fn lemma_run_one(s: DispatcherModel, e: EventModel)
    ensures
        s.run(seq![e]) == (s.step(e).0, seq![s.step(e).1]),
        s.accepts_all(seq![e]) == s.accepts(e),
{
    let rest = seq![e].drop_first();
    assert(rest =~= Seq::<EventModel>::empty());
    assert(s.step(e).0.run(rest) == (s.step(e).0, Seq::<ActionModel>::empty()));
    assert(s.step(e).0.accepts_all(rest));
    assert(seq![s.step(e).1] + Seq::<ActionModel>::empty() =~= seq![s.step(e).1]);
}

/// While forwarding, `j` further failures move on to the next `j` upstreams,
/// each called with the pending request's bytes.
proof fn lemma_failures(s: DispatcherModel, j: nat)
    requires
        s.wf(),
        s.phase == Phase::Forwarding,
        s.next + j < s.upstreams,
    ensures
        s.accepts_all(failures(j)),
        s.run(failures(j)) == (
            DispatcherModel { next: s.next + j, ..s },
            Seq::new(
                j,
                |i: int|
                    ActionModel::Forward {
                        upstream: (s.next + i + 1) as nat,
                        query: s.pending->Some_0.body,
                    },
            ),
        ),
    decreases j,
{
    if j == 0 {
        assert(DispatcherModel { next: s.next + 0, ..s } == s);
        assert(Seq::new(
            0,
            |i: int|
                ActionModel::Forward {
                    upstream: (s.next + i + 1) as nat,
                    query: s.pending->Some_0.body,
                },
        ) =~= Seq::<ActionModel>::empty());
    } else {
        let s1 = s.step(EventModel::UpstreamFailed).0;
        assert(failures(j)[0] == EventModel::UpstreamFailed);
        assert(failures(j).drop_first() =~= failures((j - 1) as nat));
        lemma_failures(s1, (j - 1) as nat);
        assert(DispatcherModel { next: s1.next + (j - 1) as nat, ..s1 } == DispatcherModel {
            next: s.next + j,
            ..s
        });
        let body = s.pending->Some_0.body;
        assert(seq![ActionModel::Forward { upstream: s.next + 1, query: body }] + Seq::new(
            (j - 1) as nat,
            |i: int| ActionModel::Forward { upstream: (s1.next + i + 1) as nat, query: body },
        ) =~= Seq::new(
            j,
            |i: int| ActionModel::Forward { upstream: (s.next + i + 1) as nat, query: body },
        ));
    }
}

/// First answer wins: when the first `m` upstreams fail and the next one
/// answers `resp`, a listener calls upstreams `0..=m` in list order, each with
/// the request's bytes, then sends exactly one reply, `resp`, to the request's
/// origin, and calls no upstream after the one that answered.
pub proof fn lemma_first_answer_wins(
    s: DispatcherModel,
    req: RequestModel,
    m: nat,
    resp: Seq<u8>,
)
    requires
        s.wf(),
        s.phase == Phase::Listening,
        m < s.upstreams,
    ensures
        ({
            let events = seq![EventModel::Received(req)] + failures(m) + seq![
                EventModel::UpstreamAnswered(resp),
            ];
            let (s2, acts) = s.run(events);
            &&& s.accepts_all(events)
            &&& acts.len() == m + 2
            &&& forall|i: int|
                0 <= i <= m ==> #[trigger] acts[i] == (ActionModel::Forward {
                    upstream: i as nat,
                    query: req.body,
                })
            &&& acts[m + 1int] == (ActionModel::Reply { to: req.src, payload: resp })
            &&& s2.phase == Phase::Replying
        }),
{
    let first = seq![EventModel::Received(req)];
    let last = seq![EventModel::UpstreamAnswered(resp)];
    let s1 = s.step(EventModel::Received(req)).0;
    lemma_run_append(s, first, failures(m));
    lemma_run_append(s, first + failures(m), last);
    lemma_run_one(s, EventModel::Received(req));
    lemma_run_one(s.run(first + failures(m)).0, EventModel::UpstreamAnswered(resp));
    lemma_failures(s1, m);
    let acts = s.run(first + failures(m) + last).1;
    assert forall|i: int| 0 <= i <= m implies #[trigger] acts[i] == (ActionModel::Forward {
        upstream: i as nat,
        query: req.body,
    }) by {
        if i > 0 {
            assert(acts[i] == s1.run(failures(m)).1[i - 1]);
        }
    }
}

/// Every upstream fails: the request is dropped, no reply is sent for it, and
/// the listener is back at the top of its loop.
pub proof fn lemma_all_failed_no_reply(s: DispatcherModel, req: RequestModel)
    requires
        s.wf(),
        s.phase == Phase::Listening,
    ensures
        ({
            let events = seq![EventModel::Received(req)] + failures(s.upstreams);
            let (s2, acts) = s.run(events);
            &&& s.accepts_all(events)
            &&& forall|i: int| 0 <= i < acts.len() ==> !(#[trigger] acts[i] is Reply)
            &&& acts.last() == ActionModel::AwaitRequest
            &&& s2 == s.listening()
        }),
{
    let first = seq![EventModel::Received(req)];
    let n = s.upstreams;
    lemma_run_one(s, EventModel::Received(req));
    lemma_run_append(s, first, failures(n));
    let s1 = s.step(EventModel::Received(req)).0;
    if n == 0 {
        assert(failures(0) =~= Seq::<EventModel>::empty());
        assert(first + failures(0) =~= first);
    } else {
        let k = (n - 1) as nat;
        let last = seq![EventModel::UpstreamFailed];
        assert(failures(n) =~= failures(k) + last);
        lemma_run_append(s1, failures(k), last);
        lemma_failures(s1, k);
        lemma_run_one(s1.run(failures(k)).0, EventModel::UpstreamFailed);
        let acts = s.run(first + failures(n)).1;
        assert forall|i: int| 0 <= i < acts.len() implies !(#[trigger] acts[i] is Reply) by {
            if 1 <= i < acts.len() - 1 {
                assert(acts[i] == s1.run(failures(n)).1[i - 1]);
                assert(s1.run(failures(n)).1[i - 1] == s1.run(failures(k)).1[i - 1]);
            }
        }
    }
}

/// Byte fidelity: when an upstream echoes the query it was handed, the client
/// at the request's origin gets back exactly the bytes it sent.
pub proof fn lemma_echo_round_trip(s: DispatcherModel, req: RequestModel, m: nat)
    requires
        s.wf(),
        s.phase == Phase::Listening,
        m < s.upstreams,
    ensures
        ({
            let events = seq![EventModel::Received(req)] + failures(m) + seq![
                EventModel::UpstreamAnswered(req.body),
            ];
            let acts = s.run(events).1;
            &&& s.accepts_all(events)
            &&& acts[m as int] == (ActionModel::Forward { upstream: m, query: req.body })
            &&& acts[m + 1int] == (ActionModel::Reply { to: req.src, payload: req.body })
        }),
{
    lemma_first_answer_wins(s, req, m, req.body);
}

} // verus!
