//! The single active relay instance: its shutdown signal, and one listener
//! per bind address.
use vstd::prelude::*;

use crate::address::SocketAddress;
use crate::dispatcher::{Dispatcher, DispatcherModel, DispatchError, EventModel, Phase};
use tokio_util::sync::CancellationToken;

verus! {

#[verifier::external_type_specification]
#[verifier::external_body]
pub struct ExCancellationToken(CancellationToken);

/// Relies on `CancellationToken::new`: it makes a token in the uncancelled
/// state; nothing about the token is stated.
pub assume_specification[ CancellationToken::new ]() -> CancellationToken;

/// Relies on `CancellationToken`'s `Clone`: the copy shares the token's
/// inner node, so it is the same signal (`==` on tokens compares that node),
/// cancelled together with it.
pub assume_specification[ <CancellationToken as Clone>::clone ](
    t: &CancellationToken,
) -> (r: CancellationToken)
    ensures
        r == *t,
;

/// A shutdown signal that has been handled by `fire`.
pub struct Signal {
    token: CancellationToken,
    fired: Ghost<bool>,
}

impl Signal {
    /// The token of the signal.
    pub closed spec fn spec_token(&self) -> CancellationToken {
        self.token
    }

    /// The token of the signal.
    pub fn token(&self) -> (r: &CancellationToken)
        ensures
            *r == self.spec_token(),
    {
        &self.token
    }

    /// Whether the signal was fired: its token, and every clone of it, was
    /// cancelled.
    pub closed spec fn fired(&self) -> bool {
        self.fired@
    }
}

/// Relies on `CancellationToken::cancel`: once it returns, the token and
/// every token cloned from it are cancelled.
#[verifier::external_body]
fn fire(token: CancellationToken) -> (r: Signal)
    ensures
        r.spec_token() == token,
        r.fired(),
{
    token.cancel();
    Signal { token, fired: Ghost(true) }
}

/// Why a start was refused.
#[derive(Debug, Clone, Copy, PartialEq, Eq, Structural)]
pub enum StartError {
    /// An instance is running already; it was left as it was.
    AlreadyRunning,
}

/// A started relay: the shutdown signal its listeners watch, and one
/// listener per bind address, in the order given.
pub struct Instance {
    pub shutdown: CancellationToken,
    pub listeners: Vec<Dispatcher>,
}

/// The slot for the shutdown signal of the one active instance. Holding at
/// most one signal is what keeps a second instance from starting.
pub struct ShutdownSlot {
    token: Option<CancellationToken>,
}

impl View for ShutdownSlot {
    type V = Option<CancellationToken>;

    closed spec fn view(&self) -> Option<CancellationToken> {
        self.token
    }
}

/// The listeners that `start` makes: one per bind address, in order, each
/// waiting for its socket and knowing the number of upstreams.
pub open spec fn fresh_listeners(
    binds: Seq<SocketAddress>,
    upstreams: nat,
    listeners: Seq<Dispatcher>,
) -> bool {
    &&& listeners.len() == binds.len()
    &&& forall|i: int|
        0 <= i < binds.len() ==> {
            &&& #[trigger] listeners[i].wf()
            &&& listeners[i]@ == (DispatcherModel {
                bind: binds[i],
                upstreams,
                phase: Phase::Idle,
                next: 0,
                pending: None,
            })
        }
}

impl ShutdownSlot {
    /// An empty slot: nothing running.
    pub fn new() -> (r: ShutdownSlot)
        ensures
            r@ is None,
    {
        ShutdownSlot { token: None }
    }

    /// Whether an instance is running.
    pub fn is_running(&self) -> (r: bool)
        ensures
            r == self@ is Some,
    {
        self.token.is_some()
    }

    /// Starts an instance for `binds` over `upstreams` upstreams: installs a
    /// new shutdown signal and makes one listener per bind address. When one
    /// is running already the call is refused and changes nothing.
    pub fn start(&mut self, binds: &Vec<SocketAddress>, upstreams: usize) -> (r: Result<
        Instance,
        StartError,
    >)
        ensures
            old(self)@ is Some ==> r == Err::<Instance, StartError>(StartError::AlreadyRunning)
                && final(self)@ == old(self)@,
            old(self)@ is None ==> r is Ok && final(self)@ is Some,
            r matches Ok(inst) ==> final(self)@ == Some(inst.shutdown),
            r matches Ok(inst) ==> fresh_listeners(binds@, upstreams as nat, inst.listeners@),
    {
        if self.token.is_some() {
            return Err(StartError::AlreadyRunning);
        }
        let token = CancellationToken::new();
        let shutdown = token.clone();
        self.token = Some(token);
        let mut listeners: Vec<Dispatcher> = Vec::new();
        let mut i: usize = 0;
        while i < binds.len()
            invariant
                i <= binds@.len(),
                fresh_listeners(binds@.take(i as int), upstreams as nat, listeners@),
            decreases binds@.len() - i,
        {
            let d = Dispatcher::new(binds[i], upstreams);
            let ghost before = listeners@;
            listeners.push(d);
            i = i + 1;
            proof {
                let t = binds@.take(i as int);
                assert forall|j: int| 0 <= j < t.len() implies {
                    &&& #[trigger] listeners@[j].wf()
                    &&& listeners@[j]@ == (DispatcherModel {
                        bind: t[j],
                        upstreams: upstreams as nat,
                        phase: Phase::Idle,
                        next: 0,
                        pending: None,
                    })
                } by {
                    assert(t[j] == binds@[j]);
                    if j < i - 1 {
                        assert(listeners@[j] == before[j]);
                        assert(binds@.take(i - 1)[j] == binds@[j]);
                        assert(before[j].wf());
                    }
                }
            }
        }
        proof {
            assert(binds@.take(i as int) =~= binds@);
        }
        Ok(Instance { shutdown, listeners })
    }

    /// Fires the shutdown signal of the running instance, if any, and empties
    /// the slot so that a later start succeeds; the fired signal is returned.
    /// On an empty slot it does nothing, so stopping twice is stopping once.
    pub fn stop(&mut self) -> (r: Option<Signal>)
        ensures
            final(self)@ is None,
            old(self)@ is None ==> r is None && final(self)@ == old(self)@,
            old(self)@ matches Some(t) ==> r matches Some(s) && s.spec_token() == t && s.fired(),
    {
        match self.token.take() {
            Some(token) => Some(fire(token)),
            None => None,
        }
    }
}

/// Delivers `e` to listener `i` of a set of listeners.
pub open spec fn deliver(ls: Seq<DispatcherModel>, i: int, e: EventModel) -> Seq<DispatcherModel> {
    ls.update(i, ls[i].step(e).0)
}

/// Listeners are independent: when listener `i` fails to bind it alone
/// stops, with a bind error, and every other listener keeps its state, so a
/// bound one goes on forwarding what it receives.
pub proof fn lemma_bind_failure_is_local(ls: Seq<DispatcherModel>, i: int)
    requires
        0 <= i < ls.len(),
        ls[i].phase == Phase::Idle,
    ensures
        ls[i].accepts(EventModel::BindFailed),
        ls[i].step(EventModel::BindFailed).1 == crate::dispatcher::ActionModel::Exit(
            Err(DispatchError::Bind),
        ),
        deliver(ls, i, EventModel::BindFailed)[i].phase == Phase::Stopped,
        deliver(ls, i, EventModel::BindFailed).len() == ls.len(),
        forall|j: int|
            0 <= j < ls.len() && j != i ==> #[trigger] deliver(ls, i, EventModel::BindFailed)[j]
                == ls[j],
{
}

} // verus!
