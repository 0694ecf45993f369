//! The connection lifecycle: the per-connection state machine, the
//! reconnect-once retry policy, and the pool bookkeeping. The runtime
//! around the library performs the actual dialing, writing and reading;
//! it feeds every observed outcome through these functions, which decide
//! what happens next.

use vstd::prelude::*;
use crate::error::Error;

verus! {

/// The states of one connection instance. An I/O failure is terminal for
/// the instance: it goes back to `Disconnected` and a fresh instance must
/// be dialed; a failed connection is never resurrected in place.
#[derive(Clone, Copy, Debug, PartialEq, Eq, Structural)]
pub enum ConnState {
    Disconnected,
    Connecting,
    Ready,
    InUse,
}

/// The events one connection instance observes.
#[derive(Clone, Copy, Debug, PartialEq, Eq, Structural)]
pub enum ConnEvent {
    /// A dial was started.
    Dial,
    /// The dial completed.
    Connected,
    /// The dial failed.
    ConnectFailed,
    /// A worker checked the connection out for one command/reply cycle.
    Checkout,
    /// The sentinel was read: the command/reply cycle is complete.
    ReplyDone,
    /// A write or read failed, or the read bound elapsed.
    IoFailed,
}

/// The connection state machine:
/// `Disconnected -> Connecting -> Ready`, `Ready <-> InUse` around each
/// command/reply cycle, and any I/O failure back to `Disconnected`.
/// An event that does not apply in the current state leaves it unchanged.
pub open spec fn spec_conn_step(s: ConnState, ev: ConnEvent) -> ConnState {
    match ev {
        ConnEvent::IoFailed => ConnState::Disconnected,
        ConnEvent::Dial => if s is Disconnected {
            ConnState::Connecting
        } else {
            s
        },
        ConnEvent::Connected => if s is Connecting {
            ConnState::Ready
        } else {
            s
        },
        ConnEvent::ConnectFailed => if s is Connecting {
            ConnState::Disconnected
        } else {
            s
        },
        ConnEvent::Checkout => if s is Ready {
            ConnState::InUse
        } else {
            s
        },
        ConnEvent::ReplyDone => if s is InUse {
            ConnState::Ready
        } else {
            s
        },
    }
}

/// Advances one connection's state by one observed event.
pub fn conn_step(s: ConnState, ev: ConnEvent) -> (r: ConnState)
    ensures
        r == spec_conn_step(s, ev),
{
    match ev {
        ConnEvent::IoFailed => ConnState::Disconnected,
        ConnEvent::Dial => match s {
            ConnState::Disconnected => ConnState::Connecting,
            _ => s,
        },
        ConnEvent::Connected => match s {
            ConnState::Connecting => ConnState::Ready,
            _ => s,
        },
        ConnEvent::ConnectFailed => match s {
            ConnState::Connecting => ConnState::Disconnected,
            _ => s,
        },
        ConnEvent::Checkout => match s {
            ConnState::Ready => ConnState::InUse,
            _ => s,
        },
        ConnEvent::ReplyDone => match s {
            ConnState::InUse => ConnState::Ready,
            _ => s,
        },
    }
}

/// Law: no failed connection is ever resurrected: after an I/O failure the
/// instance is `Disconnected`, and from there no event but a fresh dial
/// leaves that state.
pub proof fn lemma_failure_is_terminal(s: ConnState, ev: ConnEvent)
    ensures
        spec_conn_step(s, ConnEvent::IoFailed) == ConnState::Disconnected,
        ev != ConnEvent::Dial ==> spec_conn_step(ConnState::Disconnected, ev)
            == ConnState::Disconnected,
{
}

/// The terminal outcome of one send/read attempt on one connection.
#[derive(Clone, Debug, PartialEq, Eq)]
pub enum AttemptOutcome {
    /// The sentinel arrived; these are the lines read, sentinel included.
    Delivered(Vec<String>),
    /// The connection was unreachable or closed mid-reply.
    ConnectionLost,
    /// The per-line read bound elapsed before the sentinel.
    TimedOut,
}

/// What the client does after one attempt.
#[derive(Clone, Debug, PartialEq, Eq)]
pub enum NextStep {
    /// Hand the raw lines to the decoder.
    Deliver(Vec<String>),
    /// Drop the connection and retry once on a fresh one.
    RetryOnce,
    /// Surface the error to the facade unmodified.
    Fail(Error),
}

/// What follows one attempt, as a function of the retries already spent:
/// a delivered reply goes to the decoder; a connection or timeout failure
/// retries when no retry was spent yet, and surfaces its own error kind
/// otherwise.
pub open spec fn spec_step_after(retries_spent: u64, outcome: AttemptOutcome) -> NextStep {
    match outcome {
        AttemptOutcome::Delivered(lines) => NextStep::Deliver(lines),
        AttemptOutcome::ConnectionLost => if retries_spent == 0 {
            NextStep::RetryOnce
        } else {
            NextStep::Fail(Error::Connection)
        },
        AttemptOutcome::TimedOut => if retries_spent == 0 {
            NextStep::RetryOnce
        } else {
            NextStep::Fail(Error::Timeout)
        },
    }
}

/// Law: exactly one reconnect-and-retry is allowed per command. A retry is
/// only ever granted on the first failure; once a retry was spent, any
/// further failure surfaces its error unmodified, never another retry.
/// Parse and engine errors never reach this decision at all: an attempt's
/// outcome carries only transport results, so known-bad data is never
/// retried.
pub proof fn lemma_retry_granted_once(retries_spent: u64, outcome: AttemptOutcome)
    ensures
        spec_step_after(retries_spent, outcome) is RetryOnce ==> retries_spent == 0 && !(outcome
            is Delivered),
        retries_spent >= 1 ==> !(spec_step_after(retries_spent, outcome) is RetryOnce),
{
}

/// Decides what follows one attempt, per the reconnect-once policy.
pub fn step_after_attempt(retries_spent: u64, outcome: AttemptOutcome) -> (r: NextStep)
    ensures
        r == spec_step_after(retries_spent, outcome),
{
    match outcome {
        AttemptOutcome::Delivered(lines) => NextStep::Deliver(lines),
        AttemptOutcome::ConnectionLost => {
            if retries_spent == 0 {
                NextStep::RetryOnce
            } else {
                NextStep::Fail(Error::Connection)
            }
        },
        AttemptOutcome::TimedOut => {
            if retries_spent == 0 {
                NextStep::RetryOnce
            } else {
                NextStep::Fail(Error::Timeout)
            }
        },
    }
}

/// Resolves one whole command round from the outcomes of its attempts: the
/// first attempt's outcome, and the second's where a retry happened. A
/// command is attempted at most twice; a round whose two attempts both
/// fail surfaces the second failure's error — there is no further retry.
pub fn resolve_round(first: AttemptOutcome, second: AttemptOutcome) -> (r: Result<
    Vec<String>,
    Error,
>)
    ensures
        (match first {
            AttemptOutcome::Delivered(lines) => r == Ok::<Vec<String>, Error>(lines),
            _ => match second {
                AttemptOutcome::Delivered(lines) => r == Ok::<Vec<String>, Error>(lines),
                AttemptOutcome::ConnectionLost => r == Err::<Vec<String>, Error>(
                    Error::Connection,
                ),
                AttemptOutcome::TimedOut => r == Err::<Vec<String>, Error>(Error::Timeout),
            },
        }),
{
    match step_after_attempt(0, first) {
        NextStep::Deliver(lines) => Ok(lines),
        NextStep::Fail(e) => Err(e),
        NextStep::RetryOnce => match step_after_attempt(1, second) {
            NextStep::Deliver(lines) => Ok(lines),
            NextStep::Fail(e) => Err(e),
            NextStep::RetryOnce => {
                assert(false);
                Err(Error::Connection)
            },
        },
    }
}

/// The pool's bookkeeping, as the runtime must keep it: one slot per
/// pooled connection. `busy` marks a slot lent out to a worker; `live`
/// marks a slot holding a usable connection (a discarded one is replaced
/// lazily, on its next checkout).
pub struct Pool {
    pub busy: Vec<bool>,
    pub live: Vec<bool>,
}

impl Pool {
    /// Both bookkeeping columns cover the same slots.
    pub open spec fn wf(&self) -> bool {
        self.busy@.len() == self.live@.len()
    }

    /// A pool of `size` slots, all free, none yet dialed.
    pub fn new(size: usize) -> (r: Pool)
        ensures
            r.wf(),
            r.busy@.len() == size,
            forall|k: int| 0 <= k < size ==> r.busy@[k] == false,
            forall|k: int| 0 <= k < size ==> r.live@[k] == false,
    {
        let mut busy: Vec<bool> = Vec::new();
        let mut live: Vec<bool> = Vec::new();
        let mut i: usize = 0;
        while i < size
            invariant
                0 <= i <= size,
                busy@.len() == i,
                live@.len() == i,
                forall|k: int| 0 <= k < i ==> busy@[k] == false,
                forall|k: int| 0 <= k < i ==> live@[k] == false,
            decreases size - i,
        {
            busy.push(false);
            live.push(false);
            i = i + 1;
        }
        Pool { busy, live }
    }

    /// Takes the first free slot for exactly one command/reply cycle.
    /// The grant is exclusive: the slot was free and is now busy, every
    /// other slot is untouched. Returns the slot and whether it still
    /// holds a usable connection; `None` exactly when every slot is lent
    /// out (the caller then blocks or fails, it never shares a slot).
    pub fn checkout(&mut self) -> (r: Option<(usize, bool)>)
        requires
            old(self).wf(),
        ensures
            final(self).wf(),
            final(self).busy@.len() == old(self).busy@.len(),
            final(self).live@ == old(self).live@,
            r matches Some((i, was_live)) ==> 0 <= i < old(self).busy@.len() && old(
                self,
            ).busy@[i as int] == false && final(self).busy@[i as int] == true && was_live == old(
                self,
            ).live@[i as int] && (forall|k: int|
                0 <= k < old(self).busy@.len() && k != i ==> final(self).busy@[k] == old(
                    self,
                ).busy@[k]),
            r is None ==> final(self).busy@ == old(self).busy@ && (forall|k: int|
                0 <= k < old(self).busy@.len() ==> old(self).busy@[k] == true),
    {
        let n = self.busy.len();
        let mut i: usize = 0;
        while i < n
            invariant
                self.wf(),
                self.busy@ == old(self).busy@,
                self.live@ == old(self).live@,
                n == self.busy@.len(),
                0 <= i <= n,
                forall|k: int| 0 <= k < i ==> self.busy@[k] == true,
            decreases n - i,
        {
            if !self.busy[i] {
                let was_live = self.live[i];
                self.busy.set(i, true);
                return Some((i, was_live));
            }
            i = i + 1;
        }
        None
    }

    /// Returns a slot after a successful cycle: the slot is free again and
    /// marked live, ready for the next checkout.
    pub fn checkin(&mut self, i: usize)
        requires
            old(self).wf(),
            i < old(self).busy@.len(),
            old(self).busy@[i as int] == true,
        ensures
            final(self).wf(),
            final(self).busy@ == old(self).busy@.update(i as int, false),
            final(self).live@ == old(self).live@.update(i as int, true),
    {
        self.busy.set(i, false);
        self.live.set(i, true);
    }

    /// Returns a slot after a failed cycle: the slot is free again but its
    /// connection is discarded, so the next checkout must dial afresh. A
    /// failure path thus never leaks the slot out of circulation.
    pub fn discard(&mut self, i: usize)
        requires
            old(self).wf(),
            i < old(self).busy@.len(),
            old(self).busy@[i as int] == true,
        ensures
            final(self).wf(),
            final(self).busy@ == old(self).busy@.update(i as int, false),
            final(self).live@ == old(self).live@.update(i as int, false),
    {
        self.busy.set(i, false);
        self.live.set(i, false);
    }
}

/// Law: checkouts are exclusive. A slot granted by one checkout (free
/// before, busy after) cannot be granted by a second checkout before it is
/// checked in: any slot still free afterwards is a different one, so two
/// concurrent workers never hold the same connection.
pub proof fn lemma_checkout_exclusive(before: Seq<bool>, after: Seq<bool>, i: int, j: int)
    requires
        0 <= i < before.len(),
        before[i] == false,
        after == before.update(i, true),
        0 <= j < after.len(),
        after[j] == false,
    ensures
        j != i,
{
}

} // verus!
