//! The dispatch loop's decisions.
//!
//! The host program blocks in the multiplexer's wait and hands each batch of
//! ready tokens to [`DispatchLoop::on_wake`], which decides: stop (the only
//! non-error termination), accept on each ready listener, or fail on a token
//! no registered source owns. The readiness batch is the single
//! authoritative stop check: a pending stop always surfaces as readiness of
//! the control token, so no second, non-blocking poll of the control channel
//! is needed after a batch.

use vstd::prelude::*;

use crate::error::Error;
use crate::registry::{ListenerRegistry, CONTROL_TOKEN};

verus! {

/// State of the dispatch loop.
#[derive(Debug, Clone, Copy, PartialEq, Eq, Structural)]
pub enum DispatchState {
    /// Waiting for readiness.
    Running,
    /// The stop signal was consumed: the loop ends in success. Terminal.
    Stopped,
    /// An error terminated the loop. Terminal.
    Failed { err: Error },
}

/// The decision taken on one batch of ready tokens.
#[derive(Debug, Clone, PartialEq, Eq)]
pub enum WakeDecision {
    /// The control token is ready: consume the stop signal, return success,
    /// and accept nothing further.
    Stop,
    /// Accept one connection on each of these listener tokens, in order,
    /// and hand each accepted connection to the handoff protocol.
    Accept { tokens: Vec<usize> },
    /// A delivered token corresponds to no registered source: fatal.
    Fault { err: Error },
}

/// Whether `tokens[i]` resolves to a listener of `r` for every `i < upto`.
pub open spec fn tokens_known(r: ListenerRegistry, tokens: Seq<usize>, upto: int) -> bool {
    forall|i: int| 0 <= i < upto ==> 1 <= #[trigger] tokens[i] <= r@.len()
}

/// Whether the batch contains the reserved control token.
pub open spec fn has_stop(tokens: Seq<usize>) -> bool {
    exists|i: int| 0 <= i < tokens.len() && tokens[i] == CONTROL_TOKEN
}

/// The dispatch loop: two live states and a decision per wake-up.
#[derive(Debug, Clone, Copy, PartialEq, Eq, Structural)]
pub struct DispatchLoop {
    pub state: DispatchState,
}

impl DispatchLoop {
    /// A freshly started loop.
    pub fn new() -> (d: Self)
        ensures
            d.state == DispatchState::Running,
    {
        Self { state: DispatchState::Running }
    }

    /// Decides one wake-up batch.
    ///
    /// If any ready token is the control token the loop stops with success,
    /// whatever else is ready, and the decision carries no accept — so no
    /// further connection is accepted once the signal is observed. Otherwise,
    /// if every token resolves to a listener, each is to be accepted, in
    /// batch order. Otherwise the first unknown token fails the loop with
    /// `UnknownEventError`.
    pub fn on_wake(&mut self, registry: &ListenerRegistry, ready: &Vec<usize>) -> (d:
        WakeDecision)
        requires
            registry.wf(),
            old(self).state == DispatchState::Running,
        ensures
            has_stop(ready@) ==> d == WakeDecision::Stop && final(self).state
                == DispatchState::Stopped,
            !has_stop(ready@) && tokens_known(*registry, ready@, ready@.len() as int) ==> {
                &&& d matches WakeDecision::Accept { tokens } && tokens@ == ready@
                &&& final(self).state == DispatchState::Running
            },
            !has_stop(ready@) && !tokens_known(*registry, ready@, ready@.len() as int) ==> {
                &&& exists|i: int|
                    {
                        &&& 0 <= i < ready@.len()
                        &&& !(1 <= #[trigger] ready@[i] <= registry@.len())
                        &&& tokens_known(*registry, ready@, i)
                        &&& d == (WakeDecision::Fault {
                            err: Error::UnknownEventError { token: ready@[i] },
                        })
                        &&& final(self).state == (DispatchState::Failed {
                            err: Error::UnknownEventError { token: ready@[i] },
                        })
                    }
            },
    {
        let n = ready.len();
        let mut i: usize = 0;
        while i < n
            invariant
                n == ready@.len(),
                0 <= i <= n,
                forall|j: int| 0 <= j < i ==> ready@[j] != CONTROL_TOKEN,
                old(self) == self,
            decreases n - i,
        {
            if ready[i] == CONTROL_TOKEN {
                self.state = DispatchState::Stopped;
                return WakeDecision::Stop;
            }
            i = i + 1;
        }
        let reg_len = registry.len();
        let mut toks: Vec<usize> = Vec::new();
        let mut k: usize = 0;
        while k < n
            invariant
                n == ready@.len(),
                reg_len == registry@.len(),
                0 <= k <= n,
                tokens_known(*registry, ready@, k as int),
                toks@ =~= ready@.take(k as int),
                forall|j: int| 0 <= j < n ==> ready@[j] != CONTROL_TOKEN,
                old(self) == self,
            decreases n - k,
        {
            let t = ready[k];
            if !(1 <= t && t <= reg_len) {
                let err = Error::UnknownEventError { token: t };
                self.state = DispatchState::Failed { err };
                return WakeDecision::Fault { err };
            }
            toks.push(t);
            k = k + 1;
        }
        proof {
            assert(!has_stop(ready@));
            assert(toks@ =~= ready@);
        }
        WakeDecision::Accept { tokens: toks }
    }
}

/// Checks the sockets subsystem's startup result: success exactly for a
/// zero code, `SubsystemInitError` carrying the code otherwise.
pub fn subsystem_init_result(code: i32) -> (r: Result<(), Error>)
    ensures
        code == 0 <==> r is Ok,
        code != 0 ==> r == Err::<(), Error>(Error::SubsystemInitError { code }),
{
    if code == 0 {
        Ok(())
    } else {
        Err(Error::SubsystemInitError { code })
    }
}

} // verus!
