//! The generic poll-trigger-execute engine.
//!
//! A [`Trigger`] decides whether action is warranted for the current state;
//! an [`Executor`] performs the action and may mutate the state. The
//! [`Watcher`] coordinates one of each over a shared state value, one tick
//! at a time; the caller drives the ticks and sleeps between them.

use vstd::prelude::*;
use crate::codec::DecodeError;
use crate::ledger::LedgerFault;
use crate::state::Address;

verus! {

/// Why a tick failed.
#[derive(Clone, Debug, PartialEq, Eq)]
pub enum EngineError {
    /// The remote ledger could not answer a read.
    Ledger(LedgerFault),
    /// An account that the protocol owes at this point is absent.
    AccountMissing(Address),
    /// An account's bytes do not decode.
    Malformed(DecodeError),
    /// Submission still failed after the last retry; the fault is the last
    /// attempt's.
    Submission(LedgerFault),
    /// A configured address is malformed, or no valid derived address
    /// exists for a seed set.
    Derivation,
}

/// Decides, given the current state, whether action is warranted. May itself
/// consult the remote ledger, so it can fail.
pub trait Trigger<T> {
    /// How many decisions this trigger has been asked for.
    spec fn polls(&self) -> nat;

    /// Every answer this trigger has given, in order; a failed consultation
    /// records no answer.
    spec fn answers(&self) -> Seq<bool>;

    fn should_trigger(&mut self, state: &T) -> (r: Result<bool, EngineError>)
        ensures
            final(self).polls() == old(self).polls() + 1,
            r matches Ok(b) ==> final(self).answers() == old(self).answers().push(b),
            r is Err ==> final(self).answers() == old(self).answers(),
    ;
}

/// Performs a side-effecting action against the remote system using the
/// observed state; may mutate that state to reflect the new reality.
pub trait Executor<T> {
    /// How many executions this executor has been asked for.
    spec fn executions(&self) -> nat;

    fn execute(&mut self, state: &mut T) -> (r: Result<(), EngineError>)
        ensures
            final(self).executions() == old(self).executions() + 1,
    ;
}

/// Owns the poll loop's collaborators and interval. The loop itself suspends
/// between ticks and so lives with the runtime; each iteration is one
/// [`Watcher::tick`].
pub struct Watcher<Tr, Ex> {
    pub trigger: Tr,
    pub executor: Ex,
    pub poll_interval_secs: u64,
}

impl<Tr, Ex> Watcher<Tr, Ex> {
    /// One tick: ask the trigger; when it says to act, run the executor.
    ///
    /// Returns whether the executor ran. The trigger is consulted exactly
    /// once and its recorded answer is the returned bool; the executor runs
    /// exactly when that recorded answer was true. A tick that does not act
    /// leaves the state exactly as it was; a failure of either collaborator
    /// is surfaced as that collaborator's own error, never swallowed. When
    /// the executor fails midway, the state keeps the progress the executor
    /// recorded (an epoch advanced on the ledger stays advanced in memory),
    /// so that the next tick reconciles against the true remote state
    /// instead of repeating the action.
    pub fn tick<T>(&mut self, state: &mut T) -> (r: Result<bool, EngineError>) where
        Tr: Trigger<T>,
        Ex: Executor<T>,

        ensures
            final(self).trigger.polls() == old(self).trigger.polls() + 1,
            r matches Ok(b) ==> final(self).trigger.answers() == old(
                self,
            ).trigger.answers().push(b),
            r is Err ==> final(self).trigger.answers() == old(self).trigger.answers() || final(self).trigger.answers() == old(self).trigger.answers().push(true),
            final(self).executor.executions() == old(self).executor.executions() + (if final(self).trigger.answers() == old(self).trigger.answers().push(true) {
                1nat
            } else {
                0nat
            }),
            r matches Ok(false) ==> *final(state) == *old(state),
            r is Err && final(self).trigger.answers() == old(self).trigger.answers() ==> *final(state) == *old(state),
    {
        let due = match self.trigger.should_trigger(state) {
            Ok(b) => b,
            Err(e) => {
                proof {
                    assert(self.trigger.answers().len() != old(
                        self,
                    ).trigger.answers().push(true).len());
                }
                return Err(e);
            },
        };
        proof {
            if !due {
                assert(old(self).trigger.answers().push(false).last() == false);
                assert(old(self).trigger.answers().push(true).last() == true);
            }
        }
        if due {
            match self.executor.execute(state) {
                Ok(()) => Ok(true),
                Err(e) => Err(e),
            }
        } else {
            Ok(false)
        }
    }
}

} // verus!
