//! The time trigger and the epoch resolution state machine.

use vstd::prelude::*;
use crate::engine::{EngineError, Executor, Trigger};
use crate::codec::{decode_epoch_account, epoch_state_of_tag, spec_i64_from_le_bytes, DecodeError,
    EPOCH_ACCOUNT_LEN};
use crate::instruction::{advance_instruction_data, build_advance_plan, build_resolve_plan,
    resolve_instruction_data, ActionKind, InstructionPlan};
use crate::ledger::{LedgerPort, PortEvent};
use crate::pda::{epoch_result_address, epoch_result_seeds, identity_seeds, pda_of, pool_seeds};
use crate::state::{Address, EpochResultState, TaskAccount};

verus! {

/// How many times one on-chain action attempts submission before its tick
/// fails.
pub const MAX_SUBMIT_ATTEMPTS: u64 = 3;

/// Seconds between submission attempts of one action.
pub const RETRY_DELAY_SECS: u64 = 1;

/// What the time trigger concluded for one tick.
#[derive(Clone, Copy, Debug, PartialEq, Eq, Structural)]
pub enum TriggerVerdict {
    /// Local wall-clock time is not yet past the deadline; the remote clock
    /// was not consulted.
    NotDueLocal,
    /// The remote block time (carried here) is not past the deadline.
    NotDueRemote(i64),
    /// The confirmed slot has no recorded block time; treated as not yet
    /// due, to be retried on the next tick.
    NoBlockTime,
    /// The remote block time (carried here) is past the deadline.
    Due(i64),
}

/// The port history grew by exactly a slot lookup answering `slot`, followed
/// by a block-time lookup of that same slot answering `result`.
pub open spec fn remote_clock_reading(
    pre: Seq<PortEvent>,
    post: Seq<PortEvent>,
    slot: u64,
    result: Result<Option<i64>, Seq<char>>,
) -> bool {
    post == pre.push((PortEvent::SlotLookup { result: Ok(slot) })).push(
        (PortEvent::BlockTimeLookup { slot, result }),
    )
}

/// The remote block time a verdict rests on, when it rests on one.
pub open spec fn verdict_block_time(v: TriggerVerdict) -> Option<i64> {
    match v {
        TriggerVerdict::Due(bt) => Some(bt),
        TriggerVerdict::NotDueRemote(bt) => Some(bt),
        TriggerVerdict::NoBlockTime => None,
        TriggerVerdict::NotDueLocal => None,
    }
}

/// Decides whether an epoch's deadline has passed, judged by the remote
/// ledger's clock.
pub struct TimestampTrigger<P> {
    pub port: P,
    /// How many decisions have been asked of this trigger.
    pub polled: Ghost<nat>,
    /// Every answer this trigger has given, in order.
    pub answered: Ghost<Seq<bool>>,
}

impl<P> TimestampTrigger<P> {
    /// A trigger over the given port.
    pub fn new(port: P) -> (r: TimestampTrigger<P>)
        ensures
            r.port == port,
            r.polled@ == 0,
            r.answered@ == Seq::<bool>::empty(),
    {
        TimestampTrigger { port, polled: Ghost(0nat), answered: Ghost(Seq::empty()) }
    }
}

impl<P: LedgerPort> TimestampTrigger<P> {
    /// The verdict for one tick, given the local wall-clock time `now`.
    ///
    /// Local time is only a cheap pre-filter: when it is not past the
    /// deadline, no remote lookup is made. Only the remote block time can
    /// pronounce the deadline passed, because the remote program enforces
    /// that same clock; every verdict past the pre-filter is pinned to the
    /// slot and block-time answers the port recorded.
    #[verifier::rlimit(100)]
    #[verifier::spinoff_prover]
    pub fn evaluate(&mut self, now: i64, task: &TaskAccount) -> (r: Result<
        TriggerVerdict,
        EngineError,
    >)
        ensures
            (r matches Ok(TriggerVerdict::NotDueLocal)) <==> now <= task.end_at,
            r matches Ok(TriggerVerdict::Due(bt)) ==> now > task.end_at && bt > task.end_at,
            r matches Ok(TriggerVerdict::NotDueRemote(bt)) ==> now > task.end_at && bt
                <= task.end_at,
            r matches Ok(TriggerVerdict::NoBlockTime) ==> now > task.end_at,
            r is Err ==> now > task.end_at,
            r is Err ==> r matches Err(EngineError::Ledger(_)),
            now <= task.end_at ==> final(self).port.history() == old(self).port.history(),
            now <= task.end_at ==> final(self).port.time_lookups() == old(
                self,
            ).port.time_lookups(),
            now > task.end_at ==> old(self).port.time_lookups() < final(self).port.time_lookups()
                <= old(self).port.time_lookups() + 2,
            r matches Ok(v) ==> (v != TriggerVerdict::NotDueLocal ==> exists|slot: u64|
                #[trigger] remote_clock_reading(
                    old(self).port.history(),
                    final(self).port.history(),
                    slot,
                    Ok(verdict_block_time(v)),
                )),
            r matches Err(EngineError::Ledger(f)) ==> (final(self).port.history() == old(
                self,
            ).port.history().push((PortEvent::SlotLookup { result: Err(f.message@) })) || (
            exists|slot: u64|
                #[trigger] remote_clock_reading(
                    old(self).port.history(),
                    final(self).port.history(),
                    slot,
                    Err(f.message@),
                ))),
            final(self).port.submit_attempts() == old(self).port.submit_attempts(),
            final(self).port.resolve_submits() == old(self).port.resolve_submits(),
            final(self).port.advance_submits() == old(self).port.advance_submits(),
            final(self).port.account_fetches() == old(self).port.account_fetches(),
            final(self).polled@ == old(self).polled@,
            final(self).answered@ == old(self).answered@,
    {
        if now <= task.end_at {
            return Ok(TriggerVerdict::NotDueLocal);
        }
        let slot = match self.port.latest_confirmed_slot() {
            Ok(s) => s,
            Err(f) => {
                return Err(EngineError::Ledger(f));
            },
        };
        match self.port.block_time_of_slot(slot) {
            Ok(Some(t)) => {
                proof {
                    assert(remote_clock_reading(
                        old(self).port.history(),
                        self.port.history(),
                        slot,
                        Ok(Some(t)),
                    ));
                    assert(exists|s2: u64|
                        #[trigger] remote_clock_reading(
                            old(self).port.history(),
                            self.port.history(),
                            s2,
                            Ok(Some(t)),
                        ));
                }
                if t > task.end_at {
                    Ok(TriggerVerdict::Due(t))
                } else {
                    Ok(TriggerVerdict::NotDueRemote(t))
                }
            },
            Ok(None) => {
                proof {
                    assert(remote_clock_reading(
                        old(self).port.history(),
                        self.port.history(),
                        slot,
                        Ok::<Option<i64>, Seq<char>>(None),
                    ));
                }
                Ok(TriggerVerdict::NoBlockTime)
            },
            Err(f) => {
                proof {
                    assert(remote_clock_reading(
                        old(self).port.history(),
                        self.port.history(),
                        slot,
                        Err::<Option<i64>, Seq<char>>(f.message@),
                    ));
                }
                Err(EngineError::Ledger(f))
            },
        }
    }
}

impl<P: LedgerPort> Trigger<TaskAccount> for TimestampTrigger<P> {
    open spec fn polls(&self) -> nat {
        self.polled@
    }

    open spec fn answers(&self) -> Seq<bool> {
        self.answered@
    }

    /// True exactly when a freshly read remote block time lies past the
    /// deadline; a missing block-time record or a pre-filter miss answers
    /// false, and every error is the ledger's own fault, wrapped.
    fn should_trigger(&mut self, state: &TaskAccount) -> (r: Result<bool, EngineError>)
        ensures
            final(self).port.submit_attempts() == old(self).port.submit_attempts(),
            final(self).port.resolve_submits() == old(self).port.resolve_submits(),
            final(self).port.advance_submits() == old(self).port.advance_submits(),
            final(self).port.account_fetches() == old(self).port.account_fetches(),
            old(self).port.time_lookups() <= final(self).port.time_lookups() <= old(
                self,
            ).port.time_lookups() + 2,
            r matches Ok(true) ==> old(self).port.time_lookups() < final(self).port.time_lookups(),
            r matches Ok(true) ==> (exists|slot: u64, bt: i64|
                #[trigger] remote_clock_reading(
                    old(self).port.history(),
                    final(self).port.history(),
                    slot,
                    Ok(Some(bt)),
                ) && bt > state.end_at),
            r matches Ok(false) ==> (final(self).port.history() == old(self).port.history() || (
            exists|slot: u64|
                #[trigger] remote_clock_reading(
                    old(self).port.history(),
                    final(self).port.history(),
                    slot,
                    Ok(None),
                )) || (exists|slot: u64, bt: i64|
                #[trigger] remote_clock_reading(
                    old(self).port.history(),
                    final(self).port.history(),
                    slot,
                    Ok(Some(bt)),
                ) && bt <= state.end_at)),
            r is Err ==> r matches Err(EngineError::Ledger(_)),
            r matches Err(EngineError::Ledger(f)) ==> (final(self).port.history() == old(
                self,
            ).port.history().push((PortEvent::SlotLookup { result: Err(f.message@) })) || (
            exists|slot: u64|
                #[trigger] remote_clock_reading(
                    old(self).port.history(),
                    final(self).port.history(),
                    slot,
                    Err(f.message@),
                ))),
    {
        self.polled = Ghost(self.polled@ + 1);
        let now = self.port.now_unix();
        match self.evaluate(now, state) {
            Ok(TriggerVerdict::Due(bt)) => {
                proof {
                    let slot = choose|slot: u64|
                        remote_clock_reading(
                            old(self).port.history(),
                            self.port.history(),
                            slot,
                            Ok(Some(bt)),
                        );
                    assert(remote_clock_reading(
                        old(self).port.history(),
                        self.port.history(),
                        slot,
                        Ok(Some(bt)),
                    ) && bt > state.end_at);
                }
                self.answered = Ghost(self.answered@.push(true));
                Ok(true)
            },
            Ok(v) => {
                proof {
                    match v {
                        TriggerVerdict::NotDueLocal => {},
                        TriggerVerdict::NoBlockTime => {
                            let slot = choose|slot: u64|
                                remote_clock_reading(
                                    old(self).port.history(),
                                    self.port.history(),
                                    slot,
                                    Ok(None),
                                );
                            assert(remote_clock_reading(
                                old(self).port.history(),
                                self.port.history(),
                                slot,
                                Ok::<Option<i64>, Seq<char>>(None),
                            ));
                        },
                        TriggerVerdict::NotDueRemote(bt) => {
                            let slot = choose|slot: u64|
                                remote_clock_reading(
                                    old(self).port.history(),
                                    self.port.history(),
                                    slot,
                                    Ok(Some(bt)),
                                );
                            assert(remote_clock_reading(
                                old(self).port.history(),
                                self.port.history(),
                                slot,
                                Ok(Some(bt)),
                            ) && bt <= state.end_at);
                        },
                        TriggerVerdict::Due(_) => {},
                    }
                }
                self.answered = Ghost(self.answered@.push(false));
                Ok(false)
            },
            Err(e) => Err(e),
        }
    }
}

/// The port history grew by exactly one account fetch of `address`,
/// answering `result`.
pub open spec fn refresh_reading(
    pre: Seq<PortEvent>,
    post: Seq<PortEvent>,
    address: Seq<u8>,
    result: Result<Option<Seq<u8>>, Seq<char>>,
) -> bool {
    post == pre.push((PortEvent::AccountFetch { address, result }))
}

/// The concrete executor: decides the on-chain action from the epoch result
/// state, submits it with bounded retry, and refreshes the state from the
/// ledger after acting.
pub struct ResolveExecutor<P> {
    pub port: P,
    /// The address whose key signs the submitted actions.
    pub signer: Address,
    /// How many executions have been asked of this executor.
    pub executed: Ghost<nat>,
}

impl<P> ResolveExecutor<P> {
    /// An executor over the given port, signing as `signer`.
    pub fn new(port: P, signer: Address) -> (r: ResolveExecutor<P>)
        ensures
            r.port == port,
            r.signer == signer,
            r.executed@ == 0,
    {
        ResolveExecutor { port, signer, executed: Ghost(0nat) }
    }
}

impl<P: LedgerPort> ResolveExecutor<P> {
    /// Submits one planned action, retrying up to [`MAX_SUBMIT_ATTEMPTS`]
    /// times with a fixed delay between attempts. Only submission is
    /// retried, never the surrounding state machine; after the last failed
    /// attempt, that attempt's own fault is surfaced.
    pub fn submit_with_retry(&mut self, plan: &InstructionPlan, kind: ActionKind) -> (r: Result<
        (),
        EngineError,
    >)
        ensures
            final(self).port.time_lookups() == old(self).port.time_lookups(),
            final(self).port.account_fetches() == old(self).port.account_fetches(),
            old(self).port.submit_attempts() < final(self).port.submit_attempts() <= old(
                self,
            ).port.submit_attempts() + MAX_SUBMIT_ATTEMPTS,
            r is Err ==> final(self).port.submit_attempts() == old(self).port.submit_attempts()
                + MAX_SUBMIT_ATTEMPTS,
            r is Err ==> r matches Err(EngineError::Submission(_)),
            r is Ok && kind == ActionKind::Resolve ==> final(self).port.resolve_submits() == old(
                self,
            ).port.resolve_submits() + 1 && final(self).port.advance_submits() == old(
                self,
            ).port.advance_submits(),
            r is Ok && kind == ActionKind::AdvanceEpoch ==> final(self).port.advance_submits()
                == old(self).port.advance_submits() + 1 && final(self).port.resolve_submits()
                == old(self).port.resolve_submits(),
            r is Err ==> final(self).port.resolve_submits() == old(self).port.resolve_submits()
                && final(self).port.advance_submits() == old(self).port.advance_submits(),
            r is Ok ==> final(self).port.history().len() > 0 && (final(self).port.history().last() matches PortEvent::SubmitAttempt {
                kind: k,
                data,
                accounts,
                fault: None,
            } && k == kind && data == plan.data@ && accounts == plan.accounts@),
            r matches Err(EngineError::Submission(f)) ==> final(self).port.history().len() > 0
                && (final(self).port.history().last() matches PortEvent::SubmitAttempt {
                kind: k,
                fault: Some(m),
                ..
            } && k == kind && m == f.message@),
            old(self).port.history().is_prefix_of(final(self).port.history()),
            forall|i: int|
                old(self).port.history().len() <= i < final(self).port.history().len() ==> ((
                #[trigger] final(self).port.history()[i]) matches PortEvent::SubmitAttempt {
                    kind: k,
                    data,
                    accounts,
                    ..
                } && k == kind && data == plan.data@ && accounts == plan.accounts@),
            final(self).signer == old(self).signer,
            final(self).executed@ == old(self).executed@,
    {
        proof {
            crate::ledger::lemma_prefix_refl(self.port.history());
        }
        let mut attempt: u64 = 0;
        loop
            invariant
                attempt < MAX_SUBMIT_ATTEMPTS,
                self.port.submit_attempts() == old(self).port.submit_attempts() + attempt,
                self.port.time_lookups() == old(self).port.time_lookups(),
                self.port.account_fetches() == old(self).port.account_fetches(),
                self.port.resolve_submits() == old(self).port.resolve_submits(),
                self.port.advance_submits() == old(self).port.advance_submits(),
                self.signer == old(self).signer,
                self.executed@ == old(self).executed@,
                old(self).port.history().is_prefix_of(self.port.history()),
                forall|i: int|
                    old(self).port.history().len() <= i < self.port.history().len() ==> ((
                    #[trigger] self.port.history()[i]) matches PortEvent::SubmitAttempt {
                        kind: k,
                        data,
                        accounts,
                        ..
                    } && k == kind && data == plan.data@ && accounts == plan.accounts@),
            decreases MAX_SUBMIT_ATTEMPTS - attempt,
        {
            let ghost h_before = self.port.history();
            match self.port.submit_attempt(plan, kind) {
                Ok(()) => {
                    proof {
                        crate::ledger::lemma_prefix_push(
                            old(self).port.history(),
                            h_before,
                            self.port.history().last(),
                        );
                    }
                    return Ok(());
                },
                Err(fault) => {
                    proof {
                        crate::ledger::lemma_prefix_push(
                            old(self).port.history(),
                            h_before,
                            self.port.history().last(),
                        );
                    }
                    if attempt + 1 >= MAX_SUBMIT_ATTEMPTS {
                        return Err(EngineError::Submission(fault));
                    }
                    self.port.wait_retry_interval();
                    attempt = attempt + 1;
                },
            }
        }
    }

    /// Re-derives the current epoch's result address, fetches the account
    /// at confirmed consistency, decodes it, and overwrites the in-memory
    /// deadline, result state and pool count with the decoded fields of the
    /// fetched bytes. A missing or undecodable account is a hard error; the
    /// state is then left untouched.
    pub fn refresh_epoch_state(&mut self, state: &mut TaskAccount) -> (r: Result<(), EngineError>)
        requires
            old(state).wf(),
        ensures
            final(state).wf(),
            final(state).epoch == old(state).epoch,
            final(state).program_id == old(state).program_id,
            final(state).config_pda == old(state).config_pda,
            final(state).custom_pda == old(state).custom_pda,
            final(self).port.submit_attempts() == old(self).port.submit_attempts(),
            final(self).port.resolve_submits() == old(self).port.resolve_submits(),
            final(self).port.advance_submits() == old(self).port.advance_submits(),
            final(self).port.time_lookups() == old(self).port.time_lookups(),
            old(self).port.account_fetches() <= final(self).port.account_fetches() <= old(
                self,
            ).port.account_fetches() + 1,
            r is Ok ==> final(self).port.account_fetches() == old(self).port.account_fetches() + 1,
            r is Ok ==> final(self).port.history().len() == old(self).port.history().len() + 1,
            r is Ok ==> ((pda_of(epoch_result_seeds(old(state).epoch), old(state).program_id@))
                matches Some(a) && ((final(self).port.history().last())
                matches PortEvent::AccountFetch { address, result } && address == a && (result
                matches Ok(Some(b)) && b.len() == EPOCH_ACCOUNT_LEN && b[41] <= 2 && final(state).end_at == spec_i64_from_le_bytes(b.subrange(32, 40)) && final(state).epoch_result_state == epoch_state_of_tag(b[41]) && final(state).pool_count == b[42]))),
            r is Ok ==> ((pda_of(epoch_result_seeds(old(state).epoch), old(state).program_id@))
                matches Some(a) && final(state).epoch_result_pda@ == a && (exists|b: Seq<u8>|
                #[trigger] refresh_reading(
                    old(self).port.history(),
                    final(self).port.history(),
                    a,
                    Ok(Some(b)),
                ) && b.len() == EPOCH_ACCOUNT_LEN && b[41] <= 2 && final(state).end_at
                    == spec_i64_from_le_bytes(b.subrange(32, 40)) && final(state).epoch_result_state == epoch_state_of_tag(b[41]) && final(state).pool_count
                    == b[42])),
            (r matches Err(EngineError::Derivation)) <==> pda_of(
                epoch_result_seeds(old(state).epoch),
                old(state).program_id@,
            ) is None,
            r matches Err(EngineError::Derivation) ==> final(self).port.history() == old(
                self,
            ).port.history(),
            r matches Err(EngineError::Ledger(f)) ==> ((pda_of(
                epoch_result_seeds(old(state).epoch),
                old(state).program_id@,
            )) matches Some(a) && refresh_reading(
                old(self).port.history(),
                final(self).port.history(),
                a,
                Err(f.message@),
            )),
            r matches Err(EngineError::AccountMissing(m)) ==> ((pda_of(
                epoch_result_seeds(old(state).epoch),
                old(state).program_id@,
            )) matches Some(a) && m@ == a && refresh_reading(
                old(self).port.history(),
                final(self).port.history(),
                a,
                Ok(None),
            )),
            r matches Err(EngineError::Malformed(e)) ==> ((pda_of(
                epoch_result_seeds(old(state).epoch),
                old(state).program_id@,
            )) matches Some(a) && (exists|b: Seq<u8>|
                #[trigger] refresh_reading(
                    old(self).port.history(),
                    final(self).port.history(),
                    a,
                    Ok(Some(b)),
                ) && ((e matches DecodeError::WrongLength) ==> b.len() != EPOCH_ACCOUNT_LEN) && ((
                e matches DecodeError::InvalidTag) ==> b.len() == EPOCH_ACCOUNT_LEN && b[41]
                    > 2))),
            r matches Err(EngineError::Malformed(e)) ==> ((final(self).port.history().last())
                matches PortEvent::AccountFetch { result: Ok(Some(b)), .. } && ((e
                matches DecodeError::WrongLength) ==> b.len() != EPOCH_ACCOUNT_LEN) && ((e
                matches DecodeError::InvalidTag) ==> b.len() == EPOCH_ACCOUNT_LEN && b[41] > 2)),
            old(self).port.history().is_prefix_of(final(self).port.history()),
            r is Err ==> ((r matches Err(EngineError::Derivation)) || (r matches Err(
                EngineError::Ledger(_),
            )) || (r matches Err(EngineError::AccountMissing(_))) || (r matches Err(
                EngineError::Malformed(_),
            ))),
            r is Err ==> *final(state) == *old(state),
            final(self).signer == old(self).signer,
            final(self).executed@ == old(self).executed@,
    {
        proof {
            crate::ledger::lemma_prefix_refl(self.port.history());
        }
        let epoch_result_pda = match epoch_result_address(&state.program_id, state.epoch) {
            Some(a) => a,
            None => {
                return Err(EngineError::Derivation);
            },
        };
        let ghost h_before = self.port.history();
        let bytes = match self.port.fetch_account_bytes(&epoch_result_pda) {
            Ok(Some(b)) => {
                proof {
                    crate::ledger::lemma_prefix_push(
                        h_before,
                        h_before,
                        self.port.history().last(),
                    );
                    assert(refresh_reading(
                        old(self).port.history(),
                        self.port.history(),
                        epoch_result_pda@,
                        Ok(Some(b@)),
                    ));
                }
                b
            },
            Ok(None) => {
                proof {
                    crate::ledger::lemma_prefix_push(
                        h_before,
                        h_before,
                        self.port.history().last(),
                    );
                    assert(refresh_reading(
                        old(self).port.history(),
                        self.port.history(),
                        epoch_result_pda@,
                        Ok::<Option<Seq<u8>>, Seq<char>>(None),
                    ));
                }
                return Err(EngineError::AccountMissing(epoch_result_pda));
            },
            Err(f) => {
                proof {
                    crate::ledger::lemma_prefix_push(
                        h_before,
                        h_before,
                        self.port.history().last(),
                    );
                    assert(refresh_reading(
                        old(self).port.history(),
                        self.port.history(),
                        epoch_result_pda@,
                        Err::<Option<Seq<u8>>, Seq<char>>(f.message@),
                    ));
                }
                return Err(EngineError::Ledger(f));
            },
        };
        let decoded = match decode_epoch_account(&bytes) {
            Ok(a) => a,
            Err(e) => {
                return Err(EngineError::Malformed(e));
            },
        };
        state.epoch_result_pda = epoch_result_pda;
        state.end_at = decoded.end_at;
        state.epoch_result_state = decoded.epoch_result_state;
        state.pool_count = decoded.pool_count;
        Ok(())
    }

    /// Submits the "advance epoch" action for the next epoch, records the
    /// new epoch number in memory on success, then refreshes. Whenever the
    /// action was accepted on the ledger, the in-memory epoch number is
    /// advanced with it, even if the refresh after it fails.
    fn advance_epoch(&mut self, state: &mut TaskAccount) -> (r: Result<(), EngineError>)
        requires
            old(state).wf(),
            old(self).signer.wf(),
            old(state).epoch < u64::MAX,
        ensures
            final(state).wf(),
            final(state).config_pda == old(state).config_pda,
            final(state).program_id == old(state).program_id,
            final(state).custom_pda == old(state).custom_pda,
            final(self).port.time_lookups() == old(self).port.time_lookups(),
            final(self).port.submit_attempts() <= old(self).port.submit_attempts()
                + MAX_SUBMIT_ATTEMPTS,
            old(self).port.account_fetches() <= final(self).port.account_fetches() <= old(
                self,
            ).port.account_fetches() + 1,
            final(self).port.resolve_submits() == old(self).port.resolve_submits(),
            old(self).port.advance_submits() <= final(self).port.advance_submits() <= old(
                self,
            ).port.advance_submits() + 1,
            r is Ok ==> final(self).port.advance_submits() == old(self).port.advance_submits() + 1
                && final(state).epoch == old(state).epoch + 1 && final(self).port.account_fetches() == old(self).port.account_fetches() + 1,
            final(self).port.advance_submits() == old(self).port.advance_submits()
                ==> final(state).epoch == old(state).epoch,
            final(self).port.advance_submits() == old(self).port.advance_submits() + 1
                ==> final(state).epoch == old(state).epoch + 1,
            final(state).epoch == old(state).epoch || final(state).epoch == old(state).epoch + 1,
            (pda_of(epoch_result_seeds((old(state).epoch + 1) as u64), old(state).program_id@)
                is Some && (forall|i: int|
                0 <= i < old(state).pool_count as int ==> (#[trigger] pda_of(
                    pool_seeds(i, (old(state).epoch + 1) as u64),
                    old(state).program_id@,
                )) is Some)) ==> final(self).port.submit_attempts() > old(
                self,
            ).port.submit_attempts(),
            r matches Err(EngineError::Derivation) ==> (final(self).port.submit_attempts() == old(
                self,
            ).port.submit_attempts() || pda_of(
                epoch_result_seeds((old(state).epoch + 1) as u64),
                old(state).program_id@,
            ) is None),
            r is Ok ==> ((pda_of(
                epoch_result_seeds((old(state).epoch + 1) as u64),
                old(state).program_id@,
            )) matches Some(a) && ((final(self).port.history().last())
                matches PortEvent::AccountFetch { address, .. } && address == a)),
            r is Ok ==> ({
                let h = final(self).port.history();
                &&& h.len() >= 2
                &&& (h.last() matches PortEvent::AccountFetch { result: Ok(Some(_)), .. })
                &&& (h[h.len() - 2] matches PortEvent::SubmitAttempt {
                    kind,
                    data,
                    accounts,
                    fault: None,
                } && kind == ActionKind::AdvanceEpoch && data == advance_instruction_data()
                    && accounts.len() == 4 + old(state).pool_count as int && (pda_of(
                    epoch_result_seeds((old(state).epoch + 1) as u64),
                    old(state).program_id@,
                ) matches Some(e) && accounts[2].address@ == e) && (forall|i: int|
                    0 <= i < old(state).pool_count as int ==> ((#[trigger] pda_of(
                        pool_seeds(i, (old(state).epoch + 1) as u64),
                        old(state).program_id@,
                    )) matches Some(pp) && accounts[4 + i].address@ == pp)))
            }),
            r is Ok ==> ((final(self).port.history().last())
                matches PortEvent::AccountFetch { result: Ok(Some(b)), .. } && b.len()
                == EPOCH_ACCOUNT_LEN && b[41] <= 2 && final(state).end_at
                == spec_i64_from_le_bytes(b.subrange(32, 40)) && final(state).epoch_result_state
                == epoch_state_of_tag(b[41]) && final(state).pool_count == b[42]),
            r matches Err(EngineError::Submission(f)) ==> final(self).port.history().len() > 0
                && ((final(self).port.history().last()) matches PortEvent::SubmitAttempt {
                fault: Some(m),
                ..
            } && m == f.message@),
            r matches Err(EngineError::Ledger(f)) ==> ((final(self).port.history().last())
                matches PortEvent::AccountFetch { result: Err(m), .. } && m == f.message@),
            r matches Err(EngineError::AccountMissing(m)) ==> ((final(self).port.history().last())
                matches PortEvent::AccountFetch { address, result: Ok(None) } && address == m@),
            r matches Err(EngineError::Malformed(_)) ==> ((final(self).port.history().last())
                matches PortEvent::AccountFetch { result: Ok(Some(b)), .. } && (b.len()
                != EPOCH_ACCOUNT_LEN || b[41] > 2)),
            old(self).port.history().is_prefix_of(final(self).port.history()),
            final(self).signer == old(self).signer,
            final(self).executed@ == old(self).executed@,
    {
        proof {
            crate::ledger::lemma_prefix_refl(self.port.history());
        }
        let plan = match build_advance_plan(&self.signer, state) {
            Ok(p) => p,
            Err(e) => {
                return Err(e);
            },
        };
        match self.submit_with_retry(&plan, ActionKind::AdvanceEpoch) {
            Ok(()) => {},
            Err(e) => {
                return Err(e);
            },
        }
        let ghost h_mid = self.port.history();
        state.epoch = state.epoch + 1;
        let outcome = match self.refresh_epoch_state(state) {
            Ok(()) => Ok(()),
            Err(e) => Err(e),
        };
        proof {
            crate::ledger::lemma_prefix_trans(
                old(self).port.history(),
                h_mid,
                self.port.history(),
            );
        }
        outcome
    }

    /// One execution of the state machine, on the current result state:
    ///
    /// - `Active`: submit the "resolve" action, then refresh.
    /// - `Resolved`: submit the "advance epoch" action, record the new
    ///   epoch number, then refresh.
    /// - `Pending`: refresh only; when the refresh observes `Resolved`, the
    ///   "advance epoch" action follows within the same execution, then a
    ///   second refresh.
    pub fn run_once(&mut self, state: &mut TaskAccount) -> (r: Result<(), EngineError>)
        requires
            old(state).wf(),
            old(self).signer.wf(),
            old(state).epoch < u64::MAX,
        ensures
            run_once_contract(*old(self), *old(state), *final(self), *final(state), r),
            final(self).executed@ == old(self).executed@,
    {
        match state.epoch_result_state {
            EpochResultState::Active => {
                proof {
                    crate::ledger::lemma_prefix_refl(self.port.history());
                }
                let plan = match build_resolve_plan(&self.signer, state) {
                    Ok(p) => p,
                    Err(e) => {
                        return Err(e);
                    },
                };
                match self.submit_with_retry(&plan, ActionKind::Resolve) {
                    Ok(()) => {},
                    Err(e) => {
                        return Err(e);
                    },
                }
                let ghost h_mid = self.port.history();
                let outcome = match self.refresh_epoch_state(state) {
                    Ok(()) => Ok(()),
                    Err(e) => Err(e),
                };
                proof {
                    crate::ledger::lemma_prefix_trans(
                        old(self).port.history(),
                        h_mid,
                        self.port.history(),
                    );
                }
                outcome
            },
            EpochResultState::Resolved => self.advance_epoch(state),
            EpochResultState::Pending => {
                let ghost h0 = self.port.history();
                match self.refresh_epoch_state(state) {
                    Ok(()) => {},
                    Err(e) => {
                        return Err(e);
                    },
                }
                let ghost h1 = self.port.history();
                if state.epoch_result_state == EpochResultState::Resolved {
                    proof {
                        assert(h1[h0.len() as int] == h1.last());
                    }
                    let outcome = self.advance_epoch(state);
                    proof {
                        crate::ledger::lemma_prefix_trans(h0, h1, self.port.history());
                        crate::ledger::lemma_prefix_index(h1, self.port.history(), h0.len() as int);
                    }
                    outcome
                } else {
                    Ok(())
                }
            },
        }
    }
}

/// Everything one execution of the state machine promises, over the values
/// before and after the call. `run_once` ensures it, and the `Executor`
/// impl restates it, so the trait-dispatched path carries the same contract.
pub open spec fn run_once_contract<P: LedgerPort>(
    pre: ResolveExecutor<P>,
    pre_state: TaskAccount,
    post: ResolveExecutor<P>,
    post_state: TaskAccount,
    r: Result<(), EngineError>,
) -> bool {
    &&& post_state.wf()
    &&& post.signer == pre.signer
    &&& post_state.config_pda == pre_state.config_pda
    &&& post_state.program_id == pre_state.program_id
    &&& post_state.custom_pda == pre_state.custom_pda
    &&& post.port.time_lookups() == pre.port.time_lookups()
    &&& post.port.submit_attempts() <= pre.port.submit_attempts() + MAX_SUBMIT_ATTEMPTS
    &&& pre.port.account_fetches() <= post.port.account_fetches() <= pre.port.account_fetches()
        + 2
    &&& pre.port.history().is_prefix_of(post.port.history())
    &&& (r is Ok ==> post.port.history().len() > 0 && ((post.port.history().last())
        matches PortEvent::AccountFetch { result: Ok(Some(b)), .. } && b.len()
        == EPOCH_ACCOUNT_LEN && b[41] <= 2 && post_state.end_at == spec_i64_from_le_bytes(
        b.subrange(32, 40),
    ) && post_state.epoch_result_state == epoch_state_of_tag(b[41]) && post_state.pool_count
        == b[42]))
    &&& (r matches Err(EngineError::Submission(f)) ==> post.port.history().len() > 0 && ((
    post.port.history().last()) matches PortEvent::SubmitAttempt { fault: Some(m), .. } && m
        == f.message@))
    &&& (r matches Err(EngineError::Ledger(f)) ==> ((post.port.history().last())
        matches PortEvent::AccountFetch { result: Err(m), .. } && m == f.message@))
    &&& (r matches Err(EngineError::AccountMissing(m)) ==> ((post.port.history().last())
        matches PortEvent::AccountFetch { address, result: Ok(None) } && address == m@))
    &&& (r matches Err(EngineError::Malformed(_)) ==> ((post.port.history().last())
        matches PortEvent::AccountFetch { result: Ok(Some(b)), .. } && (b.len()
        != EPOCH_ACCOUNT_LEN || b[41] > 2)))
    &&& (pre_state.epoch_result_state == EpochResultState::Active ==> ({
        &&& post.port.advance_submits() == pre.port.advance_submits()
        &&& pre.port.resolve_submits() <= post.port.resolve_submits() <= pre.port.resolve_submits()
            + 1
        &&& post_state.epoch == pre_state.epoch
        &&& post.port.account_fetches() <= pre.port.account_fetches() + 1
        &&& (r is Ok ==> post.port.resolve_submits() == pre.port.resolve_submits() + 1
            && post.port.account_fetches() == pre.port.account_fetches() + 1)
        &&& (r is Ok ==> ((pda_of(epoch_result_seeds(pre_state.epoch), pre_state.program_id@))
            matches Some(a) && ((post.port.history().last())
            matches PortEvent::AccountFetch { address, .. } && address == a)))
        &&& ((pda_of(identity_seeds(), pre_state.program_id@) is Some && (forall|i: int|
            0 <= i < pre_state.pool_count as int ==> (#[trigger] pda_of(
                pool_seeds(i, pre_state.epoch),
                pre_state.program_id@,
            )) is Some)) ==> post.port.submit_attempts() > pre.port.submit_attempts())
        &&& (r matches Err(EngineError::Derivation) ==> (post.port.submit_attempts()
            == pre.port.submit_attempts() || pda_of(
            epoch_result_seeds(pre_state.epoch),
            pre_state.program_id@,
        ) is None))
        &&& (r is Ok ==> ({
            let h = post.port.history();
            &&& h.len() >= 2
            &&& (h[h.len() - 2] matches PortEvent::SubmitAttempt { kind, data, fault: None, .. }
                && kind == ActionKind::Resolve && data == resolve_instruction_data())
        }))
    }))
    &&& (pre_state.epoch_result_state == EpochResultState::Resolved ==> ({
        &&& post.port.resolve_submits() == pre.port.resolve_submits()
        &&& pre.port.advance_submits() <= post.port.advance_submits() <= pre.port.advance_submits()
            + 1
        &&& post.port.account_fetches() <= pre.port.account_fetches() + 1
        &&& (post.port.advance_submits() == pre.port.advance_submits() ==> post_state.epoch
            == pre_state.epoch)
        &&& (post.port.advance_submits() == pre.port.advance_submits() + 1 ==> post_state.epoch
            == pre_state.epoch + 1)
        &&& (r is Ok ==> post.port.advance_submits() == pre.port.advance_submits() + 1
            && post_state.epoch == pre_state.epoch + 1 && post.port.account_fetches()
            == pre.port.account_fetches() + 1)
        &&& (r is Ok ==> ((pda_of(
            epoch_result_seeds((pre_state.epoch + 1) as u64),
            pre_state.program_id@,
        )) matches Some(a) && ((post.port.history().last())
            matches PortEvent::AccountFetch { address, .. } && address == a)))
        &&& ((pda_of(epoch_result_seeds((pre_state.epoch + 1) as u64), pre_state.program_id@)
            is Some && (forall|i: int|
            0 <= i < pre_state.pool_count as int ==> (#[trigger] pda_of(
                pool_seeds(i, (pre_state.epoch + 1) as u64),
                pre_state.program_id@,
            )) is Some)) ==> post.port.submit_attempts() > pre.port.submit_attempts())
        &&& (r matches Err(EngineError::Derivation) ==> (post.port.submit_attempts()
            == pre.port.submit_attempts() || pda_of(
            epoch_result_seeds((pre_state.epoch + 1) as u64),
            pre_state.program_id@,
        ) is None))
        &&& (r is Ok ==> ({
            let h = post.port.history();
            &&& h.len() >= 2
            &&& (h[h.len() - 2] matches PortEvent::SubmitAttempt {
                kind,
                data,
                accounts,
                fault: None,
            } && kind == ActionKind::AdvanceEpoch && data == advance_instruction_data()
                && accounts.len() == 4 + pre_state.pool_count as int && (pda_of(
                epoch_result_seeds((pre_state.epoch + 1) as u64),
                pre_state.program_id@,
            ) matches Some(e) && accounts[2].address@ == e) && (forall|i: int|
                0 <= i < pre_state.pool_count as int ==> ((#[trigger] pda_of(
                    pool_seeds(i, (pre_state.epoch + 1) as u64),
                    pre_state.program_id@,
                )) matches Some(pp) && accounts[4 + i].address@ == pp)))
        }))
    }))
    &&& (pre_state.epoch_result_state == EpochResultState::Pending ==> ({
        &&& post.port.resolve_submits() == pre.port.resolve_submits()
        &&& pre.port.advance_submits() <= post.port.advance_submits() <= pre.port.advance_submits()
            + 1
        &&& (post.port.advance_submits() == pre.port.advance_submits() ==> post_state.epoch
            == pre_state.epoch)
        &&& (post.port.advance_submits() == pre.port.advance_submits() + 1 ==> post_state.epoch
            == pre_state.epoch + 1)
        &&& (r is Ok && post_state.epoch == pre_state.epoch ==> post.port.submit_attempts()
            == pre.port.submit_attempts() && post.port.account_fetches()
            == pre.port.account_fetches() + 1)
        &&& (r is Ok && post_state.epoch == pre_state.epoch ==> ((pda_of(
            epoch_result_seeds(pre_state.epoch),
            pre_state.program_id@,
        )) matches Some(a) && ((post.port.history().last())
            matches PortEvent::AccountFetch { address, .. } && address == a)))
        &&& (r is Ok && post_state.epoch == pre_state.epoch ==> post_state.epoch_result_state
            != EpochResultState::Resolved)
        &&& (r is Ok && post_state.epoch == pre_state.epoch + 1 ==> ((post.port.history()[
        pre.port.history().len() as int]) matches PortEvent::AccountFetch {
            result: Ok(Some(b)),
            ..
        } && b.len() == EPOCH_ACCOUNT_LEN && b[41] == 2))
        &&& (r is Ok && post_state.epoch == pre_state.epoch + 1 ==> ((pda_of(
            epoch_result_seeds((pre_state.epoch + 1) as u64),
            pre_state.program_id@,
        )) matches Some(a) && ((post.port.history().last())
            matches PortEvent::AccountFetch { address, .. } && address == a)))
        &&& (r is Ok && post_state.epoch == pre_state.epoch + 1 ==> post.port.advance_submits()
            == pre.port.advance_submits() + 1 && post.port.account_fetches()
            == pre.port.account_fetches() + 2)
        &&& (r is Ok && post_state.epoch == pre_state.epoch ==> post.port.history().len()
            == pre.port.history().len() + 1)
        &&& (r matches Err(EngineError::Derivation) ==> (post.port.submit_attempts()
            == pre.port.submit_attempts() || pda_of(
            epoch_result_seeds((pre_state.epoch + 1) as u64),
            pre_state.program_id@,
        ) is None))
        &&& (r is Ok && post_state.epoch == pre_state.epoch + 1 ==> ({
            let h = post.port.history();
            &&& h.len() >= 2
            &&& (h[h.len() - 2] matches PortEvent::SubmitAttempt { kind, data, fault: None, .. }
                && kind == ActionKind::AdvanceEpoch && data == advance_instruction_data())
        }))
    }))
}

impl<P: LedgerPort> Executor<TaskAccount> for ResolveExecutor<P> {
    open spec fn executions(&self) -> nat {
        self.executed@
    }

    /// The machine's full contract on the trait path: a malformed snapshot
    /// or an epoch at the numeric limit is refused with nothing touched;
    /// otherwise everything [`run_once_contract`] states holds.
    fn execute(&mut self, state: &mut TaskAccount) -> (r: Result<(), EngineError>)
        ensures
            final(self).signer == old(self).signer,
            (!old(state).wf() || !old(self).signer.wf() || old(state).epoch == u64::MAX) ==> (r
                matches Err(EngineError::Derivation) && *final(state) == *old(state) && final(self).port == old(self).port),
            (old(state).wf() && old(self).signer.wf() && old(state).epoch < u64::MAX)
                ==> run_once_contract(*old(self), *old(state), *final(self), *final(state), r),
    {
        let guard_ok = state.is_wf() && self.signer.is_wf() && state.epoch < u64::MAX;
        let r = if guard_ok {
            self.run_once(state)
        } else {
            Err(EngineError::Derivation)
        };
        self.executed = Ghost(self.executed@ + 1);
        r
    }
}

} // verus!
