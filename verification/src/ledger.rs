//! The boundary to the remote ledger.
//!
//! [`LedgerPort`] is the one interface through which the keeper reads the
//! remote ledger and submits actions. Its contract promises nothing about
//! which answer the remote side gives — only that each call appends one
//! [`PortEvent`] carrying the arguments handed over and the answer that came
//! back — so everything proved over it holds for every remote behaviour,
//! while the engine's contracts can still tie each decision to the recorded
//! answers. [`RecordedLedger`] carries that history for a real transport (a
//! [`RawLedger`], implemented at the process boundary); [`ScriptedLedger`]
//! is the in-memory implementation, answering from scripts, for tests and
//! offline runs.

use vstd::prelude::*;
use crate::instruction::{AccountSpec, ActionKind, InstructionPlan};
use crate::state::Address;

verus! {

/// A transport-level failure reported by the remote ledger.
#[derive(Clone, Debug, PartialEq, Eq)]
pub struct LedgerFault {
    pub message: String,
}

/// One remote interaction, as the port's history records it: the arguments
/// of interest and the answer, with a fault reduced to its message.
pub enum PortEvent {
    /// A lookup of the most recent confirmed slot.
    SlotLookup { result: Result<u64, Seq<char>> },
    /// A lookup of a slot's recorded block time.
    BlockTimeLookup { slot: u64, result: Result<Option<i64>, Seq<char>> },
    /// A read of an account's bytes at confirmed consistency.
    AccountFetch { address: Seq<u8>, result: Result<Option<Seq<u8>>, Seq<char>> },
    /// One signed submission attempt; `fault` is `None` exactly when the
    /// attempt was accepted.
    SubmitAttempt {
        kind: ActionKind,
        data: Seq<u8>,
        accounts: Seq<AccountSpec>,
        fault: Option<Seq<char>>,
    },
}

/// One recorded submission attempt, as plain data for callers and tests.
#[derive(Clone, Debug)]
pub struct SubmitRecord {
    pub kind: ActionKind,
    pub accepted: bool,
    pub plan: InstructionPlan,
}

/// How many of the records are accepted submissions of the given kind.
pub open spec fn count_accepted(s: Seq<SubmitRecord>, kind: ActionKind) -> nat
    decreases s.len(),
{
    if s.len() == 0 {
        0
    } else {
        count_accepted(s.drop_last(), kind) + (if s.last().accepted && s.last().kind == kind {
            1nat
        } else {
            0nat
        })
    }
}

/// Appending a record raises the count by one exactly when the record is an
/// accepted submission of the counted kind.
pub proof fn lemma_count_accepted_push(s: Seq<SubmitRecord>, r: SubmitRecord, kind: ActionKind)
    ensures
        count_accepted(s.push(r), kind) == count_accepted(s, kind) + (if r.accepted && r.kind
            == kind {
            1nat
        } else {
            0nat
        }),
{
    assert(s.push(r).drop_last() =~= s);
    assert(s.push(r).last() == r);
}

/// Every history is a prefix of itself.
pub proof fn lemma_prefix_refl(a: Seq<PortEvent>)
    ensures
        a.is_prefix_of(a),
{
    assert(a =~= a.subrange(0, a.len() as int));
}

/// A prefix stays a prefix when the longer history grows by one event.
pub proof fn lemma_prefix_push(a: Seq<PortEvent>, b: Seq<PortEvent>, e: PortEvent)
    requires
        a.is_prefix_of(b),
    ensures
        a.is_prefix_of(b.push(e)),
{
    assert(a =~= b.push(e).subrange(0, a.len() as int));
}

/// Being a prefix carries across an intermediate history.
pub proof fn lemma_prefix_trans(a: Seq<PortEvent>, b: Seq<PortEvent>, c: Seq<PortEvent>)
    requires
        a.is_prefix_of(b),
        b.is_prefix_of(c),
    ensures
        a.is_prefix_of(c),
{
    assert(a =~= c.subrange(0, a.len() as int));
}

/// An element of a prefix is that element of the longer history.
pub proof fn lemma_prefix_index(a: Seq<PortEvent>, b: Seq<PortEvent>, i: int)
    requires
        a.is_prefix_of(b),
        0 <= i < a.len(),
    ensures
        b[i] == a[i],
{
    assert(a[i] == b.subrange(0, a.len() as int)[i]);
}

/// The operations the keeper needs from the remote ledger, with a recorded
/// history of the calls it makes.
///
/// `history` is the interleaved record of every remote interaction, answers
/// included; the counting functions summarize it for the engine's counted
/// contracts. No method promises anything about which answer the remote
/// side gives — each only records the one that came back.
pub trait LedgerPort {
    /// Every remote interaction so far, in order.
    spec fn history(&self) -> Seq<PortEvent>;

    /// Submission attempts made so far, accepted or not.
    spec fn submit_attempts(&self) -> nat;

    /// Accepted "resolve" submissions so far.
    spec fn resolve_submits(&self) -> nat;

    /// Accepted "advance epoch" submissions so far.
    spec fn advance_submits(&self) -> nat;

    /// Slot and block-time lookups so far.
    spec fn time_lookups(&self) -> nat;

    /// Account fetches so far.
    spec fn account_fetches(&self) -> nat;

    /// The local wall-clock time, as seconds since the Unix epoch.
    fn now_unix(&mut self) -> (r: i64)
        ensures
            final(self).history() == old(self).history(),
            final(self).submit_attempts() == old(self).submit_attempts(),
            final(self).resolve_submits() == old(self).resolve_submits(),
            final(self).advance_submits() == old(self).advance_submits(),
            final(self).time_lookups() == old(self).time_lookups(),
            final(self).account_fetches() == old(self).account_fetches(),
    ;

    /// The most recent confirmed slot of the remote ledger.
    fn latest_confirmed_slot(&mut self) -> (r: Result<u64, LedgerFault>)
        ensures
            final(self).history() == old(self).history().push((PortEvent::SlotLookup {
                result: match r {
                    Ok(s) => Ok(s),
                    Err(f) => Err(f.message@),
                },
            })),
            final(self).submit_attempts() == old(self).submit_attempts(),
            final(self).resolve_submits() == old(self).resolve_submits(),
            final(self).advance_submits() == old(self).advance_submits(),
            final(self).time_lookups() == old(self).time_lookups() + 1,
            final(self).account_fetches() == old(self).account_fetches(),
    ;

    /// The recorded block time of a slot; `None` when the slot has no
    /// recorded time.
    fn block_time_of_slot(&mut self, slot: u64) -> (r: Result<Option<i64>, LedgerFault>)
        ensures
            final(self).history() == old(self).history().push((PortEvent::BlockTimeLookup {
                slot: slot,
                result: match r {
                    Ok(t) => Ok(t),
                    Err(f) => Err(f.message@),
                },
            })),
            final(self).submit_attempts() == old(self).submit_attempts(),
            final(self).resolve_submits() == old(self).resolve_submits(),
            final(self).advance_submits() == old(self).advance_submits(),
            final(self).time_lookups() == old(self).time_lookups() + 1,
            final(self).account_fetches() == old(self).account_fetches(),
    ;

    /// The bytes of the account at `address`, read at confirmed consistency;
    /// `None` when no such account exists.
    fn fetch_account_bytes(&mut self, address: &Address) -> (r: Result<
        Option<Vec<u8>>,
        LedgerFault,
    >)
        ensures
            final(self).history() == old(self).history().push((PortEvent::AccountFetch {
                address: address@,
                result: match r {
                    Ok(Some(b)) => Ok(Some(b@)),
                    Ok(None) => Ok(None),
                    Err(f) => Err(f.message@),
                },
            })),
            final(self).submit_attempts() == old(self).submit_attempts(),
            final(self).resolve_submits() == old(self).resolve_submits(),
            final(self).advance_submits() == old(self).advance_submits(),
            final(self).time_lookups() == old(self).time_lookups(),
            final(self).account_fetches() == old(self).account_fetches() + 1,
    ;

    /// One attempt to sign, submit and confirm the planned action.
    fn submit_attempt(&mut self, plan: &InstructionPlan, kind: ActionKind) -> (r: Result<
        (),
        LedgerFault,
    >)
        ensures
            final(self).history() == old(self).history().push((PortEvent::SubmitAttempt {
                kind: kind,
                data: plan.data@,
                accounts: plan.accounts@,
                fault: match r {
                    Ok(_) => None,
                    Err(f) => Some(f.message@),
                },
            })),
            final(self).submit_attempts() == old(self).submit_attempts() + 1,
            final(self).time_lookups() == old(self).time_lookups(),
            final(self).account_fetches() == old(self).account_fetches(),
            r is Ok && kind == ActionKind::Resolve ==> final(self).resolve_submits() == old(self).resolve_submits() + 1
                && final(self).advance_submits() == old(self).advance_submits(),
            r is Ok && kind == ActionKind::AdvanceEpoch ==> final(self).advance_submits() == old(self).advance_submits() + 1
                && final(self).resolve_submits() == old(self).resolve_submits(),
            r is Err ==> final(self).resolve_submits() == old(self).resolve_submits()
                && final(self).advance_submits() == old(self).advance_submits(),
    ;

    /// Suspends for the fixed inter-attempt delay between submission
    /// retries.
    fn wait_retry_interval(&mut self)
        ensures
            final(self).history() == old(self).history(),
            final(self).submit_attempts() == old(self).submit_attempts(),
            final(self).resolve_submits() == old(self).resolve_submits(),
            final(self).advance_submits() == old(self).advance_submits(),
            final(self).time_lookups() == old(self).time_lookups(),
            final(self).account_fetches() == old(self).account_fetches(),
    ;
}

/// The raw transport to a real remote ledger, with no recorded history and
/// no contract: the process's boundary implements this, and
/// [`RecordedLedger`] turns it into a [`LedgerPort`].
pub trait RawLedger {
    fn raw_now_unix(&mut self) -> (r: i64);

    fn raw_latest_confirmed_slot(&mut self) -> (r: Result<u64, LedgerFault>);

    fn raw_block_time_of_slot(&mut self, slot: u64) -> (r: Result<Option<i64>, LedgerFault>);

    fn raw_fetch_account_bytes(&mut self, address: &Address) -> (r: Result<
        Option<Vec<u8>>,
        LedgerFault,
    >);

    fn raw_submit_attempt(&mut self, plan: &InstructionPlan, kind: ActionKind) -> (r: Result<
        (),
        LedgerFault,
    >);

    fn raw_wait_retry_interval(&mut self);
}

/// A raw transport with the recorded history that [`LedgerPort`] owes: each
/// call is passed through and logged, so the engine's contracts hold
/// whatever the transport answers.
pub struct RecordedLedger<P> {
    pub raw: P,
    /// Every submission attempt made, in order.
    pub submits: Vec<SubmitRecord>,
    /// Every slot and block-time lookup made, in order.
    pub lookups: Vec<TimeLookupRecord>,
    /// The address of every account fetch made, in order.
    pub fetches: Vec<Address>,
    /// The full interaction history, answers included.
    pub events: Ghost<Seq<PortEvent>>,
}

impl<P> RecordedLedger<P> {
    /// Wraps a raw transport with an empty history.
    pub fn new(raw: P) -> (r: RecordedLedger<P>)
        ensures
            r.raw == raw,
            r.events@ == Seq::<PortEvent>::empty(),
            r.submits@.len() == 0,
            r.lookups@.len() == 0,
            r.fetches@.len() == 0,
    {
        RecordedLedger {
            raw,
            submits: Vec::new(),
            lookups: Vec::new(),
            fetches: Vec::new(),
            events: Ghost(Seq::empty()),
        }
    }
}

impl<P: RawLedger> LedgerPort for RecordedLedger<P> {
    open spec fn history(&self) -> Seq<PortEvent> {
        self.events@
    }

    open spec fn submit_attempts(&self) -> nat {
        self.submits@.len()
    }

    open spec fn resolve_submits(&self) -> nat {
        count_accepted(self.submits@, ActionKind::Resolve)
    }

    open spec fn advance_submits(&self) -> nat {
        count_accepted(self.submits@, ActionKind::AdvanceEpoch)
    }

    open spec fn time_lookups(&self) -> nat {
        self.lookups@.len()
    }

    open spec fn account_fetches(&self) -> nat {
        self.fetches@.len()
    }

    fn now_unix(&mut self) -> (r: i64) {
        self.raw.raw_now_unix()
    }

    fn latest_confirmed_slot(&mut self) -> (r: Result<u64, LedgerFault>) {
        self.lookups.push(TimeLookupRecord::Slot);
        let outcome = self.raw.raw_latest_confirmed_slot();
        let ghost o = outcome;
        self.events = Ghost(
            self.events@.push(
                PortEvent::SlotLookup {
                    result: match o {
                        Ok(s) => Ok(s),
                        Err(f) => Err(f.message@),
                    },
                },
            ),
        );
        outcome
    }

    fn block_time_of_slot(&mut self, slot: u64) -> (r: Result<Option<i64>, LedgerFault>) {
        self.lookups.push(TimeLookupRecord::BlockTime(slot));
        let outcome = self.raw.raw_block_time_of_slot(slot);
        let ghost o = outcome;
        self.events = Ghost(
            self.events@.push(
                PortEvent::BlockTimeLookup {
                    slot: slot,
                    result: match o {
                        Ok(t) => Ok(t),
                        Err(f) => Err(f.message@),
                    },
                },
            ),
        );
        outcome
    }

    fn fetch_account_bytes(&mut self, address: &Address) -> (r: Result<
        Option<Vec<u8>>,
        LedgerFault,
    >) {
        self.fetches.push(address.dup());
        let outcome = self.raw.raw_fetch_account_bytes(address);
        let ghost o = outcome;
        self.events = Ghost(
            self.events@.push(
                PortEvent::AccountFetch {
                    address: address@,
                    result: match o {
                        Ok(Some(b)) => Ok(Some(b@)),
                        Ok(None) => Ok(None),
                        Err(f) => Err(f.message@),
                    },
                },
            ),
        );
        outcome
    }

    fn submit_attempt(&mut self, plan: &InstructionPlan, kind: ActionKind) -> (r: Result<
        (),
        LedgerFault,
    >) {
        let outcome = self.raw.raw_submit_attempt(plan, kind);
        let accepted = outcome.is_ok();
        let record = SubmitRecord { kind, accepted, plan: plan.clone() };
        let ghost before = self.submits@;
        self.submits.push(record);
        proof {
            lemma_count_accepted_push(before, record, ActionKind::Resolve);
            lemma_count_accepted_push(before, record, ActionKind::AdvanceEpoch);
        }
        let ghost o = outcome;
        self.events = Ghost(
            self.events@.push(
                PortEvent::SubmitAttempt {
                    kind: kind,
                    data: plan.data@,
                    accounts: plan.accounts@,
                    fault: match o {
                        Ok(_) => None,
                        Err(f) => Some(f.message@),
                    },
                },
            ),
        );
        outcome
    }

    fn wait_retry_interval(&mut self) {
        self.raw.raw_wait_retry_interval();
    }
}

/// A scripted answer to an account fetch.
#[derive(Clone, Debug)]
pub enum FetchScript {
    Bytes(Vec<u8>),
    Missing,
    Fault,
}

/// A scripted answer to a block-time lookup.
#[derive(Clone, Copy, Debug, PartialEq, Eq, Structural)]
pub enum BlockTimeScript {
    Time(i64),
    NoRecord,
    Fault,
}

/// One recorded time lookup.
#[derive(Clone, Copy, Debug, PartialEq, Eq, Structural)]
pub enum TimeLookupRecord {
    Slot,
    BlockTime(u64),
}

/// A ledger that answers from fixed scripts, consuming each script front to
/// back, and records every call. An exhausted script answers a fault for
/// reads and acceptance for submissions.
pub struct ScriptedLedger {
    /// The local wall-clock time it reports.
    pub now: i64,
    /// Answers to slot lookups; `None` is a transport fault.
    pub slot_script: Vec<Option<u64>>,
    /// Answers to block-time lookups.
    pub block_time_script: Vec<BlockTimeScript>,
    /// Answers to account fetches.
    pub fetch_script: Vec<FetchScript>,
    /// Whether each successive submission attempt is accepted.
    pub submit_script: Vec<bool>,
    /// Every submission attempt made, in order.
    pub submits: Vec<SubmitRecord>,
    /// Every slot and block-time lookup made, in order.
    pub lookups: Vec<TimeLookupRecord>,
    /// The address of every account fetch made, in order.
    pub fetches: Vec<Address>,
    /// The full interaction history, answers included.
    pub events: Ghost<Seq<PortEvent>>,
}

impl ScriptedLedger {
    /// A ledger with empty scripts at local time zero.
    pub fn new() -> (r: ScriptedLedger)
        ensures
            r.history() == Seq::<PortEvent>::empty(),
            r.submit_attempts() == 0,
            r.resolve_submits() == 0,
            r.advance_submits() == 0,
            r.time_lookups() == 0,
            r.account_fetches() == 0,
    {
        ScriptedLedger {
            now: 0,
            slot_script: Vec::new(),
            block_time_script: Vec::new(),
            fetch_script: Vec::new(),
            submit_script: Vec::new(),
            submits: Vec::new(),
            lookups: Vec::new(),
            fetches: Vec::new(),
            events: Ghost(Seq::empty()),
        }
    }

    fn scripted_fault() -> (r: LedgerFault) {
        LedgerFault { message: "scripted fault".to_owned() }
    }
}

impl LedgerPort for ScriptedLedger {
    open spec fn history(&self) -> Seq<PortEvent> {
        self.events@
    }

    open spec fn submit_attempts(&self) -> nat {
        self.submits@.len()
    }

    open spec fn resolve_submits(&self) -> nat {
        count_accepted(self.submits@, ActionKind::Resolve)
    }

    open spec fn advance_submits(&self) -> nat {
        count_accepted(self.submits@, ActionKind::AdvanceEpoch)
    }

    open spec fn time_lookups(&self) -> nat {
        self.lookups@.len()
    }

    open spec fn account_fetches(&self) -> nat {
        self.fetches@.len()
    }

    fn now_unix(&mut self) -> (r: i64) {
        self.now
    }

    fn latest_confirmed_slot(&mut self) -> (r: Result<u64, LedgerFault>) {
        self.lookups.push(TimeLookupRecord::Slot);
        let outcome: Result<u64, LedgerFault> = if self.slot_script.len() > 0 {
            match self.slot_script.remove(0) {
                Some(slot) => Ok(slot),
                None => Err(Self::scripted_fault()),
            }
        } else {
            Err(Self::scripted_fault())
        };
        let ghost o = outcome;
        self.events = Ghost(
            self.events@.push(
                PortEvent::SlotLookup {
                    result: match o {
                        Ok(s) => Ok(s),
                        Err(f) => Err(f.message@),
                    },
                },
            ),
        );
        outcome
    }

    fn block_time_of_slot(&mut self, slot: u64) -> (r: Result<Option<i64>, LedgerFault>) {
        self.lookups.push(TimeLookupRecord::BlockTime(slot));
        let outcome: Result<Option<i64>, LedgerFault> = if self.block_time_script.len() > 0 {
            match self.block_time_script.remove(0) {
                BlockTimeScript::Time(t) => Ok(Some(t)),
                BlockTimeScript::NoRecord => Ok(None),
                BlockTimeScript::Fault => Err(Self::scripted_fault()),
            }
        } else {
            Err(Self::scripted_fault())
        };
        let ghost o = outcome;
        self.events = Ghost(
            self.events@.push(
                PortEvent::BlockTimeLookup {
                    slot: slot,
                    result: match o {
                        Ok(t) => Ok(t),
                        Err(f) => Err(f.message@),
                    },
                },
            ),
        );
        outcome
    }

    fn fetch_account_bytes(&mut self, address: &Address) -> (r: Result<
        Option<Vec<u8>>,
        LedgerFault,
    >) {
        self.fetches.push(address.dup());
        let outcome: Result<Option<Vec<u8>>, LedgerFault> = if self.fetch_script.len() > 0 {
            match self.fetch_script.remove(0) {
                FetchScript::Bytes(b) => Ok(Some(b)),
                FetchScript::Missing => Ok(None),
                FetchScript::Fault => Err(Self::scripted_fault()),
            }
        } else {
            Err(Self::scripted_fault())
        };
        let ghost o = outcome;
        self.events = Ghost(
            self.events@.push(
                PortEvent::AccountFetch {
                    address: address@,
                    result: match o {
                        Ok(Some(b)) => Ok(Some(b@)),
                        Ok(None) => Ok(None),
                        Err(f) => Err(f.message@),
                    },
                },
            ),
        );
        outcome
    }

    fn submit_attempt(&mut self, plan: &InstructionPlan, kind: ActionKind) -> (r: Result<
        (),
        LedgerFault,
    >) {
        let accepted = if self.submit_script.len() > 0 {
            self.submit_script.remove(0)
        } else {
            true
        };
        let record = SubmitRecord { kind, accepted, plan: plan.clone() };
        let ghost before = self.submits@;
        self.submits.push(record);
        proof {
            lemma_count_accepted_push(before, record, ActionKind::Resolve);
            lemma_count_accepted_push(before, record, ActionKind::AdvanceEpoch);
        }
        let outcome: Result<(), LedgerFault> = if accepted {
            Ok(())
        } else {
            Err(Self::scripted_fault())
        };
        let ghost o = outcome;
        self.events = Ghost(
            self.events@.push(
                PortEvent::SubmitAttempt {
                    kind: kind,
                    data: plan.data@,
                    accounts: plan.accounts@,
                    fault: match o {
                        Ok(_) => None,
                        Err(f) => Some(f.message@),
                    },
                },
            ),
        );
        outcome
    }

    fn wait_retry_interval(&mut self) {
    }
}

} // verus!
