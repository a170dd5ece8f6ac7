use epoch_keeper::engine::{EngineError, Trigger};
use epoch_keeper::ledger::{BlockTimeScript, ScriptedLedger, TimeLookupRecord};
use epoch_keeper::resolve::{TimestampTrigger, TriggerVerdict};
use epoch_keeper::state::{Address, EpochResultState, TaskAccount};

fn task(epoch: u64, end_at: i64) -> TaskAccount {
    TaskAccount {
        config_pda: Address { bytes: vec![1u8; 32] },
        epoch_result_pda: Address { bytes: vec![2u8; 32] },
        program_id: Address { bytes: vec![3u8; 32] },
        epoch,
        end_at,
        epoch_result_state: EpochResultState::Active,
        pool_count: 4,
        custom_pda: None,
    }
}

#[test]
fn prefilter_skips_remote_lookup() {
    let mut ledger = ScriptedLedger::new();
    ledger.now = 999;
    let mut trigger = TimestampTrigger::new(ledger);
    let due = trigger.should_trigger(&task(5, 1000)).unwrap();
    assert!(!due);
    assert!(trigger.port.lookups.is_empty());
    assert!(trigger.port.fetches.is_empty());
    assert!(trigger.port.submits.is_empty());
}

#[test]
fn remote_clock_past_deadline_triggers() {
    let mut ledger = ScriptedLedger::new();
    ledger.now = 1001;
    ledger.slot_script.push(Some(70));
    ledger.block_time_script.push(BlockTimeScript::Time(1002));
    let mut trigger = TimestampTrigger::new(ledger);
    let due = trigger.should_trigger(&task(5, 1000)).unwrap();
    assert!(due);
    assert_eq!(
        trigger.port.lookups,
        vec![TimeLookupRecord::Slot, TimeLookupRecord::BlockTime(70)]
    );
}

#[test]
fn remote_clock_before_deadline_does_not_trigger() {
    let mut ledger = ScriptedLedger::new();
    ledger.now = 1001;
    ledger.slot_script.push(Some(70));
    ledger.block_time_script.push(BlockTimeScript::Time(1000));
    let mut trigger = TimestampTrigger::new(ledger);
    assert!(!trigger.should_trigger(&task(5, 1000)).unwrap());
}

#[test]
fn missing_block_time_is_not_yet_due() {
    let mut ledger = ScriptedLedger::new();
    ledger.now = 1001;
    ledger.slot_script.push(Some(70));
    ledger.block_time_script.push(BlockTimeScript::NoRecord);
    let mut trigger = TimestampTrigger::new(ledger);
    let verdict = trigger.evaluate(1001, &task(5, 1000)).unwrap();
    assert_eq!(verdict, TriggerVerdict::NoBlockTime);

    let mut ledger = ScriptedLedger::new();
    ledger.now = 1001;
    ledger.slot_script.push(Some(70));
    ledger.block_time_script.push(BlockTimeScript::NoRecord);
    let mut trigger = TimestampTrigger::new(ledger);
    assert_eq!(trigger.should_trigger(&task(5, 1000)), Ok(false));
}

#[test]
fn slot_lookup_fault_propagates() {
    let mut ledger = ScriptedLedger::new();
    ledger.now = 1001;
    ledger.slot_script.push(None);
    let mut trigger = TimestampTrigger::new(ledger);
    match trigger.should_trigger(&task(5, 1000)) {
        Err(EngineError::Ledger(_)) => {}
        other => panic!("expected a ledger error, got {:?}", other),
    }
}

#[test]
fn block_time_fault_propagates() {
    let mut ledger = ScriptedLedger::new();
    ledger.now = 1001;
    ledger.slot_script.push(Some(70));
    ledger.block_time_script.push(BlockTimeScript::Fault);
    let mut trigger = TimestampTrigger::new(ledger);
    assert!(matches!(
        trigger.should_trigger(&task(5, 1000)),
        Err(EngineError::Ledger(_))
    ));
}

#[test]
fn verdict_carries_remote_time() {
    let mut ledger = ScriptedLedger::new();
    ledger.slot_script.push(Some(70));
    ledger.block_time_script.push(BlockTimeScript::Time(1002));
    let mut trigger = TimestampTrigger::new(ledger);
    assert_eq!(
        trigger.evaluate(1001, &task(5, 1000)).unwrap(),
        TriggerVerdict::Due(1002)
    );
    let mut ledger = ScriptedLedger::new();
    ledger.slot_script.push(Some(70));
    ledger.block_time_script.push(BlockTimeScript::Time(900));
    let mut trigger = TimestampTrigger::new(ledger);
    assert_eq!(
        trigger.evaluate(1001, &task(5, 1000)).unwrap(),
        TriggerVerdict::NotDueRemote(900)
    );
    let mut ledger = ScriptedLedger::new();
    let mut trigger = TimestampTrigger::new(ledger);
    assert_eq!(
        trigger.evaluate(999, &task(5, 1000)).unwrap(),
        TriggerVerdict::NotDueLocal
    );
}
