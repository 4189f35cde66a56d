use std::collections::HashSet;

use riscv_mutator::calibration::{
    log2_floor, CalibrationRecord, DummyCalibration, EntryMeta, ExecOutcome, ExitClass,
    GlobalCostMetadata, UnstableEntriesMetadata,
};
use riscv_mutator::instructions::{rd, riscv_g, Argument, Instruction};
use riscv_mutator::program_input::ProgramInput;

fn outcome(exit: ExitClass, bitmap_size: u64) -> ExecOutcome {
    ExecOutcome { exit, bitmap_size }
}

#[test]
fn first_calibration_records_cost_and_accumulates() {
    let stage = DummyCalibration::new();
    let mut entry = EntryMeta::new();
    let mut globals = Some(GlobalCostMetadata::new());

    assert!(stage.needs_calibration(&entry));
    let warn = stage.perform(
        &mut entry,
        &mut globals,
        Some(outcome(ExitClass::Normal, 4)),
        None,
        2,
    );
    assert!(!warn);
    assert_eq!(entry.exec_cost, Some(3));
    let record = entry.record.expect("record attached");
    assert_eq!(record.depth, 0);
    assert_eq!(record.handicap, 0);
    assert_eq!(record.bitmap_size, 4);
    assert_eq!(record.cost, 3);
    assert_eq!(record.cycles, 1);

    let g = globals.expect("globals kept");
    assert_eq!(g.exec_time, 3);
    assert_eq!(g.cycles, 1);
    assert_eq!(g.bitmap_size, 4);
    assert_eq!(g.bitmap_size_log, 2);
    assert_eq!(g.bitmap_entries, 1);
}

#[test]
fn second_round_is_a_pure_no_op() {
    let stage = DummyCalibration::new();
    let mut entry = EntryMeta::new();
    let mut globals = Some(GlobalCostMetadata::new());

    let _ = stage.perform(
        &mut entry,
        &mut globals,
        Some(outcome(ExitClass::Normal, 16)),
        None,
        9,
    );
    entry.mark_scheduled();
    let entry_after_first = entry;
    let globals_after_first = globals;

    assert!(!stage.needs_calibration(&entry));
    let warn = stage.perform(&mut entry, &mut globals, None, None, 9);
    assert!(!warn);
    assert_eq!(entry, entry_after_first);
    assert_eq!(globals, globals_after_first);
}

#[test]
fn depth_is_parent_depth_plus_one() {
    let stage = DummyCalibration::new();
    let mut entry = EntryMeta::new();
    let mut globals = None;
    let parent = CalibrationRecord {
        depth: 7,
        handicap: 3,
        bitmap_size: 10,
        cost: 5,
        cycles: 1,
    };
    let _ = stage.perform(
        &mut entry,
        &mut globals,
        Some(outcome(ExitClass::Normal, 1)),
        Some(parent),
        0,
    );
    assert_eq!(entry.record.unwrap().depth, 8);
}

#[test]
fn depth_is_zero_without_a_parent_record() {
    let stage = DummyCalibration::new();
    let mut entry = EntryMeta::new();
    let mut globals = None;
    // No parent at all, or a parent without a calibration record, look the
    // same to the stage: no record to propagate from.
    let _ = stage.perform(
        &mut entry,
        &mut globals,
        Some(outcome(ExitClass::Normal, 1)),
        None,
        0,
    );
    assert_eq!(entry.record.unwrap().depth, 0);
}

#[test]
fn existing_record_keeps_its_depth() {
    let stage = DummyCalibration::new();
    let mut entry = EntryMeta::new();
    entry.record = Some(CalibrationRecord {
        depth: 5,
        handicap: 0,
        bitmap_size: 0,
        cost: 0,
        cycles: 0,
    });
    let mut globals = None;
    let parent = CalibrationRecord {
        depth: 9,
        handicap: 0,
        bitmap_size: 0,
        cost: 0,
        cycles: 1,
    };
    let _ = stage.perform(
        &mut entry,
        &mut globals,
        Some(outcome(ExitClass::Normal, 2)),
        Some(parent),
        1,
    );
    let record = entry.record.unwrap();
    assert_eq!(record.depth, 5);
    assert_eq!(record.cost, 2);
    assert_eq!(record.cycles, 1);
}

#[test]
fn zero_filled_bytes_leave_log_accumulator_untouched() {
    let stage = DummyCalibration::new();
    let mut entry = EntryMeta::new();
    let mut globals = Some(GlobalCostMetadata::new());
    let _ = stage.perform(
        &mut entry,
        &mut globals,
        Some(outcome(ExitClass::Normal, 0)),
        None,
        3,
    );
    let g = globals.unwrap();
    assert_eq!(g.bitmap_size_log, 0);
    assert_eq!(g.bitmap_size, 0);
    assert_eq!(g.bitmap_entries, 1);
    assert_eq!(entry.record.unwrap().bitmap_size, 0);
}

#[test]
fn timeout_is_logged_and_the_entry_keeps_its_record() {
    let stage = DummyCalibration::new();
    let mut entry = EntryMeta::new();
    let mut globals = Some(GlobalCostMetadata::new());
    let warn = stage.perform(
        &mut entry,
        &mut globals,
        Some(outcome(ExitClass::Timeout, 8)),
        None,
        4,
    );
    assert!(warn);
    let record = entry.record.expect("entry retained with a record");
    assert_eq!(record.cost, 5);
    assert_eq!(entry.exec_cost, Some(5));
}

#[test]
fn crash_and_oom_are_abnormal() {
    assert!(!ExitClass::Normal.is_abnormal());
    assert!(ExitClass::Crash.is_abnormal());
    assert!(ExitClass::Oom.is_abnormal());
    assert!(ExitClass::Timeout.is_abnormal());
}

#[test]
fn absent_global_metadata_skips_accumulation() {
    let stage = DummyCalibration::new();
    let mut entry = EntryMeta::new();
    let mut globals = None;
    let warn = stage.perform(
        &mut entry,
        &mut globals,
        Some(outcome(ExitClass::Crash, 100)),
        None,
        6,
    );
    assert!(warn);
    assert!(globals.is_none());
    // The entry itself is still annotated.
    assert_eq!(entry.exec_cost, Some(7));
    assert_eq!(entry.record.unwrap().handicap, 0);
}

#[test]
fn handicap_snapshots_the_cycle_counter() {
    let stage = DummyCalibration::new();
    let mut globals = Some(GlobalCostMetadata::new());

    let mut first = EntryMeta::new();
    let _ = stage.perform(
        &mut first,
        &mut globals,
        Some(outcome(ExitClass::Normal, 1)),
        None,
        1,
    );
    let mut second = EntryMeta::new();
    let _ = stage.perform(
        &mut second,
        &mut globals,
        Some(outcome(ExitClass::Normal, 1)),
        None,
        1,
    );
    assert_eq!(first.record.unwrap().handicap, 0);
    assert_eq!(second.record.unwrap().handicap, 1);
}

#[test]
fn log2_floor_matches_known_values() {
    assert_eq!(log2_floor(1), 0);
    assert_eq!(log2_floor(2), 1);
    assert_eq!(log2_floor(3), 1);
    assert_eq!(log2_floor(4), 2);
    assert_eq!(log2_floor(255), 7);
    assert_eq!(log2_floor(256), 8);
    assert_eq!(log2_floor(u64::MAX), 63);
}

#[test]
fn unstable_entries_metadata_reports_its_shape() {
    let mut entries = HashSet::new();
    entries.insert(3usize);
    entries.insert(17usize);
    let meta = UnstableEntriesMetadata::new(entries, 40);
    assert_eq!(meta.unstable_entries().len(), 2);
    assert!(meta.unstable_entries().contains(&3));
    assert!(meta.unstable_entries().contains(&17));
    assert_eq!(meta.filled_entries_count(), 40);
}

#[test]
fn program_cost_is_instruction_count_plus_one() {
    let template = riscv_g().remove(0);
    let mut arguments = Vec::new();
    for slot in template.operands() {
        arguments.push(Argument::new(*slot, 0));
    }
    let inst = Instruction::new(template, arguments);
    let program = ProgramInput::new(vec![inst.clone(), inst.clone(), inst]);
    assert_eq!(program.insts().len(), 3);
    assert_eq!(program.cost(), 4);
}

#[test]
fn empty_program_still_costs_one_unit() {
    let program = ProgramInput::new(Vec::new());
    assert_eq!(program.cost(), 1);
}
