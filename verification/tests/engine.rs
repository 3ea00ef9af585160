use bulk_rows::engine::{Ack, EngineState, SubmissionEngine};
use bulk_rows::row::Row;
use bulk_rows::schema::{ColumnDataType, TableSchema};
use bulk_rows::source::{RowSource, SourceCursor};
use bulk_rows::value::Value;

fn numbered_rows(count: u64) -> Vec<Row> {
    let mut rows = Vec::new();
    let mut i = 0u64;
    while i < count {
        rows.push(Row::new().add_value(Value::Uint64(i)));
        i += 1;
    }
    rows
}

fn test_schema() -> TableSchema {
    TableSchema::builder()
        .name("points".to_string())
        .build()
        .unwrap()
        .add_tag("n".to_string(), ColumnDataType::Uint64, false)
}

/// Drives the engine against an in-memory source and a simulated transport
/// that acknowledges every accepted batch with its row count, failing the
/// submission whose 1-based ordinal is `fail_on` (0 for none). Returns the
/// sizes of the batches the transport accepted.
fn drive(source: &mut RowSource, engine: &mut SubmissionEngine, fail_on: usize) -> Vec<usize> {
    let mut cursor = SourceCursor::start();
    let mut accepted: Vec<usize> = Vec::new();
    let mut unpolled: Vec<Ack> = Vec::new();

    source.init().unwrap();
    loop {
        if engine.wants_row() {
            match source.pull_row(&mut cursor) {
                Some(row) => engine.push_row(row),
                None => engine.mark_exhausted(),
            }
        } else if engine.batch_ready() {
            let batch = engine.take_batch();
            if accepted.len() + 1 == fail_on {
                engine.fail(format!("submission of batch {} refused", fail_on));
                break;
            }
            // The transport owns the rows now and will acknowledge the
            // write with its affected-row count, in its own time.
            unpolled.push(Ack {
                affected_rows: batch.len() as u64,
            });
            accepted.push(batch.len());
            engine.submit_ok();
            if engine.due_reconcile() {
                // Non-blocking poll: collect whatever has completed.
                let completed = std::mem::take(&mut unpolled);
                engine.record_acks(completed);
            }
        } else if engine.drain_ready() {
            engine.begin_drain();
            // Blocking drain: every outstanding write completes.
            let completed = std::mem::take(&mut unpolled);
            engine.finish_drain(completed);
            break;
        } else {
            unreachable!("the engine always wants one of the three steps");
        }
    }
    source.close().unwrap();
    accepted
}

#[test]
fn two_hundred_fifty_rows_make_three_batches_totalling_250() {
    let mut source = RowSource::from_rows(test_schema(), numbered_rows(250));
    let mut engine = SubmissionEngine::new(100, 2);

    let accepted = drive(&mut source, &mut engine, 0);

    assert_eq!(accepted, vec![100, 100, 50]);
    assert_eq!(engine.batches_submitted(), 3);
    assert_eq!(engine.state(), EngineState::Finished);
    assert_eq!(engine.acks().len(), 3);
    assert_eq!(engine.total_affected(), Some(250));
    assert_eq!(engine.outstanding(), 0);
    assert!(engine.error_message().is_none());
}

#[test]
fn batch_size_zero_drains_at_once_with_no_submission() {
    let mut source = RowSource::from_rows(test_schema(), numbered_rows(5));
    let mut engine = SubmissionEngine::new(0, 1);

    assert_eq!(engine.state(), EngineState::Filling);
    let accepted = drive(&mut source, &mut engine, 0);

    assert!(accepted.is_empty());
    assert_eq!(engine.batches_submitted(), 0);
    assert_eq!(engine.state(), EngineState::Finished);
    assert!(engine.acks().is_empty());
    assert_eq!(engine.total_affected(), Some(0));
}

#[test]
fn empty_source_drains_at_once_with_no_submission() {
    let mut source = RowSource::from_rows(test_schema(), Vec::new());
    let mut engine = SubmissionEngine::new(100, 1);

    let accepted = drive(&mut source, &mut engine, 0);

    assert!(accepted.is_empty());
    assert_eq!(engine.batches_submitted(), 0);
    assert_eq!(engine.state(), EngineState::Finished);
    assert!(engine.acks().is_empty());
}

#[test]
fn a_failed_submission_halts_the_loop_in_errored() {
    let mut source = RowSource::from_rows(test_schema(), numbered_rows(250));
    let mut engine = SubmissionEngine::new(100, 1);

    let accepted = drive(&mut source, &mut engine, 2);

    // Batch 1 went through; batch 2 failed; batch 3 was never filled.
    assert_eq!(accepted, vec![100]);
    assert_eq!(engine.batches_submitted(), 1);
    assert_eq!(engine.state(), EngineState::Errored);
    assert_eq!(
        engine.error_message(),
        Some("submission of batch 2 refused".to_string())
    );
    assert!(!engine.wants_row());
    assert!(!engine.batch_ready());
    assert!(!engine.drain_ready());
}

#[test]
fn reconciliation_cadence_is_advisory_bookkeeping() {
    let mut engine = SubmissionEngine::new(1, 2);
    assert!(!engine.due_reconcile());

    engine.push_row(Row::new().add_value(Value::Uint64(0)));
    let batch = engine.take_batch();
    assert_eq!(batch.len(), 1);
    engine.submit_ok();
    // One batch submitted, cadence of two: not due yet.
    assert!(!engine.due_reconcile());
    assert_eq!(engine.outstanding(), 1);

    engine.push_row(Row::new().add_value(Value::Uint64(1)));
    let _batch = engine.take_batch();
    engine.submit_ok();
    assert!(engine.due_reconcile());
    engine.record_acks(vec![Ack { affected_rows: 1 }, Ack { affected_rows: 1 }]);
    assert_eq!(engine.outstanding(), 0);
    // Nothing gated on the poll: the engine still fills.
    assert_eq!(engine.state(), EngineState::Filling);
}

#[test]
fn acknowledgements_are_counted_in_any_completion_order() {
    let mut engine = SubmissionEngine::new(1, 1);
    for i in 0..3u64 {
        engine.push_row(Row::new().add_value(Value::Uint64(i)));
        let _batch = engine.take_batch();
        engine.submit_ok();
    }
    engine.mark_exhausted();
    engine.begin_drain();
    // Acknowledgements arrive out of submission order; only counts matter.
    engine.finish_drain(vec![
        Ack { affected_rows: 3 },
        Ack { affected_rows: 1 },
        Ack { affected_rows: 2 },
    ]);
    assert_eq!(engine.state(), EngineState::Finished);
    assert_eq!(engine.total_affected(), Some(6));
}

#[test]
fn a_lifecycle_failure_is_carried_as_the_run_error() {
    let mut engine = SubmissionEngine::new(10, 1);
    engine.fail("writer setup refused".to_string());
    assert_eq!(engine.state(), EngineState::Errored);
    assert_eq!(
        engine.error_message(),
        Some("writer setup refused".to_string())
    );
}

#[test]
fn total_affected_reports_overflow_as_none() {
    let mut engine = SubmissionEngine::new(1, 1);
    for _ in 0..2 {
        engine.push_row(Row::new());
        let _batch = engine.take_batch();
        engine.submit_ok();
    }
    engine.mark_exhausted();
    engine.begin_drain();
    engine.finish_drain(vec![
        Ack {
            affected_rows: u64::MAX,
        },
        Ack { affected_rows: 1 },
    ]);
    assert_eq!(engine.total_affected(), None);
}
