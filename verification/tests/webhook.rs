use artifact_relay::artifact::Artifact;
use artifact_relay::integrity::hash_matches;
use artifact_relay::timestamp::Timestamp;
use artifact_relay::webhook::{
    process, staging_name, Batch, Event, Outcome, Phase, Signal, Step, Task, Transfer, TransferError,
};

fn record(build_id: i64) -> Artifact {
    Artifact {
        build_id,
        date: Timestamp::new(2021, 3, 4, 5, 6, 7).unwrap(),
        hash: "cafe".to_string(),
        author: "Writer".to_string(),
        merged_by: "Merger".to_string(),
        platform: "linux".to_string(),
        channel: "nightly".to_string(),
        file_name: format!("nightly-linux-{}.zip", build_id),
        download_uri: "/x".to_string(),
    }
}

fn run(signals: &[Signal]) -> Transfer {
    let mut transfer = Transfer::new();
    for signal in signals {
        transfer.step(*signal);
    }
    transfer
}

const OK: Signal = Signal::Succeeded;
const BAD: Signal = Signal::Failed;
const MATCH: Signal = Signal::Fetched { matches: true };
const MISMATCH: Signal = Signal::Fetched { matches: false };

#[test]
fn a_transfer_begins_with_the_download() {
    let transfer = Transfer::new();
    assert_eq!(transfer.step, Step::Download);
    assert_eq!(transfer.outcome, None);
    assert_eq!((transfer.stored, transfer.rows, transfer.staged), (0, 0, false));
}

#[test]
fn steps_follow_in_order() {
    let mut transfer = Transfer::new();
    assert_eq!(transfer.step(MATCH), Step::Store);
    assert_eq!(transfer.step(OK), Step::Mirror);
    assert_eq!(transfer.step(OK), Step::Persist);
    assert_eq!(transfer.step(OK), Step::Cleanup);
    assert_eq!(transfer.step(OK), Step::Done);
    assert_eq!(transfer.step(OK), Step::Done);
    assert_eq!(transfer.outcome, Some(Outcome::Published));
}

#[test]
fn matching_hash_gives_one_row_one_file_and_no_staging_copy() {
    let end = run(&[MATCH, OK, OK, OK, OK]);
    assert_eq!(end.outcome, Some(Outcome::Published));
    assert!(end.verified);
    assert_eq!(end.stored, 1);
    assert_eq!(end.rows, 1);
    assert!(!end.staged);
    assert!(end.mirrored);
}

#[test]
fn mismatch_gives_no_row_and_no_staging_copy() {
    let mut transfer = Transfer::new();
    assert_eq!(transfer.step(MISMATCH), Step::Discard);
    assert!(transfer.staged);
    assert_eq!(transfer.step(OK), Step::Done);
    assert_eq!(transfer.outcome, Some(Outcome::Failed(TransferError::IntegrityMismatch)));
    assert_eq!(transfer.rows, 0);
    assert_eq!(transfer.stored, 0);
    assert!(!transfer.staged);
    assert!(!transfer.verified);
}

#[test]
fn mirror_failure_does_not_stop_the_transfer() {
    let end = run(&[MATCH, OK, BAD, OK, OK]);
    assert_eq!(end.outcome, Some(Outcome::Published));
    assert!(!end.mirrored);
    assert_eq!(end.rows, 1);
    assert_eq!(end.stored, 1);
    assert!(!end.staged);
}

#[test]
fn each_other_failure_ends_the_transfer() {
    let download = run(&[BAD]);
    assert_eq!(download.outcome, Some(Outcome::Failed(TransferError::Transport)));
    assert_eq!((download.stored, download.rows), (0, 0));
    let store = run(&[MATCH, BAD]);
    assert_eq!(store.outcome, Some(Outcome::Failed(TransferError::Transport)));
    assert_eq!((store.stored, store.rows), (0, 0));
    let persist = run(&[MATCH, OK, OK, BAD]);
    assert_eq!(persist.outcome, Some(Outcome::Failed(TransferError::Persistence)));
    assert_eq!((persist.stored, persist.rows), (1, 0));
    let cleanup = run(&[MATCH, OK, OK, OK, BAD]);
    assert_eq!(cleanup.outcome, Some(Outcome::Failed(TransferError::Transport)));
    assert_eq!((cleanup.stored, cleanup.rows, cleanup.staged), (1, 1, true));
    let discard = run(&[MISMATCH, BAD]);
    assert_eq!(discard.outcome, Some(Outcome::Failed(TransferError::Transport)));
    assert_eq!((discard.stored, discard.rows, discard.staged), (0, 0, true));
}

#[test]
fn a_download_must_bring_the_bundle() {
    assert_eq!(run(&[OK]).outcome, Some(Outcome::Failed(TransferError::Transport)));
}

#[test]
fn an_ended_transfer_stays_as_it_is() {
    let end = run(&[MATCH, OK, OK, OK, OK]);
    for signal in [OK, BAD, MATCH, MISMATCH] {
        let mut again = end;
        assert_eq!(again.step(signal), Step::Done);
        assert_eq!(again, end);
    }
}

#[test]
fn never_more_than_one_row_whatever_is_reported() {
    let signals = [OK, BAD, MATCH, MISMATCH];
    let mut count = 0;
    for a in signals {
        for b in signals {
            for c in signals {
                for d in signals {
                    for e in signals {
                        for f in signals {
                            let end = run(&[a, b, c, d, e, f]);
                            assert!(end.rows <= 1 && end.stored <= 1);
                            assert!(end.rows <= end.stored);
                            if end.outcome == Some(Outcome::Published) {
                                assert!(end.rows == 1 && end.stored == 1 && !end.staged);
                            }
                            count += 1;
                        }
                    }
                }
            }
        }
    }
    assert_eq!(count, 4096);
}

#[test]
fn downloaded_bundle_with_matching_etag_is_published() {
    let mut transfer = Transfer::new();
    let event = Event::Downloaded {
        content: b"hello world".to_vec(),
        etag: Some("\"5eb63bbbe01eeed093cb22bb8f5acdc3\"".to_string()),
    };
    assert_eq!(event.signal(), MATCH);
    assert_eq!(transfer.advance(&event), Step::Store);
    assert_eq!(transfer.advance(&Event::Succeeded), Step::Mirror);
    assert_eq!(transfer.advance(&Event::Failed), Step::Persist);
    assert_eq!(transfer.advance(&Event::Succeeded), Step::Cleanup);
    assert_eq!(transfer.advance(&Event::Succeeded), Step::Done);
    assert_eq!(transfer.outcome, Some(Outcome::Published));
    assert_eq!((transfer.rows, transfer.stored, transfer.staged), (1, 1, false));
}

#[test]
fn downloaded_bundle_with_wrong_etag_is_discarded() {
    let mut transfer = Transfer::new();
    let event = Event::Downloaded {
        content: b"hello world".to_vec(),
        etag: Some("\"00000000000000000000000000000000\"".to_string()),
    };
    assert_eq!(event.signal(), MISMATCH);
    assert_eq!(transfer.advance(&event), Step::Discard);
    assert_eq!(transfer.advance(&Event::Succeeded), Step::Done);
    assert_eq!(transfer.outcome, Some(Outcome::Failed(TransferError::IntegrityMismatch)));
    assert_eq!((transfer.rows, transfer.stored, transfer.staged), (0, 0, false));
}

#[test]
fn downloaded_bundle_without_etag_is_discarded() {
    let mut transfer = Transfer::new();
    let event = Event::Downloaded { content: b"hello world".to_vec(), etag: None };
    assert_eq!(event.signal(), MISMATCH);
    assert_eq!(transfer.advance(&event), Step::Discard);
    assert_eq!(transfer.advance(&Event::Succeeded), Step::Done);
    assert_eq!(transfer.outcome, Some(Outcome::Failed(TransferError::IntegrityMismatch)));
    assert_eq!(transfer.rows, 0);
    assert!(!transfer.staged);
}

#[test]
fn events_without_a_bundle_are_their_signals() {
    assert_eq!(Event::Succeeded.signal(), OK);
    assert_eq!(Event::Failed.signal(), BAD);
}

fn drive(batch: &mut Batch, signals: &[Signal]) -> Vec<Task> {
    signals.iter().map(|signal| batch.step(*signal)).collect()
}

#[test]
fn a_batch_transfers_its_files_in_order_and_prunes_once() {
    let mut batch = process(vec![record(1), record(2)]);
    assert_eq!(batch.task(), Task::Transfer { index: 0, step: Step::Download });
    assert_eq!(batch.current_artifact().unwrap().build_id, 1);
    let tasks = drive(&mut batch, &[MATCH, OK, OK, OK, OK]);
    assert_eq!(
        tasks,
        vec![
            Task::Transfer { index: 0, step: Step::Store },
            Task::Transfer { index: 0, step: Step::Mirror },
            Task::Transfer { index: 0, step: Step::Persist },
            Task::Transfer { index: 0, step: Step::Cleanup },
            Task::Transfer { index: 1, step: Step::Download },
        ]
    );
    assert_eq!(batch.current_artifact().unwrap().build_id, 2);
    assert_eq!(batch.prunes, 0);
    let tasks = drive(&mut batch, &[MISMATCH, OK]);
    assert_eq!(tasks, vec![Task::Transfer { index: 1, step: Step::Discard }, Task::Prune]);
    assert_eq!(batch.prunes, 1);
    assert_eq!(batch.phase, Phase::Pruning);
    assert!(batch.current_artifact().is_none());
    assert_eq!((batch.published, batch.failed), (1, 1));
    assert_eq!(batch.step(OK), Task::Nothing);
    assert_eq!(batch.phase, Phase::Finished);
    assert_eq!(batch.prunes, 1);
    assert_eq!(batch.step(OK), Task::Nothing);
    assert_eq!(batch.prunes, 1);
}

#[test]
fn the_pruner_runs_once_when_every_transfer_failed() {
    let mut batch = process(vec![record(1), record(2), record(3)]);
    let tasks = drive(&mut batch, &[BAD, BAD, BAD]);
    assert_eq!(
        tasks,
        vec![
            Task::Transfer { index: 1, step: Step::Download },
            Task::Transfer { index: 2, step: Step::Download },
            Task::Prune,
        ]
    );
    assert_eq!(batch.prunes, 1);
    assert_eq!((batch.published, batch.failed), (0, 3));
    assert_eq!(batch.step(BAD), Task::Nothing);
    assert_eq!(batch.prunes, 1);
    assert_eq!(batch.phase, Phase::Finished);
}

#[test]
fn the_pruner_runs_once_for_an_empty_batch() {
    let mut batch = process(vec![]);
    assert_eq!(batch.task(), Task::Prune);
    assert_eq!(batch.prunes, 1);
    assert!(batch.current_artifact().is_none());
    assert_eq!(batch.step(OK), Task::Nothing);
    assert_eq!(batch.prunes, 1);
}

#[test]
fn a_failed_pruner_finishes_the_batch_all_the_same() {
    let mut batch = process(vec![record(1)]);
    drive(&mut batch, &[MATCH, OK, OK, OK, OK]);
    assert_eq!(batch.task(), Task::Prune);
    assert_eq!(batch.step(BAD), Task::Nothing);
    assert_eq!(batch.phase, Phase::Finished);
    assert_eq!((batch.published, batch.failed, batch.prunes), (1, 0, 1));
}

#[test]
fn a_batch_takes_events_with_bundles() {
    let mut batch = process(vec![record(1)]);
    let bundle = Event::Downloaded {
        content: b"".to_vec(),
        etag: Some("\"d41d8cd98f00b204e9800998ecf8427e\"".to_string()),
    };
    assert_eq!(batch.advance(&bundle), Task::Transfer { index: 0, step: Step::Store });
    assert_eq!(batch.advance(&Event::Failed), Task::Prune);
    assert_eq!((batch.published, batch.failed, batch.prunes), (0, 1, 1));
    assert_eq!(batch.current.outcome, Some(Outcome::Failed(TransferError::Transport)));
}

#[test]
fn computed_hash_equal_to_the_quoted_etag_inserts_the_row() {
    let matches = hash_matches("abc123", Some("\"abc123\""));
    assert!(matches);
    let end = run(&[Signal::Fetched { matches }, OK, OK, OK, OK]);
    assert_eq!(end.outcome, Some(Outcome::Published));
    assert_eq!(end.rows, 1);
    assert!(!end.staged);
}

#[test]
fn computed_hash_against_a_missing_etag_inserts_no_row() {
    let matches = hash_matches("abc123", None);
    assert!(!matches);
    let end = run(&[Signal::Fetched { matches }, OK]);
    assert_eq!(end.outcome, Some(Outcome::Failed(TransferError::IntegrityMismatch)));
    assert_eq!(end.rows, 0);
    assert!(!end.staged);
}

#[test]
fn staging_name_carries_the_number_of_the_attempt() {
    assert_eq!(staging_name("nightly-linux-2021-03-04-05_06.zip", 0), "nightly-linux-2021-03-04-05_06.zip.0");
    assert_eq!(staging_name("a.zip", 17), "a.zip.17");
    assert_eq!(staging_name("", u64::MAX), ".18446744073709551615");
}

#[test]
fn staging_names_differ_between_attempts() {
    let files = ["a.zip", "a.zip.1", "a", "a.1", "a.zip.", ""];
    let mut seen = std::collections::HashSet::new();
    let mut attempt = 0;
    for _ in 0..3 {
        for file in files {
            assert!(seen.insert(staging_name(file, attempt)));
            attempt += 1;
        }
    }
    assert_eq!(seen.len(), 18);
}

#[test]
fn a_bundle_out_of_turn_counts_as_failure() {
    for bundle in [MATCH, MISMATCH] {
        let store = run(&[MATCH, bundle]);
        assert_eq!(store.outcome, Some(Outcome::Failed(TransferError::Transport)));
        assert_eq!((store.stored, store.rows), (0, 0));
        let persist = run(&[MATCH, OK, OK, bundle]);
        assert_eq!(persist.outcome, Some(Outcome::Failed(TransferError::Transport)));
        assert_eq!((persist.stored, persist.rows), (1, 0));
        let cleanup = run(&[MATCH, OK, OK, OK, bundle]);
        assert_eq!(cleanup.outcome, Some(Outcome::Failed(TransferError::Transport)));
        assert_eq!((cleanup.stored, cleanup.rows, cleanup.staged), (1, 1, true));
        let discard = run(&[MISMATCH, bundle]);
        assert_eq!(discard.outcome, Some(Outcome::Failed(TransferError::Transport)));
        assert_eq!((discard.stored, discard.rows, discard.staged), (0, 0, true));
    }
}

#[test]
fn a_bundle_in_place_of_the_mirror_result_counts_as_a_failed_mirror() {
    for bundle in [MATCH, MISMATCH] {
        let mut transfer = run(&[MATCH, OK]);
        assert_eq!(transfer.step(bundle), Step::Persist);
        assert!(!transfer.mirrored);
        assert_eq!(transfer.step(OK), Step::Cleanup);
        assert_eq!(transfer.step(OK), Step::Done);
        assert_eq!(transfer.outcome, Some(Outcome::Published));
        assert_eq!((transfer.stored, transfer.rows, transfer.staged), (1, 1, false));
    }
}
