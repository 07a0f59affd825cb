use chrono::{Datelike, NaiveDate};
use kaipanla::error::{AppError, ErrorKind};
use kaipanla::importer::{
    HistoryImporter, ImportAction, ImportEvent, ImportOutcome, ImportStage,
};
use kaipanla::models::{Market, Stock};

fn day(y: i32, m: u32, d: u32) -> i32 {
    NaiveDate::from_ymd_opt(y, m, d).unwrap().num_days_from_ce()
}

fn stocks(n: usize) -> Vec<Stock> {
    (0..n)
        .map(|i| Stock {
            code: format!("{:06}", 600000 + i),
            name: format!("stock {}", i),
            market: Market::SH,
        })
        .collect()
}

struct Run {
    outcome: ImportOutcome,
    fetches: Vec<(String, String, String)>,
    pauses: usize,
    stages: Vec<ImportStage>,
}

fn note(stages: &mut Vec<ImportStage>, stage: ImportStage) {
    if stages.last() != Some(&stage) {
        stages.push(stage);
    }
}

fn drive(importer: &mut HistoryImporter, failing: &[&str], cancel_after: Option<usize>) -> Run {
    let mut run = Run { outcome: ImportOutcome::NotRunning, fetches: vec![], pauses: 0, stages: vec![] };
    note(&mut run.stages, importer.get_progress().stage);
    let mut event = ImportEvent::Resume;
    loop {
        let action = importer.step(event);
        note(&mut run.stages, importer.get_progress().stage);
        match action {
            ImportAction::Fetch { code, start_date, end_date } => {
                assert_eq!(importer.get_progress().current_code, code);
                event = if failing.contains(&code.as_str()) {
                    ImportEvent::FetchFailed
                } else {
                    ImportEvent::FetchSucceeded
                };
                run.fetches.push((code, start_date, end_date));
                if cancel_after == Some(run.fetches.len()) {
                    importer.cancel();
                    note(&mut run.stages, importer.get_progress().stage);
                }
            }
            ImportAction::Pause => {
                run.pauses += 1;
                event = ImportEvent::Resume;
            }
            ImportAction::Proceed => {
                event = ImportEvent::Resume;
            }
            ImportAction::Finish(outcome) => {
                run.outcome = outcome;
                return run;
            }
        }
    }
}

#[test]
fn test_import_stage() {
    let stage = ImportStage::Idle;
    assert_eq!(stage, ImportStage::Idle);

    let stage = ImportStage::ImportingRecent;
    assert_eq!(stage, ImportStage::ImportingRecent);
}

#[test]
fn test_importer_creation() {
    let importer = HistoryImporter::new();
    let p = importer.get_progress();
    assert_eq!(p.stage, ImportStage::Idle);
    assert!(!p.is_running);
    assert_eq!((p.total_stocks, p.imported_stocks, p.total_batches, p.imported_batches), (0, 0, 0, 0));
    assert_eq!(p.error_count, 0);
    assert_eq!(p.current_code, "");
}

#[test]
fn start_sets_up_the_recent_window() {
    let mut importer = HistoryImporter::new();
    assert!(importer.start_import_on(stocks(250), day(2024, 6, 15)).is_ok());
    let p = importer.get_progress();
    assert_eq!(p.stage, ImportStage::ImportingRecent);
    assert!(p.is_running);
    assert_eq!(p.total_stocks, 250);
    assert_eq!(p.imported_stocks, 0);
    assert_eq!(p.total_batches, 3);
    assert_eq!(p.imported_batches, 0);
    assert_eq!(p.start_date, "2024-05-16");
    assert_eq!(p.end_date, "2024-06-15");
}

#[test]
fn second_start_is_rejected_while_running() {
    let mut importer = HistoryImporter::new();
    assert!(importer.start_import_on(stocks(3), day(2024, 6, 15)).is_ok());
    let second = importer.start_import_on(stocks(7), day(2024, 6, 16));
    assert!(matches!(second, Err(AppError::Config(_))));
    let p = importer.get_progress();
    assert_eq!(p.total_stocks, 3);
    assert_eq!(p.end_date, "2024-06-15");
    assert!(p.is_running);
    let again = importer.start_import(stocks(1));
    assert_eq!(again.unwrap_err().kind(), ErrorKind::Config);
}

#[test]
fn start_import_uses_the_clock() {
    let mut importer = HistoryImporter::new();
    assert!(importer.start_import(stocks(1)).is_ok());
    let today = chrono::Utc::now().date_naive();
    let p = importer.get_progress();
    let end = NaiveDate::parse_from_str(&p.end_date, "%Y-%m-%d").unwrap();
    assert!((end - today).num_days().abs() <= 1);
    let start = NaiveDate::parse_from_str(&p.start_date, "%Y-%m-%d").unwrap();
    assert_eq!((end - start).num_days(), 30);
}

#[test]
fn full_run_goes_through_every_stage() {
    let mut importer = HistoryImporter::new();
    assert!(importer.start_import_on(stocks(250), day(2024, 6, 15)).is_ok());
    let run = drive(&mut importer, &[], None);
    assert_eq!(run.outcome, ImportOutcome::Completed);
    assert_eq!(
        run.stages,
        vec![ImportStage::ImportingRecent, ImportStage::ImportingHistory, ImportStage::Completed]
    );
    let p = importer.get_progress();
    assert_eq!(p.stage, ImportStage::Completed);
    assert!(!p.is_running);
    assert_eq!(p.total_stocks, 250);
    assert_eq!(p.imported_stocks, 250);
    assert_eq!(p.error_count, 0);
    assert_eq!(p.total_batches, 3 * 37);
    assert_eq!(p.start_date, "2021-05-17");
    assert_eq!(p.end_date, "2024-05-16");
    // 1095 days in windows of 30 days: 37 windows, each of 3 batches.
    let windows = 37;
    assert_eq!(p.imported_batches, p.total_batches);
    assert_eq!(run.fetches.len(), 250 + 250 * windows);
    assert_eq!(run.pauses, 3 + 3 * windows);
    assert!(run.outcome.into_result().is_ok());
}

#[test]
fn recent_phase_fetches_every_stock_in_order() {
    let mut importer = HistoryImporter::new().with_batch_size(2);
    let list = stocks(5);
    assert!(importer.start_import_on(stocks(5), day(2024, 6, 15)).is_ok());
    assert_eq!(importer.get_progress().total_batches, 3);
    let mut event = ImportEvent::Resume;
    let mut seen = vec![];
    let mut progress = vec![];
    while seen.len() < 5 {
        match importer.step(event) {
            ImportAction::Fetch { code, start_date, end_date } => {
                assert_eq!(start_date, "2024-05-16");
                assert_eq!(end_date, "2024-06-15");
                seen.push(code);
                event = ImportEvent::FetchSucceeded;
            }
            ImportAction::Pause => {
                let p = importer.get_progress();
                progress.push((p.imported_batches, p.imported_stocks));
                event = ImportEvent::Resume;
            }
            ImportAction::Proceed => panic!("left the recent phase early"),
            ImportAction::Finish(_) => panic!("finished early"),
        }
    }
    assert_eq!(seen, list.iter().map(|s| s.code.clone()).collect::<Vec<_>>());
    assert_eq!(progress, vec![(1, 2), (2, 4)]);
    assert!(matches!(importer.step(event), ImportAction::Pause));
    let p = importer.get_progress();
    assert_eq!((p.imported_batches, p.imported_stocks), (3, 5));
    assert_eq!(p.stage, ImportStage::ImportingRecent);
}

#[test]
fn history_windows_walk_back_from_the_recent_window() {
    let mut importer = HistoryImporter::new().with_days_per_batch(400);
    assert!(importer.start_import_on(stocks(1), day(2024, 6, 15)).is_ok());
    let run = drive(&mut importer, &[], None);
    assert_eq!(run.outcome, ImportOutcome::Completed);
    let windows: Vec<(String, String)> =
        run.fetches.iter().map(|f| (f.1.clone(), f.2.clone())).collect();
    assert_eq!(
        windows,
        vec![
            ("2024-05-16".to_string(), "2024-06-15".to_string()),
            ("2023-04-13".to_string(), "2024-05-16".to_string()),
            ("2022-03-09".to_string(), "2023-04-12".to_string()),
            ("2021-05-17".to_string(), "2022-03-08".to_string()),
        ]
    );
    assert_eq!(importer.get_progress().total_batches, 3);
    assert_eq!(importer.get_progress().imported_batches, 3);
}

#[test]
fn fetch_failures_are_counted_and_tolerated() {
    let mut importer = HistoryImporter::new().with_days_per_batch(2000);
    assert!(importer.start_import_on(stocks(3), day(2024, 6, 15)).is_ok());
    let run = drive(&mut importer, &["600001"], None);
    assert_eq!(run.outcome, ImportOutcome::Completed);
    let p = importer.get_progress();
    assert_eq!(p.error_count, 2);
    assert_eq!(p.imported_stocks, 3);
    assert_eq!(p.stage, ImportStage::Completed);
    assert_eq!(run.fetches.len(), 6);
}

#[test]
fn cancel_mid_phase_ends_the_job_as_cancelled() {
    let mut importer = HistoryImporter::new().with_batch_size(2);
    assert!(importer.start_import_on(stocks(5), day(2024, 6, 15)).is_ok());
    let run = drive(&mut importer, &[], Some(1));
    assert_eq!(run.outcome, ImportOutcome::Cancelled);
    assert_eq!(run.stages, vec![ImportStage::ImportingRecent, ImportStage::Cancelled]);
    // the batch that was open is finished, the next one is never opened
    assert_eq!(run.fetches.len(), 2);
    let p = importer.get_progress();
    assert_eq!(p.stage, ImportStage::Cancelled);
    assert!(!p.is_running);
    assert_eq!(p.imported_stocks, 2);
    let result = run.outcome.into_result();
    assert!(matches!(result, Err(AppError::Config(_))));
}

#[test]
fn cancel_in_history_phase_ends_the_job_as_cancelled() {
    let mut importer = HistoryImporter::new();
    assert!(importer.start_import_on(stocks(2), day(2024, 6, 15)).is_ok());
    let run = drive(&mut importer, &[], Some(5));
    assert_eq!(run.outcome, ImportOutcome::Cancelled);
    assert_eq!(
        run.stages,
        vec![ImportStage::ImportingRecent, ImportStage::ImportingHistory, ImportStage::Cancelled]
    );
    assert!(!importer.get_progress().is_running);
}

#[test]
fn cancel_flag_is_reset_by_the_next_start() {
    let mut importer = HistoryImporter::new().with_days_per_batch(2000);
    importer.cancel();
    assert_eq!(importer.get_progress().stage, ImportStage::Cancelled);
    assert!(importer.start_import_on(stocks(1), day(2024, 6, 15)).is_ok());
    let run = drive(&mut importer, &[], None);
    assert_eq!(run.outcome, ImportOutcome::Completed);
}

#[test]
fn aborted_fetch_fails_the_job() {
    let mut importer = HistoryImporter::new();
    assert!(importer.start_import_on(stocks(2), day(2024, 6, 15)).is_ok());
    assert!(matches!(importer.step(ImportEvent::Resume), ImportAction::Fetch { .. }));
    let action = importer.step(ImportEvent::FetchAborted);
    assert!(matches!(action, ImportAction::Finish(ImportOutcome::Failed)));
    let p = importer.get_progress();
    assert_eq!(p.stage, ImportStage::Failed);
    assert!(!p.is_running);
    assert!(matches!(ImportOutcome::Failed.into_result(), Err(AppError::Network(_))));
    // a new job may start after a failure
    assert!(importer.start_import_on(stocks(1), day(2024, 6, 15)).is_ok());
}

#[test]
fn step_without_a_job_reports_not_running() {
    let mut importer = HistoryImporter::new();
    let action = importer.step(ImportEvent::Resume);
    assert!(matches!(action, ImportAction::Finish(ImportOutcome::NotRunning)));
    assert_eq!(importer.get_progress().stage, ImportStage::Idle);
    assert!(matches!(ImportOutcome::NotRunning.into_result(), Err(AppError::Config(_))));
}

#[test]
fn empty_stock_list_completes_at_once() {
    let mut importer = HistoryImporter::new();
    assert!(importer.start_import_on(vec![], day(2024, 6, 15)).is_ok());
    assert_eq!(importer.get_progress().total_batches, 0);
    let run = drive(&mut importer, &[], None);
    assert_eq!(run.outcome, ImportOutcome::Completed);
    assert!(run.fetches.is_empty());
    assert_eq!(
        run.stages,
        vec![ImportStage::ImportingRecent, ImportStage::ImportingHistory, ImportStage::Completed]
    );
    let p = importer.get_progress();
    assert_eq!((p.total_stocks, p.imported_stocks), (0, 0));
    assert_eq!((p.total_batches, p.imported_batches), (0, 0));
    assert_eq!(p.stage, ImportStage::Completed);
}

#[test]
fn stages_of_a_fresh_importer_start_at_idle() {
    let mut importer = HistoryImporter::new();
    let mut stages = vec![importer.get_progress().stage];
    assert!(importer.start_import_on(stocks(1), day(2024, 6, 15)).is_ok());
    let run = drive(&mut importer, &[], None);
    stages.extend(run.stages);
    assert_eq!(
        stages,
        vec![
            ImportStage::Idle,
            ImportStage::ImportingRecent,
            ImportStage::ImportingHistory,
            ImportStage::Completed
        ]
    );
}

#[test]
fn entering_the_history_phase_is_a_step_of_its_own() {
    let mut importer = HistoryImporter::new();
    assert!(importer.start_import_on(vec![], day(2024, 6, 15)).is_ok());
    assert!(matches!(importer.step(ImportEvent::Resume), ImportAction::Proceed));
    let p = importer.get_progress();
    assert_eq!(p.stage, ImportStage::ImportingHistory);
    assert!(p.is_running);
    assert_eq!(p.start_date, "2021-05-17");
    assert_eq!(p.end_date, "2024-05-16");
    assert!(matches!(
        importer.step(ImportEvent::Resume),
        ImportAction::Finish(ImportOutcome::Completed)
    ));
    assert!(!importer.get_progress().is_running);
}

#[test]
fn batches_imported_reach_the_total() {
    for (n, b, d) in [(1usize, 1usize, 547i64), (1, 1, 1094), (5, 2, 365), (3, 100, 1095), (2, 1, 1)] {
        let mut importer = HistoryImporter::new().with_batch_size(b).with_days_per_batch(d);
        assert!(importer.start_import_on(stocks(n), day(2024, 6, 15)).is_ok());
        let run = drive(&mut importer, &[], None);
        assert_eq!(run.outcome, ImportOutcome::Completed);
        let p = importer.get_progress();
        let stock_batches = (n + b - 1) / b;
        let windows = ((1095 + d - 1) / d) as usize;
        assert_eq!(p.total_batches, stock_batches * windows, "n={} b={} d={}", n, b, d);
        assert_eq!(p.imported_batches, p.total_batches, "n={} b={} d={}", n, b, d);
        assert_eq!(run.fetches.len(), n + n * windows);
    }
}

#[test]
fn history_windows_cover_every_day_once() {
    let first = NaiveDate::from_ymd_opt(2021, 5, 17).unwrap();
    let last = NaiveDate::from_ymd_opt(2024, 5, 16).unwrap();
    for d in [1i64, 2, 4, 14, 30, 72, 218, 364, 365, 547, 1094, 1095, 1096, 5000] {
        let mut importer = HistoryImporter::new().with_days_per_batch(d);
        assert!(importer.start_import_on(stocks(1), day(2024, 6, 15)).is_ok());
        let run = drive(&mut importer, &[], None);
        let windows: Vec<(NaiveDate, NaiveDate)> = run.fetches[1..]
            .iter()
            .map(|f| {
                (
                    NaiveDate::parse_from_str(&f.1, "%Y-%m-%d").unwrap(),
                    NaiveDate::parse_from_str(&f.2, "%Y-%m-%d").unwrap(),
                )
            })
            .collect();
        assert_eq!(windows.len() as i64, (1095 + d - 1) / d, "d={}", d);
        assert_eq!(windows[0].1, last);
        assert_eq!(windows[windows.len() - 1].0, first);
        for (i, w) in windows.iter().enumerate() {
            assert!(w.0 <= w.1);
            let days = (w.1 - w.0).num_days() + 1;
            if i + 1 < windows.len() {
                assert_eq!(days, d);
                assert_eq!((w.0 - windows[i + 1].1).num_days(), 1);
            } else {
                assert!(days <= d + 1);
            }
        }
    }
}

#[test]
fn changing_the_settings_lets_go_of_a_job() {
    let mut importer = HistoryImporter::new();
    assert!(importer.start_import_on(stocks(2), day(2024, 6, 15)).is_ok());
    assert!(matches!(importer.step(ImportEvent::Resume), ImportAction::Fetch { .. }));
    let mut importer = importer.with_batch_size(1);
    assert!(!importer.get_progress().is_running);
    assert_eq!(importer.get_progress().stage, ImportStage::Cancelled);
    assert!(matches!(
        importer.step(ImportEvent::FetchSucceeded),
        ImportAction::Finish(ImportOutcome::NotRunning)
    ));
    assert!(importer.start_import_on(stocks(2), day(2024, 6, 15)).is_ok());
    assert_eq!(importer.get_progress().total_batches, 2);
}
