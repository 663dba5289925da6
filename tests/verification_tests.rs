use isiprint::verification::{
    cups_job_key, job_seen_in_listing, newest_spool_output, select_spool_output,
    try_find_latest_pdfwriter_output, try_find_latest_pdfwriter_output_since, QueuePhase,
    QueueWatch, SpoolFile, SpoolWatch, SpoolerQuery, VerificationOutcome, WatchStep,
    spool_timeout_message, queue_timeout_message, bound_string,
};

fn file(path: &str, ext: Option<&str>, t: i128) -> SpoolFile {
    SpoolFile { path: path.to_string(), extension: ext.map(|e| e.to_string()), modified_ns: t }
}

#[test]
fn unknown_job_is_observed_without_polling() {
    let (w, step) = QueueWatch::start("Thermal1", 0, 3000);
    assert_eq!(step, WatchStep::Finish(VerificationOutcome::Observed));
    assert_eq!(w.waited_ms, 0);
    let (_, step) = QueueWatch::start("Thermal1", -3, 3000);
    assert_eq!(step, WatchStep::Finish(VerificationOutcome::Observed));
}

#[test]
fn listed_job_is_observed_in_first_poll() {
    let (mut w, step) = QueueWatch::start("Thermal1", 42, 3000);
    assert_eq!(step, WatchStep::Query(SpoolerQuery::PendingJobs));
    let step = w.on_listing(Some("Thermal1-42 alice 1024 Mon Jan 1 12:00:00 2024\n"));
    assert_eq!(step, WatchStep::Query(SpoolerQuery::CompletedJobs));
    let step = w.on_listing(Some(""));
    assert_eq!(step, WatchStep::Finish(VerificationOutcome::Observed));
    assert_eq!(w.waited_ms, 0);
}

#[test]
fn completed_listing_also_counts() {
    let (mut w, _) = QueueWatch::start("Thermal1", 42, 3000);
    w.on_listing(Some(""));
    assert_eq!(w.on_listing(Some("Thermal1-42 bob 1 x")), WatchStep::Finish(VerificationOutcome::Observed));
}

#[test]
fn failing_listing_tool_counts_as_observed() {
    let (mut w, _) = QueueWatch::start("Thermal1", 42, 3000);
    assert_eq!(w.on_listing(None), WatchStep::Finish(VerificationOutcome::Observed));
}

#[test]
fn unseen_job_times_out_after_the_bound() {
    let (mut w, mut step) = QueueWatch::start("Thermal1", 42, 3000);
    let mut polls = 0;
    loop {
        step = match step {
            WatchStep::Query(_) => {
                polls += 1;
                w.on_listing(Some("Thermal1-41 someone 1 x\nOther-42 x y z\n"))
            }
            WatchStep::Sleep(ms) => {
                assert_eq!(ms, 250);
                w.on_slept()
            }
            WatchStep::Finish(o) => {
                assert_eq!(o, VerificationOutcome::TimedOut { elapsed_ms: 3000, bound_ms: 3000 });
                break;
            }
            WatchStep::ListSpool => panic!("not a spool watch"),
        };
    }
    assert_eq!(polls, 24);
    assert_eq!(w.phase, QueuePhase::Done(VerificationOutcome::TimedOut { elapsed_ms: 3000, bound_ms: 3000 }));
}

#[test]
fn job_key_needs_a_positive_id() {
    assert_eq!(cups_job_key("Thermal1", 42), Some("Thermal1-42".to_string()));
    assert_eq!(cups_job_key("Thermal1", 0), None);
    assert!(job_seen_in_listing(&None, ""));
    assert!(!job_seen_in_listing(&Some("P-1".to_string()), "P-2 x"));
}

#[test]
fn latest_spool_file_is_selected() {
    let files = vec![
        file("/s/a.pdf", Some("pdf"), 30),
        file("/s/b.PDF", Some("PDF"), 50),
        file("/s/c.pdf", Some("pdf"), 10),
        file("/s/d.txt", Some("txt"), 90),
        file("/s/e", None, 95),
    ];
    assert_eq!(newest_spool_output(&files, None), Some(1));
    assert_eq!(try_find_latest_pdfwriter_output(&files), Some("/s/b.PDF".to_string()));
    assert_eq!(try_find_latest_pdfwriter_output_since(&files, 40), Some("/s/b.PDF".to_string()));
    assert_eq!(try_find_latest_pdfwriter_output_since(&files, 60), None);
    assert_eq!(select_spool_output(&files, 60), Some(1));
    assert_eq!(select_spool_output(&files, 20), Some(1));
    assert_eq!(newest_spool_output(&vec![], None), None);
}

#[test]
fn first_of_equal_times_wins() {
    let files = vec![file("/s/x.pdf", Some("pdf"), 5), file("/s/y.pdf", Some("pdf"), 5)];
    assert_eq!(newest_spool_output(&files, None), Some(0));
}

#[test]
fn spool_watch_finds_output() {
    let (mut w, step) = SpoolWatch::start(100, 8000);
    assert_eq!(step, WatchStep::ListSpool);
    assert_eq!(w.on_listing(&vec![]), WatchStep::Sleep(250));
    assert_eq!(w.on_slept(), WatchStep::ListSpool);
    let step = w.on_listing(&vec![file("/s/out.pdf", Some("pdf"), 120)]);
    assert_eq!(step, WatchStep::Finish(VerificationOutcome::Observed));
    assert_eq!(w.found, Some("/s/out.pdf".to_string()));
}

#[test]
fn spool_watch_times_out_at_eight_seconds() {
    let (mut w, mut step) = SpoolWatch::start(100, 8000);
    let mut listings = 0;
    let outcome = loop {
        step = match step {
            WatchStep::ListSpool => {
                listings += 1;
                w.on_listing(&vec![file("/s/notes.txt", Some("txt"), 200)])
            }
            WatchStep::Sleep(_) => w.on_slept(),
            WatchStep::Finish(o) => break o,
            WatchStep::Query(_) => panic!("not a queue watch"),
        };
    };
    assert_eq!(listings, 32);
    assert_eq!(outcome, VerificationOutcome::TimedOut { elapsed_ms: 8000, bound_ms: 8000 });
    let message = spool_timeout_message(8000);
    assert_eq!(message, "PDFwriter accepted the job, but no output PDF was detected in spool within 8s");
}

#[test]
fn key_match_is_a_raw_substring_match() {
    assert!(job_seen_in_listing(&Some("Thermal1-42".to_string()), "Thermal1-420 x y z"));
}

#[test]
fn queue_timeout_names_key_and_bound() {
    assert_eq!(
        queue_timeout_message("Thermal1-42", 3000),
        "Print job Thermal1-42 was submitted but not observed in CUPS queue/completed within 3s"
    );
}

#[test]
fn bounds_read_like_durations() {
    assert_eq!(bound_string(8000), "8s");
    assert_eq!(bound_string(1500), "1.5s");
    assert_eq!(bound_string(1250), "1.25s");
    assert_eq!(bound_string(1005), "1.005s");
    assert_eq!(bound_string(250), "250ms");
    assert_eq!(bound_string(0), "0ns");
}
