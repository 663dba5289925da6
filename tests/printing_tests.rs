use isiprint::escpos::{build_test_receipt, RawPrinter, CONNECT_TIMEOUT_MS};
use isiprint::media::{clamp_mm, media_for_preset, settings_to_media, PrintSettings};
use isiprint::print_flow::{PrintAction, PrintFlow, PrintKind};
use isiprint::spooler::{
    accepting_printer_names, cancel_result, cut_command, job_id_from_ack, jobs_from_run,
    parse_job_listing, printer_list_result, printer_names, submission_result, submit_arguments,
    PrintJob, SubmitError, ToolRun,
};
use isiprint::verification::VerificationOutcome;

fn settings(preset: &str, w: Option<i64>, h: Option<i64>) -> PrintSettings {
    PrintSettings { preset: preset.to_string(), width_um: w, height_um: h }
}

fn run(success: bool, stdout: &str, stderr: &str) -> Result<ToolRun, String> {
    Ok(ToolRun { success, stdout: stdout.to_string(), stderr: stderr.to_string() })
}

#[test]
fn thermal_preset_resolves_to_default_roll() {
    let m = settings_to_media(&settings("thermal", None, None));
    assert_eq!(m.backend_media_id, "Custom.80x200mm");
    assert_eq!(m.width_um, 80_000);
    assert_eq!(m.height_um, 200_000);
}

#[test]
fn oficio_preset_is_fixed() {
    let m = settings_to_media(&settings("Oficio", Some(1), Some(1)));
    assert_eq!(m.backend_media_id, "Custom.216x330mm");
    assert_eq!(m.width_um, 216_000);
    assert_eq!(m.height_um, 330_000);
}

#[test]
fn letter_preset_in_both_languages() {
    let a = settings_to_media(&settings("CARTA", None, None));
    let b = settings_to_media(&settings("letter", None, None));
    assert_eq!(a.backend_media_id, "Letter");
    assert_eq!(a.width_um, 215_900);
    assert_eq!(a.height_um, 279_400);
    assert_eq!(b.backend_media_id, "Letter");
}

#[test]
fn custom_width_is_clamped_above() {
    let m = settings_to_media(&settings("custom", Some(9_999_000), None));
    assert_eq!(m.width_um, 500_000);
    assert_eq!(m.height_um, 200_000);
    assert_eq!(m.backend_media_id, "Custom.500x200mm");
}

#[test]
fn custom_sizes_are_clamped_below_and_rounded() {
    let m = media_for_preset("personalizado", Some(-5), Some(57_500));
    assert_eq!(m.width_um, 20_000);
    assert_eq!(m.backend_media_id, "Custom.20x58mm");
    let m = media_for_preset("custom", Some(57_499), Some(2_000_000));
    assert_eq!(m.backend_media_id, "Custom.57x1000mm");
}

#[test]
fn other_presets_stay_in_thermal_bounds() {
    for (w, h) in [(Some(1), Some(1)), (Some(10_000_000), Some(10_000_000)), (None, None), (Some(58_000), Some(39_999))] {
        let m = media_for_preset("rollo", w, h);
        assert!(20_000 <= m.width_um && m.width_um <= 200_000);
        assert!(40_000 <= m.height_um && m.height_um <= 1_000_000);
    }
    let m = media_for_preset("rollo", Some(58_000), Some(39_999));
    assert_eq!(m.backend_media_id, "Custom.58x40mm");
}

#[test]
fn clamp_holds_values_within_bounds() {
    assert_eq!(clamp_mm(5, 10, 20), 10);
    assert_eq!(clamp_mm(25, 10, 20), 20);
    assert_eq!(clamp_mm(15, 10, 20), 15);
}

#[test]
fn test_cut_command_bytes() {
    let cut = cut_command();
    assert_eq!(cut, vec![0x1D, 0x56, 0x00]);
    assert_eq!(cut.len(), 3);
}

#[test]
fn test_print_job_struct() {
    let job = PrintJob {
        id: 123,
        title: "Test Document".to_string(),
        user: "testuser".to_string(),
        printer: "TestPrinter".to_string(),
        status: "pending".to_string(),
    };
    assert_eq!(job.id, 123);
    assert_eq!(job.title, "Test Document");
    assert_eq!(job.user, "testuser");
    assert_eq!(job.printer, "TestPrinter");
    assert_eq!(job.status, "pending");
}

#[test]
fn test_print_file_nonexistent() {
    let result = submission_result("/nonexistent/path/to/file.pdf", false, &Err(String::new()));
    assert!(result.is_err(), "Should fail with nonexistent file");
    let error = result.err().unwrap().message();
    assert!(
        error.contains("does not exist") || error.contains("Error"),
        "Error should mention file does not exist"
    );
}

#[test]
fn job_id_is_read_from_the_acknowledgment() {
    assert_eq!(job_id_from_ack("request id is Thermal1-42 (1 file(s))\n"), 42);
    assert_eq!(job_id_from_ack("request id is My-Printer-7 (1 file(s))"), 7);
    assert_eq!(job_id_from_ack("no id here"), 0);
    assert_eq!(job_id_from_ack("P-99999999999 (1 file(s))"), 0);
    assert_eq!(job_id_from_ack(""), 0);
}

#[test]
fn submission_errors_and_success() {
    match submission_result("/tmp/a.pdf", true, &Err("not found".to_string())) {
        Err(SubmitError::SpoolUnavailable { diagnostic }) => assert_eq!(diagnostic, "Error executing lp: not found"),
        _ => panic!("expected SpoolUnavailable"),
    }
    match submission_result("/tmp/a.pdf", true, &run(false, "", "lp: unknown printer")) {
        Err(e) => assert_eq!(e.message(), "Print error: lp: unknown printer"),
        _ => panic!("expected an error"),
    }
    match submission_result("/tmp/a.pdf", true, &run(true, "request id is P-5 (1 file(s))", "")) {
        Ok(id) => assert_eq!(id, 5),
        _ => panic!("expected success"),
    }
    match submission_result("/x.pdf", false, &run(true, "request id is P-5", "")) {
        Err(e) => assert_eq!(e.message(), "File /x.pdf does not exist"),
        _ => panic!("expected FileNotFound"),
    }
}

#[test]
fn submit_arguments_carry_media_when_given() {
    assert_eq!(submit_arguments("P", "/f.pdf", None), vec!["-d", "P", "/f.pdf"]);
    assert_eq!(
        submit_arguments("P", "/f.pdf", Some("Custom.80x200mm")),
        vec!["-d", "P", "-o", "media=Custom.80x200mm", "/f.pdf"]
    );
}

#[test]
fn pending_listing_is_parsed() {
    let listing = "Thermal1-42 alice 1024 Mon Jan 1 12:00:00 2024\r\nshort line\nOffice-HP-7 bob 2048 Tue\n";
    let jobs = parse_job_listing(listing);
    assert_eq!(jobs.len(), 2);
    assert_eq!(jobs[0].id, 42);
    assert_eq!(jobs[0].title, "Thermal1-42");
    assert_eq!(jobs[0].user, "alice");
    assert_eq!(jobs[0].printer, "Thermal1");
    assert_eq!(jobs[0].status, "pending");
    assert_eq!(jobs[1].id, 7);
    assert_eq!(jobs[1].printer, "Office");
    assert!(jobs_from_run(&run(false, "x-1 a b c", "")).unwrap().is_empty());
    assert_eq!(jobs_from_run(&Err("gone".to_string())).err().unwrap(), "Error executing lpstat: gone");
}

#[test]
fn printer_listings_are_parsed() {
    assert_eq!(printer_names("Thermal1\n\n  PDFwriter \n"), vec!["Thermal1", "PDFwriter"]);
    assert_eq!(accepting_printer_names("Thermal1 accepting requests since x\n\nHP accepting\n"), vec!["Thermal1", "HP"]);
    assert!(printer_list_result(&run(false, "", ""), &None).is_none());
    assert_eq!(
        printer_list_result(&run(false, "", ""), &Some(run(true, "A accepting\n", ""))),
        Some(Ok(vec!["A".to_string()]))
    );
    assert_eq!(
        printer_list_result(&run(false, "", ""), &Some(run(false, "", ""))),
        Some(Err("Error getting printer list".to_string()))
    );
    assert_eq!(printer_list_result(&run(true, "B\n", ""), &None), Some(Ok(vec!["B".to_string()])));
}

#[test]
fn cancel_reports_the_spooler_text() {
    assert_eq!(cancel_result(&run(true, "", "")), Ok(()));
    assert_eq!(cancel_result(&run(false, "", "denied")), Err("Error cancelling jobs: denied".to_string()));
}

#[test]
fn receipt_is_identical_for_identical_inputs() {
    let a = build_test_receipt("01/02/2024 10:11:12", "192.168.1.50:9100");
    let b = build_test_receipt("01/02/2024 10:11:12", "192.168.1.50:9100");
    assert_eq!(a, b);
    let c = build_test_receipt("01/02/2024 10:11:12", "192.168.1.51:9100");
    assert_ne!(a, c);
}

#[test]
fn receipt_layout() {
    let r = build_test_receipt("T", "A");
    assert_eq!(&r[..5], &[0x1B, 0x40, 0x1B, 0x61, 0x01]);
    assert_eq!(&r[r.len() - 4..], &[0x1D, 0x56, 66, 0]);
    let text = String::from_utf8_lossy(&r).to_string();
    assert!(text.contains("IP Impresora: A\nModo: RAW SOCKET / ESC-POS\nFecha: T\n\n"));
}

#[test]
fn raw_printer_address() {
    let p = RawPrinter::new("10.0.0.9", 9100);
    assert_eq!(p.address, "10.0.0.9:9100");
    assert_eq!(p.timeout_ms, CONNECT_TIMEOUT_MS);
    assert_eq!(p.test_receipt("x"), build_test_receipt("x", "10.0.0.9:9100"));
}

#[test]
fn print_flow_on_thermal_queue_printer() {
    let mut f = PrintFlow::new(PrintKind::FileWithSettings, "Thermal1", Some("THERMAL"), Some("Custom.80x200mm".to_string()));
    match f.on_admission(true, true) {
        PrintAction::Submit(m) => assert_eq!(m, Some("Custom.80x200mm".to_string())),
        _ => panic!("expected Submit"),
    }
    match f.on_submitted(&Ok(42)) {
        PrintAction::WatchQueue { job_id, timeout_ms } => {
            assert_eq!(job_id, 42);
            assert_eq!(timeout_ms, 3000);
        }
        _ => panic!("expected WatchQueue"),
    }
    assert!(matches!(f.on_verified(VerificationOutcome::Observed), PrintAction::SendCut));
    match f.on_cut_sent() {
        PrintAction::Complete(m) => assert_eq!(m, "Print started. Job ID: 42"),
        _ => panic!("expected Complete"),
    }
}

#[test]
fn print_flow_on_spool_printer() {
    let mut f = PrintFlow::new(PrintKind::TestPage, "PDFwriter", Some("thermal"), Some("Custom.80x200mm".to_string()));
    match f.on_admission(true, true) {
        PrintAction::Submit(m) => assert_eq!(m, None),
        _ => panic!("expected Submit"),
    }
    assert!(matches!(f.on_submitted(&Ok(3)), PrintAction::WatchSpool { timeout_ms: 8000 }));
    match f.on_verified(VerificationOutcome::TimedOut { elapsed_ms: 8000, bound_ms: 8000 }) {
        PrintAction::Fail(m) => assert_eq!(m, "PDFwriter accepted the job, but no output PDF was detected in spool within 8s"),
        _ => panic!("expected Fail"),
    }
}

#[test]
fn print_flow_refusals() {
    let mut f = PrintFlow::new(PrintKind::File, "Thermal1", None, None);
    match f.on_admission(false, true) {
        PrintAction::Fail(m) => assert_eq!(m, "License expired or invalid"),
        _ => panic!("expected Fail"),
    }
    let mut f = PrintFlow::new(PrintKind::File, "Thermal1", None, None);
    match f.on_admission(true, false) {
        PrintAction::Fail(m) => assert_eq!(m, "Print limit reached"),
        _ => panic!("expected Fail"),
    }
    let mut f = PrintFlow::new(PrintKind::FileWithSettings, "Office", Some("carta"), None);
    f.on_admission(true, true);
    f.on_submitted(&Ok(9));
    match f.on_verified(VerificationOutcome::Observed) {
        PrintAction::Complete(m) => assert_eq!(m, "Print started. Job ID: 9"),
        _ => panic!("expected Complete without cut"),
    }
    let mut f = PrintFlow::new(PrintKind::File, "Office", None, None);
    f.on_admission(true, true);
    f.on_submitted(&Ok(9));
    match f.on_verified(VerificationOutcome::TimedOut { elapsed_ms: 3000, bound_ms: 3000 }) {
        PrintAction::Fail(m) => assert_eq!(m, "Print job Office-9 was submitted but not observed in CUPS queue/completed within 3s"),
        _ => panic!("expected Fail"),
    }
}

fn finish(kind: PrintKind, printer: &str, preset: Option<&str>, job_id: i32) -> (bool, String) {
    let mut f = PrintFlow::new(kind, printer, preset, Some("Custom.80x200mm".to_string()));
    f.on_admission(true, true);
    f.on_submitted(&Ok(job_id));
    let mut cut = false;
    let mut action = f.on_verified(VerificationOutcome::Observed);
    if let PrintAction::SendCut = action {
        cut = true;
        action = f.on_cut_sent();
    }
    match action {
        PrintAction::Complete(m) => (cut, m),
        _ => panic!("expected Complete"),
    }
}

#[test]
fn each_operation_answers_its_own_way() {
    assert_eq!(finish(PrintKind::File, "Thermal1", None, 7), (true, "Print started".to_string()));
    assert_eq!(finish(PrintKind::File, "Office PDF", None, 7), (false, "Print started".to_string()));
    assert_eq!(finish(PrintKind::FileWithSettings, "Thermal1", Some("thermal"), 7), (true, "Print started. Job ID: 7".to_string()));
    assert_eq!(finish(PrintKind::Url, "Office PDF", None, 7), (true, "PDF print started".to_string()));
    assert_eq!(finish(PrintKind::UrlWithSettings, "Thermal1", Some("carta"), 7), (false, "PDF print started. Job ID: 7".to_string()));
    assert_eq!(finish(PrintKind::TestPage, "Thermal1", Some("Thermal"), 7), (true, "Test page print started. Job ID: 7".to_string()));
}

#[test]
fn plain_prints_carry_no_media() {
    let mut f = PrintFlow::new(PrintKind::File, "Thermal1", None, Some("Custom.80x200mm".to_string()));
    match f.on_admission(true, true) {
        PrintAction::Submit(m) => assert_eq!(m, None),
        _ => panic!("expected Submit"),
    }
}
