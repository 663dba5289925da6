//! One print operation as a state machine: admission (licence and print
//! limit), submission with or without a media option, verification by the
//! strategy the printer calls for, an optional cut job, and the answer. The
//! caller performs each action and reports its result.

use vstd::prelude::*;
use crate::commands::{is_pdf_printer, is_pdfwriter, pdf_printer_spec, pdfwriter_spec};
use crate::spooler::SubmitError;
use crate::text::{lower_of, lowercase, signed_decimal, signed_decimal_string, str_equals};
use crate::verification::{
    queue_timeout_message, queue_timeout_text, spool_timeout_message, spool_timeout_text,
    VerificationOutcome, QUEUE_TIMEOUT_MS, SPOOL_TIMEOUT_MS,
};

verus! {

/// What the caller has to do next.
pub enum PrintAction {
    /// Submit the file, with this media option when given.
    Submit(Option<String>),
    /// Verify through the spooler's listings, within the bound.
    WatchQueue { job_id: i32, timeout_ms: u64 },
    /// Verify through the spool directory, within the bound.
    WatchSpool { timeout_ms: u64 },
    /// Submit the cut command to the same printer; its failure is only
    /// worth a warning.
    SendCut,
    /// The print went through; answer with this message.
    Complete(String),
    /// The print failed or was refused; answer with this message.
    Fail(String),
}

/// Which print operation runs; it decides the cut and the answer.
#[derive(PartialEq, Eq, Structural, Clone, Copy, Debug)]
pub enum PrintKind {
    /// A local file, as it is.
    File,
    /// A local file, on the media of the request's settings.
    FileWithSettings,
    /// A downloaded PDF, as it is.
    Url,
    /// A downloaded PDF, on the media of the request's settings.
    UrlWithSettings,
    /// The generated test page, on the media of the request's settings.
    TestPage,
}

#[derive(PartialEq, Eq, Structural, Clone, Copy, Debug)]
pub enum FlowPhase {
    Admission,
    Submitting,
    Verifying,
    Cutting,
    Done,
}

/// One print operation.
pub struct PrintFlow {
    pub printer_name: String,
    pub kind: PrintKind,
    pub pdf_printer: bool,
    pub pdfwriter: bool,
    pub cut: bool,
    pub media: Option<String>,
    pub job_id: i32,
    pub phase: FlowPhase,
}

/// Whether a cut job follows: a plain file print cuts on any printer that
/// is not a virtual PDF printer, a plain download print cuts always, and a
/// print with settings cuts only for the `thermal` preset (any case) on a
/// printer that is not a virtual PDF printer.
pub open spec fn cut_wanted(kind: PrintKind, printer: Seq<char>, preset: Option<Seq<char>>) -> bool {
    match kind {
        PrintKind::File => !pdf_printer_spec(printer),
        PrintKind::Url => true,
        _ => !pdf_printer_spec(printer) && match preset {
            Some(p) => lower_of(p) == "thermal"@,
            None => false,
        },
    }
}

pub open spec fn opt_view(o: Option<&str>) -> Option<Seq<char>> {
    match o {
        Some(s) => Some(s@),
        None => None,
    }
}

pub open spec fn opt_string_view(o: Option<String>) -> Option<Seq<char>> {
    match o {
        Some(s) => Some(s@),
        None => None,
    }
}

pub open spec fn with_job_id(label: Seq<char>, job_id: i32) -> Seq<char> {
    label + ". Job ID: "@ + signed_decimal(job_id as int)
}

/// The answer of a print that went through.
pub open spec fn started_text(kind: PrintKind, pdfwriter: bool, job_id: i32) -> Seq<char> {
    match kind {
        PrintKind::File => "Print started"@,
        PrintKind::FileWithSettings => with_job_id("Print started"@, job_id),
        PrintKind::Url => "PDF print started"@,
        PrintKind::UrlWithSettings => with_job_id("PDF print started"@, job_id),
        PrintKind::TestPage => if pdfwriter {
            with_job_id("Test page printed"@, job_id)
        } else {
            with_job_id("Test page print started"@, job_id)
        },
    }
}

impl PrintFlow {
    /// Starts a print on `printer_name`. `media` is the resolved media
    /// identifier of prints with settings; it is not passed to virtual PDF
    /// printers, which reject custom sizes, nor for plain prints.
    pub fn new(kind: PrintKind, printer_name: &str, preset: Option<&str>, media: Option<String>) -> (r: PrintFlow)
        ensures
            r.printer_name@ == printer_name@,
            r.kind == kind,
            r.pdf_printer == pdf_printer_spec(printer_name@),
            r.pdfwriter == pdfwriter_spec(printer_name@),
            r.cut == cut_wanted(kind, printer_name@, opt_view(preset)),
            opt_string_view(r.media) == if pdf_printer_spec(printer_name@) || kind == PrintKind::File
                || kind == PrintKind::Url {
                None
            } else {
                opt_string_view(media)
            },
            r.job_id == 0,
            r.phase == FlowPhase::Admission,
    {
        let pdf_printer = is_pdf_printer(printer_name);
        let pdfwriter = is_pdfwriter(printer_name);
        let thermal = match preset {
            None => false,
            Some(p) => {
                let l = lowercase(p);
                str_equals(l.as_str(), "thermal")
            },
        };
        let plain = match kind {
            PrintKind::File | PrintKind::Url => true,
            _ => false,
        };
        let cut = match kind {
            PrintKind::File => !pdf_printer,
            PrintKind::Url => true,
            _ => !pdf_printer && thermal,
        };
        PrintFlow {
            printer_name: String::from_str(printer_name),
            kind,
            pdf_printer,
            pdfwriter,
            cut,
            media: if pdf_printer || plain {
                None
            } else {
                media
            },
            job_id: 0,
            phase: FlowPhase::Admission,
        }
    }

    /// Reports whether the licence is valid and another print is allowed.
    pub fn on_admission(&mut self, license_valid: bool, can_print: bool) -> (r: PrintAction)
        requires
            old(self).phase == FlowPhase::Admission,
        ensures
            final(self).printer_name == old(self).printer_name,
            final(self).pdfwriter == old(self).pdfwriter,
            final(self).cut == old(self).cut,
            final(self).kind == old(self).kind,
            final(self).job_id == old(self).job_id,
            !license_valid ==> final(self).phase == FlowPhase::Done && (r matches PrintAction::Fail(m)
                && m@ == "License expired or invalid"@),
            license_valid && !can_print ==> final(self).phase == FlowPhase::Done && (
            r matches PrintAction::Fail(m) && m@ == "Print limit reached"@),
            license_valid && can_print ==> final(self).phase == FlowPhase::Submitting && (
            r matches PrintAction::Submit(m) && opt_string_view(m) == opt_string_view(old(self).media)),
    {
        if !license_valid {
            self.phase = FlowPhase::Done;
            return PrintAction::Fail(String::from_str("License expired or invalid"));
        }
        if !can_print {
            self.phase = FlowPhase::Done;
            return PrintAction::Fail(String::from_str("Print limit reached"));
        }
        self.phase = FlowPhase::Submitting;
        PrintAction::Submit(self.media.clone())
    }

    /// Reports the submission's result. A spool-directory printer is
    /// verified through its spool directory, any other through the
    /// spooler's listings.
    pub fn on_submitted(&mut self, result: &Result<i32, SubmitError>) -> (r: PrintAction)
        requires
            old(self).phase == FlowPhase::Submitting,
        ensures
            final(self).printer_name == old(self).printer_name,
            final(self).pdfwriter == old(self).pdfwriter,
            final(self).cut == old(self).cut,
            final(self).kind == old(self).kind,
            match result {
                Err(e) => final(self).phase == FlowPhase::Done && (r matches PrintAction::Fail(m) && m@
                    == e.message_spec()),
                Ok(id) => {
                    &&& final(self).phase == FlowPhase::Verifying
                    &&& final(self).job_id == *id
                    &&& if old(self).pdfwriter {
                        r == PrintAction::WatchSpool { timeout_ms: SPOOL_TIMEOUT_MS }
                    } else {
                        r == PrintAction::WatchQueue { job_id: *id, timeout_ms: QUEUE_TIMEOUT_MS }
                    }
                },
            },
    {
        match result {
            Err(e) => {
                self.phase = FlowPhase::Done;
                PrintAction::Fail(e.message())
            },
            Ok(id) => {
                self.job_id = *id;
                self.phase = FlowPhase::Verifying;
                if self.pdfwriter {
                    PrintAction::WatchSpool { timeout_ms: SPOOL_TIMEOUT_MS }
                } else {
                    PrintAction::WatchQueue { job_id: *id, timeout_ms: QUEUE_TIMEOUT_MS }
                }
            },
        }
    }

    fn started_message(&self) -> (r: String)
        ensures
            r@ == started_text(self.kind, self.pdfwriter, self.job_id),
    {
        let (label, numbered) = match self.kind {
            PrintKind::File => ("Print started", false),
            PrintKind::FileWithSettings => ("Print started", true),
            PrintKind::Url => ("PDF print started", false),
            PrintKind::UrlWithSettings => ("PDF print started", true),
            PrintKind::TestPage => if self.pdfwriter {
                ("Test page printed", true)
            } else {
                ("Test page print started", true)
            },
        };
        let mut m = String::from_str(label);
        if numbered {
            m.append(". Job ID: ");
            let d = signed_decimal_string(self.job_id as i64);
            m.append(d.as_str());
        }
        m
    }

    /// Reports how the verification ended. A job not observed within the
    /// bound fails the print.
    pub fn on_verified(&mut self, outcome: VerificationOutcome) -> (r: PrintAction)
        requires
            old(self).phase == FlowPhase::Verifying,
        ensures
            final(self).printer_name == old(self).printer_name,
            final(self).pdfwriter == old(self).pdfwriter,
            final(self).cut == old(self).cut,
            final(self).kind == old(self).kind,
            final(self).job_id == old(self).job_id,
            match outcome {
                VerificationOutcome::TimedOut { elapsed_ms, bound_ms } => {
                    &&& final(self).phase == FlowPhase::Done
                    &&& r matches PrintAction::Fail(m) && m@ == if old(self).pdfwriter {
                        spool_timeout_text(bound_ms)
                    } else {
                        queue_timeout_text(
                            old(self).printer_name@ + "-"@ + signed_decimal(old(self).job_id as int),
                            bound_ms,
                        )
                    }
                },
                VerificationOutcome::Observed => if old(self).cut {
                    final(self).phase == FlowPhase::Cutting && r == PrintAction::SendCut
                } else {
                    final(self).phase == FlowPhase::Done && (r matches PrintAction::Complete(m) && m@
                        == started_text(old(self).kind, old(self).pdfwriter, old(self).job_id))
                },
            },
    {
        match outcome {
            VerificationOutcome::TimedOut { elapsed_ms, bound_ms } => {
                self.phase = FlowPhase::Done;
                if self.pdfwriter {
                    PrintAction::Fail(spool_timeout_message(bound_ms))
                } else {
                    let mut key = self.printer_name.clone();
                    key.append("-");
                    let d = signed_decimal_string(self.job_id as i64);
                    key.append(d.as_str());
                    PrintAction::Fail(queue_timeout_message(key.as_str(), bound_ms))
                }
            },
            VerificationOutcome::Observed => {
                if self.cut {
                    self.phase = FlowPhase::Cutting;
                    PrintAction::SendCut
                } else {
                    self.phase = FlowPhase::Done;
                    PrintAction::Complete(self.started_message())
                }
            },
        }
    }

    /// Reports that the cut job was submitted or failed; either way the
    /// print went through.
    pub fn on_cut_sent(&mut self) -> (r: PrintAction)
        requires
            old(self).phase == FlowPhase::Cutting,
        ensures
            final(self).phase == FlowPhase::Done,
            final(self).job_id == old(self).job_id,
            r matches PrintAction::Complete(m) && m@ == started_text(old(self).kind, old(self).pdfwriter, old(self).job_id),
    {
        self.phase = FlowPhase::Done;
        PrintAction::Complete(self.started_message())
    }
}

} // verus!
