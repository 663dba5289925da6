//! Submission of files to the system print spooler: the arguments handed to
//! it, how its answers are read, and the parsing of its job and printer
//! listings. Running the spooler's tools is left to the caller, which hands
//! back what they printed.

use vstd::prelude::*;
use crate::text::{
    after_last, after_last_of, before_first, before_first_of, has_char, has_char_exec, lines,
    lines_of, parse_i32, parse_i32_spec, trim, trimmed, views_of, words, words_of,
};

verus! {

/// A job as the spooler lists it.
pub struct PrintJob {
    pub id: i32,
    pub title: String,
    pub user: String,
    pub printer: String,
    pub status: String,
}

/// What a finished spooler tool reported.
pub struct ToolRun {
    pub success: bool,
    pub stdout: String,
    pub stderr: String,
}

/// Why a submission failed.
pub enum SubmitError {
    /// The file to print does not exist.
    FileNotFound { path: String },
    /// The spooler could not be run or refused the job; carries its text.
    SpoolUnavailable { diagnostic: String },
}

/// The three bytes of the ESC/POS cut command (GS V 0).
pub fn cut_command() -> (r: Vec<u8>)
    ensures
        r@ == seq![0x1Du8, 0x56u8, 0x00u8],
{
    let r = vec![0x1Du8, 0x56u8, 0x00u8];
    assert(r@ =~= seq![0x1Du8, 0x56u8, 0x00u8]);
    r
}

/// The job id in the spooler's acknowledgment (`request id is P-12 (1
/// file(s))`): the first word after the last `-`, read as an `i32`; 0 when
/// that fails.
pub open spec fn ack_job_id(ack: Seq<char>) -> i32 {
    let ws = words(after_last(ack, '-'));
    if ws.len() > 0 {
        match parse_i32_spec(ws[0]) {
            Some(v) => v,
            None => 0,
        }
    } else {
        0
    }
}

/// Reads the job id from the spooler's acknowledgment.
pub fn job_id_from_ack(ack: &str) -> (r: i32)
    ensures
        r == ack_job_id(ack@),
{
    let tail = after_last_of(ack, '-');
    let ws = words_of(tail.as_str());
    if ws.len() > 0 {
        assert(views_of(ws@)[0] == ws@[0]@);
        match parse_i32(ws[0].as_str()) {
            Some(v) => v,
            None => 0,
        }
    } else {
        0
    }
}

/// Arguments for the spooler's submit tool: `-d <printer>`, then
/// `-o media=<id>` when a media is given, then the file.
pub open spec fn submit_args_spec(printer: Seq<char>, path: Seq<char>, media: Option<Seq<char>>) -> Seq<Seq<char>> {
    match media {
        Some(m) => seq!["-d"@, printer, "-o"@, "media="@ + m, path],
        None => seq!["-d"@, printer, path],
    }
}

pub open spec fn opt_view(o: Option<&str>) -> Option<Seq<char>> {
    match o {
        Some(s) => Some(s@),
        None => None,
    }
}

/// Builds the arguments for submitting `path` to `printer`.
pub fn submit_arguments(printer: &str, path: &str, media: Option<&str>) -> (r: Vec<String>)
    ensures
        views_of(r@) == submit_args_spec(printer@, path@, opt_view(media)),
{
    let mut r: Vec<String> = Vec::new();
    r.push(String::from_str("-d"));
    r.push(String::from_str(printer));
    match media {
        Some(m) => {
            r.push(String::from_str("-o"));
            let mut opt = String::from_str("media=");
            opt.append(m);
            r.push(opt);
        },
        None => {},
    }
    r.push(String::from_str(path));
    assert(views_of(r@) =~= submit_args_spec(printer@, path@, opt_view(media)));
    r
}

pub open spec fn submit_ok(path: Seq<char>, file_exists: bool, run: Result<ToolRun, String>, r: Result<i32, SubmitError>) -> bool {
    if !file_exists {
        r matches Err(SubmitError::FileNotFound { path: p }) && p@ == path
    } else {
        match run {
            Err(e) => r matches Err(SubmitError::SpoolUnavailable { diagnostic: d }) && d@
                == "Error executing lp: "@ + e@,
            Ok(t) => if !t.success {
                r matches Err(SubmitError::SpoolUnavailable { diagnostic: d }) && d@ == "Print error: "@
                    + t.stderr@
            } else {
                r == Ok::<i32, SubmitError>(ack_job_id(t.stdout@))
            },
        }
    }
}

/// The result of submitting `path`: `FileNotFound` when it does not exist;
/// `SpoolUnavailable` when the tool could not be run (`Err` with the
/// reason) or reported failure; otherwise the acknowledged job id.
pub fn submission_result(path: &str, file_exists: bool, run: &Result<ToolRun, String>) -> (r: Result<i32, SubmitError>)
    ensures
        submit_ok(path@, file_exists, *run, r),
{
    if !file_exists {
        return Err(SubmitError::FileNotFound { path: String::from_str(path) });
    }
    match run {
        Err(e) => {
            let mut d = String::from_str("Error executing lp: ");
            d.append(e.as_str());
            Err(SubmitError::SpoolUnavailable { diagnostic: d })
        },
        Ok(t) => {
            if !t.success {
                let mut d = String::from_str("Print error: ");
                d.append(t.stderr.as_str());
                Err(SubmitError::SpoolUnavailable { diagnostic: d })
            } else {
                Ok(job_id_from_ack(t.stdout.as_str()))
            }
        },
    }
}

impl SubmitError {
    pub open spec fn message_spec(&self) -> Seq<char> {
        match self {
            SubmitError::FileNotFound { path } => "File "@ + path@ + " does not exist"@,
            SubmitError::SpoolUnavailable { diagnostic } => diagnostic@,
        }
    }

    /// Human-readable text of the error.
    pub fn message(&self) -> (r: String)
        ensures
            r@ == self.message_spec(),
    {
        match self {
            SubmitError::FileNotFound { path } => {
                let mut s = String::from_str("File ");
                s.append(path.as_str());
                s.append(" does not exist");
                s
            },
            SubmitError::SpoolUnavailable { diagnostic } => diagnostic.clone(),
        }
    }
}

} // verus!

verus! {

pub struct PrintJobView {
    pub id: i32,
    pub title: Seq<char>,
    pub user: Seq<char>,
    pub printer: Seq<char>,
    pub status: Seq<char>,
}

impl View for PrintJob {
    type V = PrintJobView;

    open spec fn view(&self) -> PrintJobView {
        PrintJobView {
            id: self.id,
            title: self.title@,
            user: self.user@,
            printer: self.printer@,
            status: self.status@,
        }
    }
}

/// The job a line of the pending-jobs listing (`P-12 user 1024 date...`)
/// describes: it needs four words and a `-` in the first one.
pub open spec fn job_of_line(line: Seq<char>) -> Option<PrintJobView> {
    let parts = words(line);
    if parts.len() >= 4 && has_char(parts[0], '-') {
        Some(
            PrintJobView {
                id: match parse_i32_spec(after_last(parts[0], '-')) {
                    Some(v) => v,
                    None => 0,
                },
                title: parts[0],
                user: parts[1],
                printer: before_first(parts[0], '-'),
                status: "pending"@,
            },
        )
    } else {
        None
    }
}

/// The jobs of the lines `ls[..i]`, in order.
pub open spec fn jobs_of_lines(ls: Seq<Seq<char>>, i: int) -> Seq<PrintJobView>
    decreases i,
{
    if i <= 0 || i > ls.len() {
        seq![]
    } else {
        match job_of_line(ls[i - 1]) {
            Some(j) => jobs_of_lines(ls, i - 1).push(j),
            None => jobs_of_lines(ls, i - 1),
        }
    }
}

pub open spec fn jobs_view(v: Seq<PrintJob>) -> Seq<PrintJobView> {
    v.map_values(|j: PrintJob| j@)
}

/// Reads one line of the pending-jobs listing.
pub fn parse_job_line(line: &str) -> (r: Option<PrintJob>)
    ensures
        match r {
            Some(j) => job_of_line(line@) == Some(j@),
            None => job_of_line(line@) is None,
        },
{
    let parts = words_of(line);
    if parts.len() < 4 {
        return None;
    }
    assert(views_of(parts@)[0] == parts@[0]@);
    assert(views_of(parts@)[1] == parts@[1]@);
    let first = parts[0].as_str();
    if !has_char_exec(first, '-') {
        return None;
    }
    let id = match parse_i32(after_last_of(first, '-').as_str()) {
        Some(v) => v,
        None => 0,
    };
    Some(
        PrintJob {
            id,
            title: parts[0].clone(),
            user: parts[1].clone(),
            printer: before_first_of(first, '-'),
            status: String::from_str("pending"),
        },
    )
}

/// Reads the spooler's pending-jobs listing, one job per line that has one.
pub fn parse_job_listing(listing: &str) -> (r: Vec<PrintJob>)
    ensures
        jobs_view(r@) == jobs_of_lines(lines(listing@), lines(listing@).len() as int),
{
    let ls = lines_of(listing);
    let mut jobs: Vec<PrintJob> = Vec::new();
    let mut i: usize = 0;
    while i < ls.len()
        invariant
            views_of(ls@) == lines(listing@),
            i <= ls@.len(),
            jobs_view(jobs@) == jobs_of_lines(lines(listing@), i as int),
        decreases ls@.len() - i,
    {
        assert(views_of(ls@)[i as int] == ls@[i as int]@);
        match parse_job_line(ls[i].as_str()) {
            Some(j) => {
                jobs.push(j);
                assert(jobs_view(jobs@) =~= jobs_view(jobs@.drop_last()).push(j@));
            },
            None => {},
        }
        i = i + 1;
    }
    jobs
}

/// The jobs the pending-jobs tool reports: its failure to run is an error,
/// a run that reports failure means there are no jobs.
pub fn jobs_from_run(run: &Result<ToolRun, String>) -> (r: Result<Vec<PrintJob>, String>)
    ensures
        match run {
            Err(e) => r matches Err(m) && m@ == "Error executing lpstat: "@ + e@,
            Ok(t) => r matches Ok(v) && if t.success {
                jobs_view(v@) == jobs_of_lines(lines(t.stdout@), lines(t.stdout@).len() as int)
            } else {
                v@.len() == 0
            },
        },
{
    match run {
        Err(e) => {
            let mut m = String::from_str("Error executing lpstat: ");
            m.append(e.as_str());
            Err(m)
        },
        Ok(t) => {
            if t.success {
                Ok(parse_job_listing(t.stdout.as_str()))
            } else {
                Ok(Vec::new())
            }
        },
    }
}

/// Printer names of a names-only listing: each non-empty line, trimmed.
pub open spec fn names_of_lines(ls: Seq<Seq<char>>, i: int) -> Seq<Seq<char>>
    decreases i,
{
    if i <= 0 || i > ls.len() {
        seq![]
    } else if ls[i - 1].len() > 0 {
        names_of_lines(ls, i - 1).push(trim(ls[i - 1]))
    } else {
        names_of_lines(ls, i - 1)
    }
}

/// Printer names of an accepting-requests listing: the first word of each
/// line that has one.
pub open spec fn first_words_of_lines(ls: Seq<Seq<char>>, i: int) -> Seq<Seq<char>>
    decreases i,
{
    if i <= 0 || i > ls.len() {
        seq![]
    } else if words(ls[i - 1]).len() > 0 {
        first_words_of_lines(ls, i - 1).push(words(ls[i - 1])[0])
    } else {
        first_words_of_lines(ls, i - 1)
    }
}

/// Reads a names-only printer listing.
pub fn printer_names(listing: &str) -> (r: Vec<String>)
    ensures
        views_of(r@) == names_of_lines(lines(listing@), lines(listing@).len() as int),
{
    let ls = lines_of(listing);
    let mut out: Vec<String> = Vec::new();
    let mut i: usize = 0;
    while i < ls.len()
        invariant
            views_of(ls@) == lines(listing@),
            i <= ls@.len(),
            views_of(out@) == names_of_lines(lines(listing@), i as int),
        decreases ls@.len() - i,
    {
        assert(views_of(ls@)[i as int] == ls@[i as int]@);
        if ls[i].as_str().unicode_len() > 0 {
            let t = trimmed(ls[i].as_str());
            out.push(t);
            assert(views_of(out@) =~= views_of(out@.drop_last()).push(t@));
        }
        i = i + 1;
    }
    out
}

/// Reads an accepting-requests printer listing.
pub fn accepting_printer_names(listing: &str) -> (r: Vec<String>)
    ensures
        views_of(r@) == first_words_of_lines(lines(listing@), lines(listing@).len() as int),
{
    let ls = lines_of(listing);
    let mut out: Vec<String> = Vec::new();
    let mut i: usize = 0;
    while i < ls.len()
        invariant
            views_of(ls@) == lines(listing@),
            i <= ls@.len(),
            views_of(out@) == first_words_of_lines(lines(listing@), i as int),
        decreases ls@.len() - i,
    {
        assert(views_of(ls@)[i as int] == ls@[i as int]@);
        let ws = words_of(ls[i].as_str());
        if ws.len() > 0 {
            assert(views_of(ws@)[0] == ws@[0]@);
            let w = ws[0].clone();
            out.push(w);
            assert(views_of(out@) =~= views_of(out@.drop_last()).push(w@));
        }
        i = i + 1;
    }
    out
}

/// The printer list from the names-only listing (`primary`), falling back
/// to the accepting-requests listing when the first reports failure.
/// `None` asks for the fallback listing, which has not been given.
pub fn printer_list_result(primary: &Result<ToolRun, String>, fallback: &Option<Result<ToolRun, String>>) -> (r: Option<Result<Vec<String>, String>>)
    ensures
        match primary {
            Err(e) => r matches Some(Err(m)) && m@ == "Error executing lpstat: "@ + e@,
            Ok(p) => if p.success {
                r matches Some(Ok(v)) && views_of(v@) == names_of_lines(
                    lines(p.stdout@),
                    lines(p.stdout@).len() as int,
                )
            } else {
                match fallback {
                    None => r is None,
                    Some(Err(e)) => r matches Some(Err(m)) && m@ == "Error executing lpstat: "@ + e@,
                    Some(Ok(f)) => if f.success {
                        r matches Some(Ok(v)) && views_of(v@) == first_words_of_lines(
                            lines(f.stdout@),
                            lines(f.stdout@).len() as int,
                        )
                    } else {
                        r matches Some(Err(m)) && m@ == "Error getting printer list"@
                    },
                }
            },
        },
{
    match primary {
        Err(e) => {
            let mut m = String::from_str("Error executing lpstat: ");
            m.append(e.as_str());
            Some(Err(m))
        },
        Ok(p) => {
            if p.success {
                return Some(Ok(printer_names(p.stdout.as_str())));
            }
            match fallback {
                None => None,
                Some(Err(e)) => {
                    let mut m = String::from_str("Error executing lpstat: ");
                    m.append(e.as_str());
                    Some(Err(m))
                },
                Some(Ok(f)) => {
                    if f.success {
                        Some(Ok(accepting_printer_names(f.stdout.as_str())))
                    } else {
                        Some(Err(String::from_str("Error getting printer list")))
                    }
                },
            }
        },
    }
}

/// The result of cancelling all jobs.
pub fn cancel_result(run: &Result<ToolRun, String>) -> (r: Result<(), String>)
    ensures
        match run {
            Err(e) => r matches Err(m) && m@ == "Error executing cancel: "@ + e@,
            Ok(t) => if t.success {
                r is Ok
            } else {
                r matches Err(m) && m@ == "Error cancelling jobs: "@ + t.stderr@
            },
        },
{
    match run {
        Err(e) => {
            let mut m = String::from_str("Error executing cancel: ");
            m.append(e.as_str());
            Err(m)
        },
        Ok(t) => {
            if t.success {
                Ok(())
            } else {
                let mut m = String::from_str("Error cancelling jobs: ");
                m.append(t.stderr.as_str());
                Err(m)
            }
        },
    }
}

} // verus!
