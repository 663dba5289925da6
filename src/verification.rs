//! Confirms that a submitted job became observable, either in the spooler's
//! job listings or as an output file in a virtual printer's spool directory.
//! Each strategy is a state machine: the caller performs the step it asks
//! for (run a listing, list the directory, sleep) and reports back.

use vstd::prelude::*;
use crate::text::{
    contains_seq, decimal, decimal_string, eq_ignore_ascii_case, eq_ignore_ascii_case_spec,
    str_contains,
};

verus! {

/// Interval between two polls.
pub const POLL_INTERVAL_MS: u64 = 250;
/// Bound for finding a job in the spooler's listings.
pub const QUEUE_TIMEOUT_MS: u64 = 3000;
/// Bound for finding a virtual printer's output file.
pub const SPOOL_TIMEOUT_MS: u64 = 8000;

/// How a verification ended.
#[derive(PartialEq, Eq, Structural, Clone, Copy, Debug)]
pub enum VerificationOutcome {
    Observed,
    TimedOut { elapsed_ms: u64, bound_ms: u64 },
}

/// Which spooler listing to run.
#[derive(PartialEq, Eq, Structural, Clone, Copy, Debug)]
pub enum SpoolerQuery {
    PendingJobs,
    CompletedJobs,
}

/// What the caller has to do next.
#[derive(PartialEq, Eq, Structural, Clone, Copy, Debug)]
pub enum WatchStep {
    Query(SpoolerQuery),
    ListSpool,
    Sleep(u64),
    Finish(VerificationOutcome),
}

/// Where a queue verification stands.
#[derive(PartialEq, Eq, Structural, Clone, Copy, Debug)]
pub enum QueuePhase {
    AwaitPending,
    AwaitCompleted,
    Sleeping,
    Done(VerificationOutcome),
}

/// The correlation key `<printer>-<job_id>` of a job, when the id is known.
pub open spec fn job_key_spec(printer: Seq<char>, job_id: int) -> Option<Seq<char>> {
    if job_id <= 0 {
        None
    } else {
        Some(printer + "-"@ + decimal(job_id as nat))
    }
}

pub open spec fn opt_str_view(o: Option<&str>) -> Option<Seq<char>> {
    match o {
        Some(s) => Some(s@),
        None => None,
    }
}

pub open spec fn opt_string_view(o: Option<String>) -> Option<Seq<char>> {
    match o {
        Some(s) => Some(s@),
        None => None,
    }
}

/// A listing shows the job when the key occurs in it; a job without a key
/// cannot be looked for and counts as shown.
pub open spec fn listing_shows(key: Option<Seq<char>>, listing: Seq<char>) -> bool {
    match key {
        Some(k) => contains_seq(listing, k),
        None => true,
    }
}

/// The correlation key of a job, or `None` when the id is not positive.
pub fn cups_job_key(printer_name: &str, job_id: i32) -> (r: Option<String>)
    ensures
        opt_string_view(r) == job_key_spec(printer_name@, job_id as int),
{
    if job_id <= 0 {
        return None;
    }
    let mut k = String::from_str(printer_name);
    k.append("-");
    let d = decimal_string(job_id as u64);
    k.append(d.as_str());
    Some(k)
}

/// Whether a spooler listing shows the job.
pub fn job_seen_in_listing(key: &Option<String>, listing: &str) -> (r: bool)
    ensures
        r == listing_shows(opt_string_view(*key), listing@),
{
    match key {
        Some(k) => str_contains(listing, k.as_str()),
        None => true,
    }
}

/// Polls the spooler's pending and completed listings for a job.
pub struct QueueWatch {
    pub key: Option<String>,
    pub timeout_ms: u64,
    pub waited_ms: u64,
    pub seen_pending: bool,
    pub phase: QueuePhase,
}

pub struct QueueWatchView {
    pub key: Option<Seq<char>>,
    pub timeout_ms: u64,
    pub waited_ms: u64,
    pub seen_pending: bool,
    pub phase: QueuePhase,
}

impl View for QueueWatch {
    type V = QueueWatchView;

    open spec fn view(&self) -> QueueWatchView {
        QueueWatchView {
            key: opt_string_view(self.key),
            timeout_ms: self.timeout_ms,
            waited_ms: self.waited_ms,
            seen_pending: self.seen_pending,
            phase: self.phase,
        }
    }
}

/// The step a phase asks for.
pub open spec fn queue_phase_step(p: QueuePhase) -> WatchStep {
    match p {
        QueuePhase::AwaitPending => WatchStep::Query(SpoolerQuery::PendingJobs),
        QueuePhase::AwaitCompleted => WatchStep::Query(SpoolerQuery::CompletedJobs),
        QueuePhase::Sleeping => WatchStep::Sleep(POLL_INTERVAL_MS),
        QueuePhase::Done(o) => WatchStep::Finish(o),
    }
}

/// Phase at the start of a verification.
pub open spec fn queue_start_phase(key: Option<Seq<char>>, timeout_ms: u64) -> QueuePhase {
    if key is None {
        QueuePhase::Done(VerificationOutcome::Observed)
    } else if 0 < timeout_ms {
        QueuePhase::AwaitPending
    } else {
        QueuePhase::Done(VerificationOutcome::TimedOut { elapsed_ms: 0, bound_ms: timeout_ms })
    }
}

/// Next state after a listing ran (`Some(output)`) or could not be run
/// (`None`). A listing that cannot be run ends the verification as observed.
pub open spec fn queue_after_listing(s: QueueWatchView, listing: Option<Seq<char>>) -> QueueWatchView {
    match s.phase {
        QueuePhase::AwaitPending => match listing {
            None => QueueWatchView { phase: QueuePhase::Done(VerificationOutcome::Observed), ..s },
            Some(l) => QueueWatchView {
                seen_pending: listing_shows(s.key, l),
                phase: QueuePhase::AwaitCompleted,
                ..s
            },
        },
        QueuePhase::AwaitCompleted => match listing {
            None => QueueWatchView { phase: QueuePhase::Done(VerificationOutcome::Observed), ..s },
            Some(l) => if s.seen_pending || listing_shows(s.key, l) {
                QueueWatchView { phase: QueuePhase::Done(VerificationOutcome::Observed), ..s }
            } else {
                QueueWatchView { phase: QueuePhase::Sleeping, ..s }
            },
        },
        _ => s,
    }
}

pub open spec fn waited_after_sleep(waited_ms: u64) -> u64 {
    if waited_ms > u64::MAX - POLL_INTERVAL_MS {
        u64::MAX
    } else {
        (waited_ms + POLL_INTERVAL_MS) as u64
    }
}

/// Next state after the requested sleep.
pub open spec fn queue_after_sleep(s: QueueWatchView) -> QueueWatchView {
    match s.phase {
        QueuePhase::Sleeping => {
            let w = waited_after_sleep(s.waited_ms);
            if w < s.timeout_ms {
                QueueWatchView { waited_ms: w, phase: QueuePhase::AwaitPending, ..s }
            } else {
                QueueWatchView {
                    waited_ms: w,
                    phase: QueuePhase::Done(
                        VerificationOutcome::TimedOut { elapsed_ms: w, bound_ms: s.timeout_ms },
                    ),
                    ..s
                }
            }
        },
        _ => s,
    }
}

impl QueueWatch {
    /// Starts verifying job `job_id` on `printer_name`. A job whose id is not
    /// positive cannot be correlated and is observed at once, with no poll.
    pub fn start(printer_name: &str, job_id: i32, timeout_ms: u64) -> (r: (QueueWatch, WatchStep))
        ensures
            r.0@.key == job_key_spec(printer_name@, job_id as int),
            r.0@.timeout_ms == timeout_ms,
            r.0@.waited_ms == 0,
            !r.0@.seen_pending,
            r.0@.phase == queue_start_phase(r.0@.key, timeout_ms),
            r.1 == queue_phase_step(r.0@.phase),
    {
        let key = cups_job_key(printer_name, job_id);
        let phase = match &key {
            None => QueuePhase::Done(VerificationOutcome::Observed),
            Some(_) => if 0 < timeout_ms {
                QueuePhase::AwaitPending
            } else {
                QueuePhase::Done(VerificationOutcome::TimedOut { elapsed_ms: 0, bound_ms: timeout_ms })
            },
        };
        let w = QueueWatch { key, timeout_ms, waited_ms: 0, seen_pending: false, phase };
        (w, Self::step_of(phase))
    }

    fn step_of(p: QueuePhase) -> (r: WatchStep)
        ensures
            r == queue_phase_step(p),
    {
        match p {
            QueuePhase::AwaitPending => WatchStep::Query(SpoolerQuery::PendingJobs),
            QueuePhase::AwaitCompleted => WatchStep::Query(SpoolerQuery::CompletedJobs),
            QueuePhase::Sleeping => WatchStep::Sleep(POLL_INTERVAL_MS),
            QueuePhase::Done(o) => WatchStep::Finish(o),
        }
    }

    /// The step the current phase asks for.
    pub fn current_step(&self) -> (r: WatchStep)
        ensures
            r == queue_phase_step(self@.phase),
    {
        Self::step_of(self.phase)
    }

    /// Reports the output of the requested listing, or `None` when it could
    /// not be run.
    pub fn on_listing(&mut self, listing: Option<&str>) -> (r: WatchStep)
        ensures
            final(self)@ == queue_after_listing(old(self)@, opt_str_view(listing)),
            r == queue_phase_step(final(self)@.phase),
    {
        match self.phase {
            QueuePhase::AwaitPending => match listing {
                None => {
                    self.phase = QueuePhase::Done(VerificationOutcome::Observed);
                },
                Some(l) => {
                    self.seen_pending = job_seen_in_listing(&self.key, l);
                    self.phase = QueuePhase::AwaitCompleted;
                },
            },
            QueuePhase::AwaitCompleted => match listing {
                None => {
                    self.phase = QueuePhase::Done(VerificationOutcome::Observed);
                },
                Some(l) => {
                    let seen = self.seen_pending || job_seen_in_listing(&self.key, l);
                    if seen {
                        self.phase = QueuePhase::Done(VerificationOutcome::Observed);
                    } else {
                        self.phase = QueuePhase::Sleeping;
                    }
                },
            },
            _ => {},
        }
        Self::step_of(self.phase)
    }

    /// Reports that the requested sleep is over.
    pub fn on_slept(&mut self) -> (r: WatchStep)
        ensures
            final(self)@ == queue_after_sleep(old(self)@),
            r == queue_phase_step(final(self)@.phase),
    {
        if let QueuePhase::Sleeping = self.phase {
            let w = if self.waited_ms > u64::MAX - POLL_INTERVAL_MS {
                u64::MAX
            } else {
                self.waited_ms + POLL_INTERVAL_MS
            };
            self.waited_ms = w;
            if w < self.timeout_ms {
                self.phase = QueuePhase::AwaitPending;
            } else {
                self.phase = QueuePhase::Done(
                    VerificationOutcome::TimedOut { elapsed_ms: w, bound_ms: self.timeout_ms },
                );
            }
        }
        Self::step_of(self.phase)
    }
}

/// A job with no positive id is observed at once: the first step finishes
/// the verification, before any listing or sleep.
pub proof fn lemma_unknown_job_observed_at_once(printer: Seq<char>, job_id: int, timeout_ms: u64)
    requires
        job_id <= 0,
    ensures
        queue_phase_step(queue_start_phase(job_key_spec(printer, job_id), timeout_ms))
            == WatchStep::Finish(VerificationOutcome::Observed),
{
}

/// When the pending listing of the first poll shows `<printer>-<job_id>`,
/// the verification ends observed after that poll, with nothing waited,
/// whatever the completed listing holds.
pub proof fn lemma_listed_job_observed(
    printer: Seq<char>,
    job_id: int,
    timeout_ms: u64,
    pending: Seq<char>,
    completed: Option<Seq<char>>,
)
    requires
        job_id > 0,
        timeout_ms > 0,
        contains_seq(pending, printer + "-"@ + decimal(job_id as nat)),
    ensures
        ({
            let s0 = QueueWatchView {
                key: job_key_spec(printer, job_id),
                timeout_ms,
                waited_ms: 0,
                seen_pending: false,
                phase: queue_start_phase(job_key_spec(printer, job_id), timeout_ms),
            };
            let s1 = queue_after_listing(s0, Some(pending));
            let s2 = queue_after_listing(s1, completed);
            &&& queue_phase_step(s0.phase) == WatchStep::Query(SpoolerQuery::PendingJobs)
            &&& queue_phase_step(s1.phase) == WatchStep::Query(SpoolerQuery::CompletedJobs)
            &&& s2.phase == QueuePhase::Done(VerificationOutcome::Observed)
            &&& s2.waited_ms == 0
        }),
{
}

/// Digits of a millisecond remainder (1..=999) as a decimal fraction of a
/// second, without trailing zeros.
pub open spec fn millis_fraction(rem: nat) -> Seq<char> {
    if rem % 100 == 0 {
        decimal(rem / 100)
    } else if rem % 10 == 0 {
        decimal(rem / 100) + decimal((rem / 10) % 10)
    } else {
        decimal(rem / 100) + decimal((rem / 10) % 10) + decimal(rem % 10)
    }
}

/// A bound written as `Duration`'s debug form writes it: seconds with the
/// fraction that is not zero (`8s`, `1.5s`), milliseconds below a second
/// (`250ms`), and `0ns` for nothing.
pub open spec fn bound_text(ms: u64) -> Seq<char> {
    if ms >= 1000 {
        decimal((ms / 1000) as nat) + (if ms % 1000 == 0 {
            seq![]
        } else {
            "."@ + millis_fraction((ms % 1000) as nat)
        }) + "s"@
    } else if ms > 0 {
        decimal(ms as nat) + "ms"@
    } else {
        "0ns"@
    }
}

fn millis_fraction_string(rem: u64) -> (r: String)
    requires
        0 < rem < 1000,
    ensures
        r@ == millis_fraction(rem as nat),
{
    let mut s = decimal_string(rem / 100);
    if rem % 100 != 0 {
        let d = decimal_string((rem / 10) % 10);
        s.append(d.as_str());
        if rem % 10 != 0 {
            let e = decimal_string(rem % 10);
            s.append(e.as_str());
        }
    }
    s
}

pub fn bound_string(ms: u64) -> (r: String)
    ensures
        r@ == bound_text(ms),
{
    if ms >= 1000 {
        let mut s = decimal_string(ms / 1000);
        if ms % 1000 != 0 {
            s.append(".");
            let f = millis_fraction_string(ms % 1000);
            s.append(f.as_str());
        }
        proof {
            reveal_strlit("");
        }
        s.append("s");
        assert(s@ =~= bound_text(ms));
        s
    } else if ms > 0 {
        let mut s = decimal_string(ms);
        s.append("ms");
        s
    } else {
        String::from_str("0ns")
    }
}

pub open spec fn queue_timeout_text(key: Seq<char>, bound_ms: u64) -> Seq<char> {
    "Print job "@ + key + " was submitted but not observed in CUPS queue/completed within "@
        + bound_text(bound_ms)
}

/// Message for a job that never showed up in the spooler's listings.
pub fn queue_timeout_message(key: &str, bound_ms: u64) -> (r: String)
    ensures
        r@ == queue_timeout_text(key@, bound_ms),
{
    let mut s = String::from_str("Print job ");
    s.append(key);
    s.append(" was submitted but not observed in CUPS queue/completed within ");
    let b = bound_string(bound_ms);
    s.append(b.as_str());
    s
}

pub open spec fn spool_timeout_text(bound_ms: u64) -> Seq<char> {
    "PDFwriter accepted the job, but no output PDF was detected in spool within "@ + bound_text(bound_ms)
}

/// Message for a virtual printer whose output never appeared.
pub fn spool_timeout_message(bound_ms: u64) -> (r: String)
    ensures
        r@ == spool_timeout_text(bound_ms),
{
    let mut s = String::from_str(
        "PDFwriter accepted the job, but no output PDF was detected in spool within ",
    );
    let b = bound_string(bound_ms);
    s.append(b.as_str());
    s
}

} // verus!

verus! {

/// A file found in a virtual printer's spool directory.
pub struct SpoolFile {
    pub path: String,
    /// File name extension, when the name has one.
    pub extension: Option<String>,
    /// Modification time, nanoseconds since the Unix epoch.
    pub modified_ns: i128,
}

/// The file is a PDF (extension `pdf` in any ASCII case) modified no earlier
/// than `since`, when a reference time is given.
pub open spec fn spool_candidate(f: SpoolFile, since: Option<i128>) -> bool {
    &&& f.extension is Some
    &&& eq_ignore_ascii_case_spec(f.extension.unwrap()@, "pdf"@)
    &&& match since {
        Some(t) => f.modified_ns >= t,
        None => true,
    }
}

/// `i` is the first among the most recently modified candidates.
pub open spec fn newest_at(files: Seq<SpoolFile>, since: Option<i128>, i: int) -> bool {
    &&& 0 <= i < files.len()
    &&& spool_candidate(files[i], since)
    &&& forall|j: int|
        0 <= j < files.len() && spool_candidate(files[j], since) ==> files[j].modified_ns
            <= files[i].modified_ns
    &&& forall|j: int|
        0 <= j < i && spool_candidate(files[j], since) ==> files[j].modified_ns < files[i].modified_ns
}

pub open spec fn has_candidate(files: Seq<SpoolFile>, since: Option<i128>) -> bool {
    exists|j: int| 0 <= j < files.len() && spool_candidate(files[j], since)
}

/// The newest candidate for the job's output: `None` when there is none,
/// otherwise its index (the first one, when several share the newest time).
pub open spec fn newest_ok(files: Seq<SpoolFile>, since: Option<i128>, r: Option<usize>) -> bool {
    match r {
        None => !has_candidate(files, since),
        Some(i) => newest_at(files, since, i as int),
    }
}

fn is_spool_candidate(f: &SpoolFile, since: Option<i128>) -> (r: bool)
    ensures
        r == spool_candidate(*f, since),
{
    proof {
        reveal_strlit("pdf");
    }
    let is_pdf = match &f.extension {
        Some(e) => eq_ignore_ascii_case(e.as_str(), "pdf"),
        None => false,
    };
    if !is_pdf {
        return false;
    }
    match since {
        Some(t) => f.modified_ns >= t,
        None => true,
    }
}

/// Index of the most recently modified PDF in `files`, counting only those
/// modified at or after `since` when it is given.
pub fn newest_spool_output(files: &Vec<SpoolFile>, since: Option<i128>) -> (r: Option<usize>)
    ensures
        newest_ok(files@, since, r),
{
    let mut best: Option<usize> = None;
    let mut i: usize = 0;
    while i < files.len()
        invariant
            i <= files@.len(),
            match best {
                None => forall|j: int| 0 <= j < i ==> !spool_candidate(files@[j], since),
                Some(b) => {
                    &&& b < i
                    &&& spool_candidate(files@[b as int], since)
                    &&& forall|j: int|
                        0 <= j < i && spool_candidate(files@[j], since) ==> files@[j].modified_ns
                            <= files@[b as int].modified_ns
                    &&& forall|j: int|
                        0 <= j < b && spool_candidate(files@[j], since) ==> files@[j].modified_ns
                            < files@[b as int].modified_ns
                },
            },
        decreases files@.len() - i,
    {
        if is_spool_candidate(&files[i], since) {
            match best {
                None => {
                    best = Some(i);
                },
                Some(b) => {
                    if files[i].modified_ns > files[b].modified_ns {
                        best = Some(i);
                    }
                },
            }
        }
        i = i + 1;
    }
    best
}

/// Path of the most recently modified PDF in the spool directory.
pub fn try_find_latest_pdfwriter_output(files: &Vec<SpoolFile>) -> (r: Option<String>)
    ensures
        match newest_spool_output_spec(files@, None) {
            None => r is None,
            Some(i) => r is Some && r.unwrap()@ == files@[i].path@,
        },
{
    match newest_spool_output(files, None) {
        None => None,
        Some(i) => Some(files[i].path.clone()),
    }
}

/// Path of the most recently modified PDF modified at or after `since`.
pub fn try_find_latest_pdfwriter_output_since(files: &Vec<SpoolFile>, since: i128) -> (r: Option<String>)
    ensures
        match newest_spool_output_spec(files@, Some(since)) {
            None => r is None,
            Some(i) => r is Some && r.unwrap()@ == files@[i].path@,
        },
{
    match newest_spool_output(files, Some(since)) {
        None => None,
        Some(i) => Some(files[i].path.clone()),
    }
}

/// The unique index that `newest_ok` admits.
pub open spec fn newest_spool_output_spec(files: Seq<SpoolFile>, since: Option<i128>) -> Option<int> {
    if has_candidate(files, since) {
        Some(choose|i: int| newest_at(files, since, i))
    } else {
        None
    }
}

} // verus!

verus! {

/// The output file a spool listing points to: the newest PDF modified at or
/// after `since`, or else the newest PDF of any age.
pub open spec fn spool_pick(files: Seq<SpoolFile>, since: i128) -> Option<int> {
    if has_candidate(files, Some(since)) {
        newest_spool_output_spec(files, Some(since))
    } else {
        newest_spool_output_spec(files, None)
    }
}

/// Index of the spool file that shows the job's output, if any.
pub fn select_spool_output(files: &Vec<SpoolFile>, since: i128) -> (r: Option<usize>)
    ensures
        match spool_pick(files@, since) {
            None => r is None,
            Some(i) => r is Some && r.unwrap() as int == i,
        },
        r matches Some(i) ==> i < files@.len(),
{
    match newest_spool_output(files, Some(since)) {
        Some(i) => Some(i),
        None => newest_spool_output(files, None),
    }
}

/// When every file is a PDF and there is at least one, the file picked is
/// the one modified last: with distinct times, the single latest one.
pub proof fn lemma_spool_pick_is_latest(files: Seq<SpoolFile>, since: i128)
    requires
        files.len() > 0,
        forall|j: int| 0 <= j < files.len() ==> spool_candidate(#[trigger] files[j], None),
    ensures
        spool_pick(files, since) is Some,
        forall|j: int|
            0 <= j < files.len() ==> (#[trigger] files[j]).modified_ns <= files[spool_pick(
                files,
                since,
            ).unwrap()].modified_ns,
{
    assert(spool_candidate(files[0], None));
    assert(has_candidate(files, None));
    let i0 = choose|i: int| newest_at(files, None, i);
    if has_candidate(files, Some(since)) {
        let i = choose|i: int| newest_at(files, Some(since), i);
        assert(newest_at(files, Some(since), i)) by {
            let k = choose|k: int| 0 <= k < files.len() && spool_candidate(files[k], Some(since));
            newest_exists(files, Some(since), k);
        }
        assert forall|j: int| 0 <= j < files.len() implies files[j].modified_ns <= files[i].modified_ns by {
            if files[j].modified_ns > files[i].modified_ns {
                assert(spool_candidate(files[j], None));
                assert(spool_candidate(files[j], Some(since)));
            }
        }
    } else {
        newest_exists(files, None, 0);
    }
}

/// Whenever some file qualifies, a newest one exists.
pub proof fn newest_exists(files: Seq<SpoolFile>, since: Option<i128>, k: int)
    requires
        0 <= k < files.len(),
        spool_candidate(files[k], since),
    ensures
        exists|i: int| newest_at(files, since, i),
    decreases files.len(),
{
    let prefix = files.drop_last();
    let last = files.len() - 1;
    if k == last && !has_candidate(prefix, since) {
        assert forall|j: int| 0 <= j < last implies !spool_candidate(files[j], since) by {
            assert(prefix[j] == files[j]);
        }
        assert(newest_at(files, since, last));
    } else {
        let k2 = if k < last {
            k
        } else {
            choose|j: int| 0 <= j < prefix.len() && spool_candidate(prefix[j], since)
        };
        assert(prefix[k2] == files[k2]);
        newest_exists(prefix, since, k2);
        let i = choose|i: int| newest_at(prefix, since, i);
        assert(prefix[i] == files[i]);
        if spool_candidate(files[last], since) && files[last].modified_ns > files[i].modified_ns {
            assert forall|j: int|
                0 <= j < files.len() && spool_candidate(files[j], since) implies files[j].modified_ns
                <= files[last].modified_ns by {
                if j < last {
                    assert(prefix[j] == files[j]);
                }
            }
            assert forall|j: int|
                0 <= j < last && spool_candidate(files[j], since) implies files[j].modified_ns
                < files[last].modified_ns by {
                assert(prefix[j] == files[j]);
            }
            assert(newest_at(files, since, last));
        } else {
            assert forall|j: int|
                0 <= j < files.len() && spool_candidate(files[j], since) implies files[j].modified_ns
                <= files[i].modified_ns by {
                if j < last {
                    assert(prefix[j] == files[j]);
                }
            }
            assert forall|j: int|
                0 <= j < i && spool_candidate(files[j], since) implies files[j].modified_ns
                < files[i].modified_ns by {
                assert(prefix[j] == files[j]);
            }
            assert(newest_at(files, since, i));
        }
    }
}

/// Where a spool-directory verification stands.
#[derive(PartialEq, Eq, Structural, Clone, Copy, Debug)]
pub enum SpoolPhase {
    AwaitListing,
    Sleeping,
    Done(VerificationOutcome),
}

/// Polls a virtual printer's spool directory for the job's output file.
pub struct SpoolWatch {
    /// Time taken just before the job was submitted.
    pub since_ns: i128,
    pub timeout_ms: u64,
    pub waited_ms: u64,
    /// The file that showed the output; kept for diagnostics only.
    pub found: Option<String>,
    pub phase: SpoolPhase,
}

pub open spec fn spool_phase_step(p: SpoolPhase) -> WatchStep {
    match p {
        SpoolPhase::AwaitListing => WatchStep::ListSpool,
        SpoolPhase::Sleeping => WatchStep::Sleep(POLL_INTERVAL_MS),
        SpoolPhase::Done(o) => WatchStep::Finish(o),
    }
}

impl SpoolWatch {
    fn step_of(p: SpoolPhase) -> (r: WatchStep)
        ensures
            r == spool_phase_step(p),
    {
        match p {
            SpoolPhase::AwaitListing => WatchStep::ListSpool,
            SpoolPhase::Sleeping => WatchStep::Sleep(POLL_INTERVAL_MS),
            SpoolPhase::Done(o) => WatchStep::Finish(o),
        }
    }

    /// Starts watching for output of a job submitted at `since_ns`.
    pub fn start(since_ns: i128, timeout_ms: u64) -> (r: (SpoolWatch, WatchStep))
        ensures
            r.0.since_ns == since_ns,
            r.0.timeout_ms == timeout_ms,
            r.0.waited_ms == 0,
            r.0.found is None,
            r.0.phase == (if 0 < timeout_ms {
                SpoolPhase::AwaitListing
            } else {
                SpoolPhase::Done(VerificationOutcome::TimedOut { elapsed_ms: 0, bound_ms: timeout_ms })
            }),
            r.1 == spool_phase_step(r.0.phase),
    {
        let phase = if 0 < timeout_ms {
            SpoolPhase::AwaitListing
        } else {
            SpoolPhase::Done(VerificationOutcome::TimedOut { elapsed_ms: 0, bound_ms: timeout_ms })
        };
        (SpoolWatch { since_ns, timeout_ms, waited_ms: 0, found: None, phase }, Self::step_of(phase))
    }

    /// The step the current phase asks for.
    pub fn current_step(&self) -> (r: WatchStep)
        ensures
            r == spool_phase_step(self.phase),
    {
        Self::step_of(self.phase)
    }

    /// Reports the files of the spool directory (empty when it cannot be
    /// read). Any pick ends the verification as observed.
    pub fn on_listing(&mut self, files: &Vec<SpoolFile>) -> (r: WatchStep)
        ensures
            final(self).since_ns == old(self).since_ns,
            final(self).timeout_ms == old(self).timeout_ms,
            final(self).waited_ms == old(self).waited_ms,
            old(self).phase == SpoolPhase::AwaitListing ==> match spool_pick(files@, old(self).since_ns) {
                None => final(self).phase == SpoolPhase::Sleeping && final(self).found == old(self).found,
                Some(i) => final(self).phase == SpoolPhase::Done(VerificationOutcome::Observed)
                    && final(self).found is Some && final(self).found.unwrap()@ == files@[i].path@,
            },
            old(self).phase != SpoolPhase::AwaitListing ==> final(self).phase == old(self).phase
                && final(self).found == old(self).found,
            r == spool_phase_step(final(self).phase),
    {
        if let SpoolPhase::AwaitListing = self.phase {
            match select_spool_output(files, self.since_ns) {
                Some(i) => {
                    self.found = Some(files[i].path.clone());
                    self.phase = SpoolPhase::Done(VerificationOutcome::Observed);
                },
                None => {
                    self.phase = SpoolPhase::Sleeping;
                },
            }
        }
        Self::step_of(self.phase)
    }

    /// Reports that the requested sleep is over.
    pub fn on_slept(&mut self) -> (r: WatchStep)
        ensures
            final(self).since_ns == old(self).since_ns,
            final(self).timeout_ms == old(self).timeout_ms,
            final(self).found == old(self).found,
            old(self).phase == SpoolPhase::Sleeping ==> {
                let w = waited_after_sleep(old(self).waited_ms);
                &&& final(self).waited_ms == w
                &&& final(self).phase == if w < old(self).timeout_ms {
                    SpoolPhase::AwaitListing
                } else {
                    SpoolPhase::Done(
                        VerificationOutcome::TimedOut { elapsed_ms: w, bound_ms: old(self).timeout_ms },
                    )
                }
            },
            old(self).phase != SpoolPhase::Sleeping ==> final(self).phase == old(self).phase
                && final(self).waited_ms == old(self).waited_ms,
            r == spool_phase_step(final(self).phase),
    {
        if let SpoolPhase::Sleeping = self.phase {
            let w = if self.waited_ms > u64::MAX - POLL_INTERVAL_MS {
                u64::MAX
            } else {
                self.waited_ms + POLL_INTERVAL_MS
            };
            self.waited_ms = w;
            if w < self.timeout_ms {
                self.phase = SpoolPhase::AwaitListing;
            } else {
                self.phase = SpoolPhase::Done(
                    VerificationOutcome::TimedOut { elapsed_ms: w, bound_ms: self.timeout_ms },
                );
            }
        }
        Self::step_of(self.phase)
    }
}

} // verus!
