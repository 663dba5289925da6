//! Application state shared by the print operations: the signed-in
//! session, the product licences, the bounded activity log and the count of
//! prints made.

use vstd::prelude::*;
use std::collections::VecDeque;
use chrono::{Datelike, Timelike};
use crate::text::str_equals;

verus! {

/// A product licence.
pub struct LicenciaProducto {
    pub _id: String,
    pub tipo_producto: String,
    pub maximo_conexiones: i32,
    /// Expiry, written `DD/MM/YYYY HH:MM:SS` in local time.
    pub fecha_vencimiento: String,
    pub delegado: bool,
    pub configuracion: Option<String>,
    pub state: String,
}

/// The signed-in session.
pub struct AuthState {
    pub token: Option<String>,
    pub refresh_token: Option<String>,
    pub email: Option<String>,
    pub is_logged_in: bool,
}

/// One line of the activity log.
pub struct LogEntry {
    pub timestamp: String,
    pub level: String,
    pub message: String,
}

/// A session as it is kept between runs.
pub struct SavedSession {
    pub auth: AuthState,
    pub licencias: Vec<LicenciaProducto>,
}

/// State shared by the print operations.
pub struct AppState {
    pub auth: AuthState,
    pub licencias: Vec<LicenciaProducto>,
    pub logs: VecDeque<LogEntry>,
    pub print_count: i32,
}

/// Number of log entries kept.
pub const MAX_LOGS: usize = 100;

/// A local date and time, as plain fields.
#[derive(PartialEq, Eq, Structural, Clone, Copy, Debug)]
pub struct CivilTime {
    pub year: i32,
    pub month: u32,
    pub day: u32,
    pub hour: u32,
    pub minute: u32,
    pub second: u32,
    /// Nanoseconds; 1_000_000_000 and above mark a leap second.
    pub nanosecond: u32,
}

pub open spec fn civil_tuple(t: CivilTime) -> (int, int, int, int, int, int, int) {
    (
        t.year as int,
        t.month as int,
        t.day as int,
        t.hour as int,
        t.minute as int,
        t.second as int,
        t.nanosecond as int,
    )
}

/// `a` comes strictly after `b`.
pub open spec fn later(a: (int, int, int, int, int, int, int), b: (int, int, int, int, int, int, int)) -> bool {
    if a.0 != b.0 {
        a.0 > b.0
    } else if a.1 != b.1 {
        a.1 > b.1
    } else if a.2 != b.2 {
        a.2 > b.2
    } else if a.3 != b.3 {
        a.3 > b.3
    } else if a.4 != b.4 {
        a.4 > b.4
    } else if a.5 != b.5 {
        a.5 > b.5
    } else {
        a.6 > b.6
    }
}

/// Whether `a` comes strictly after `b`.
pub fn is_later(a: &CivilTime, b: &CivilTime) -> (r: bool)
    ensures
        r == later(civil_tuple(*a), civil_tuple(*b)),
{
    if a.year != b.year {
        a.year > b.year
    } else if a.month != b.month {
        a.month > b.month
    } else if a.day != b.day {
        a.day > b.day
    } else if a.hour != b.hour {
        a.hour > b.hour
    } else if a.minute != b.minute {
        a.minute > b.minute
    } else if a.second != b.second {
        a.second > b.second
    } else {
        a.nanosecond > b.nanosecond
    }
}

/// What chrono reads from an expiry written `%d/%m/%Y %H:%M:%S`.
pub uninterp spec fn expiry_of(s: Seq<char>) -> Option<(int, int, int, int, int, int, int)>;

/// Relies on `chrono::NaiveDateTime::parse_from_str` with the format
/// `%d/%m/%Y %H:%M:%S`: the date and time read, which depend on the text
/// alone.
#[verifier::external_body]
fn parse_expiry(s: &str) -> (r: Option<CivilTime>)
    ensures
        match r {
            Some(t) => expiry_of(s@) == Some(civil_tuple(t)),
            None => expiry_of(s@) is None,
        },
{
    match chrono::NaiveDateTime::parse_from_str(s, "%d/%m/%Y %H:%M:%S") {
        Ok(t) => Some(CivilTime { year: t.year(), month: t.month(), day: t.day(), hour: t.hour(),
            minute: t.minute(), second: t.second(), nanosecond: t.nanosecond() }),
        Err(_) => None,
    }
}

/// Relies on `chrono::Local::now`: the current local date and time.
#[verifier::external_body]
fn local_now() -> (r: CivilTime) {
    let t = chrono::Local::now().naive_local();
    CivilTime { year: t.year(), month: t.month(), day: t.day(), hour: t.hour(), minute: t.minute(),
        second: t.second(), nanosecond: t.nanosecond() }
}

/// Relies on `chrono::Local::now` and its `format`: the current local time
/// written `%Y-%m-%d %H:%M:%S`.
#[verifier::external_body]
fn local_timestamp() -> (r: String) {
    chrono::Local::now().format("%Y-%m-%d %H:%M:%S").to_string()
}

/// Index of the first printing licence at or after `i`.
pub open spec fn printing_licence(l: Seq<LicenciaProducto>, i: int) -> Option<int>
    decreases l.len() - i,
{
    if i < 0 || i >= l.len() {
        None
    } else if l[i].tipo_producto@ == "IMPRESION"@ {
        Some(i)
    } else {
        printing_licence(l, i + 1)
    }
}

proof fn lemma_printing_licence_range(l: Seq<LicenciaProducto>, i: int)
    requires
        0 <= i,
    ensures
        printing_licence(l, i) matches Some(j) ==> i <= j < l.len(),
    decreases l.len() - i,
{
    if i < l.len() && l[i].tipo_producto@ != "IMPRESION"@ {
        lemma_printing_licence_range(l, i + 1);
    }
}

/// The log after adding `e`: the oldest entry leaves when the log is full.
pub open spec fn log_after(logs: Seq<LogEntry>, e: LogEntry) -> Seq<LogEntry> {
    if logs.len() >= MAX_LOGS {
        logs.drop_first().push(e)
    } else {
        logs.push(e)
    }
}

impl AuthState {
    /// Nobody signed in.
    pub fn signed_out() -> (r: AuthState)
        ensures
            r.token is None,
            r.refresh_token is None,
            r.email is None,
            !r.is_logged_in,
    {
        AuthState { token: None, refresh_token: None, email: None, is_logged_in: false }
    }
}

impl Default for AuthState {
    fn default() -> (r: AuthState)
        ensures
            r.token is None,
            r.refresh_token is None,
            r.email is None,
            !r.is_logged_in,
    {
        AuthState::signed_out()
    }
}

impl AppState {
    /// A fresh state: signed out, no licences, an empty log, no prints.
    pub fn fresh() -> (r: AppState)
        ensures
            !r.auth.is_logged_in,
            r.auth.token is None,
            r.auth.refresh_token is None,
            r.auth.email is None,
            r.licencias@.len() == 0,
            r.logs@.len() == 0,
            r.print_count == 0,
    {
        AppState { auth: AuthState::signed_out(), licencias: Vec::new(), logs: VecDeque::new(), print_count: 0 }
    }

    /// Index of the first printing licence.
    fn find_printing_licence(&self) -> (r: Option<usize>)
        ensures
            match printing_licence(self.licencias@, 0) {
                Some(i) => r is Some && r.unwrap() as int == i,
                None => r is None,
            },
            r matches Some(i) ==> i < self.licencias@.len(),
    {
        proof {
            lemma_printing_licence_range(self.licencias@, 0);
        }
        let mut i: usize = 0;
        while i < self.licencias.len()
            invariant
                i <= self.licencias@.len(),
                printing_licence(self.licencias@, i as int) == printing_licence(self.licencias@, 0),
            decreases self.licencias@.len() - i,
        {
            if str_equals(self.licencias[i].tipo_producto.as_str(), "IMPRESION") {
                return Some(i);
            }
            i = i + 1;
        }
        None
    }

    /// Whether another print is allowed: there is a printing licence and the
    /// count of prints is under its connection limit.
    pub fn can_print(&self) -> (r: bool)
        ensures
            r == match printing_licence(self.licencias@, 0) {
                Some(i) => self.print_count < self.licencias@[i].maximo_conexiones,
                None => false,
            },
    {
        match self.find_printing_licence() {
            Some(i) => self.print_count < self.licencias[i].maximo_conexiones,
            None => false,
        }
    }

    /// Whether the printing licence is active and expires after `now`. An
    /// expiry that cannot be read counts as expired.
    pub fn is_license_valid_at(&self, now: &CivilTime) -> (r: bool)
        ensures
            r == match printing_licence(self.licencias@, 0) {
                Some(i) => self.licencias@[i].state@ == "ACTIVADO"@ && match expiry_of(
                    self.licencias@[i].fecha_vencimiento@,
                ) {
                    Some(t) => later(t, civil_tuple(*now)),
                    None => false,
                },
                None => false,
            },
    {
        match self.find_printing_licence() {
            Some(i) => {
                let l = &self.licencias[i];
                if !str_equals(l.state.as_str(), "ACTIVADO") {
                    return false;
                }
                match parse_expiry(l.fecha_vencimiento.as_str()) {
                    Some(t) => is_later(&t, now),
                    None => false,
                }
            },
            None => false,
        }
    }

    /// Whether the printing licence is active and not yet expired, by the
    /// local clock.
    pub fn is_license_valid(&self) -> (r: bool)
        ensures
            r ==> match printing_licence(self.licencias@, 0) {
                Some(i) => self.licencias@[i].state@ == "ACTIVADO"@ && expiry_of(
                    self.licencias@[i].fecha_vencimiento@,
                ) is Some,
                None => false,
            },
    {
        let now = local_now();
        self.is_license_valid_at(&now)
    }

    /// Adds a log entry stamped `timestamp`, dropping the oldest when the
    /// log is full.
    pub fn add_log_at(&mut self, timestamp: String, level: &str, message: &str)
        requires
            old(self).logs@.len() <= MAX_LOGS,
        ensures
            final(self).logs@.len() <= MAX_LOGS,
            final(self).logs@.len() >= 1,
            final(self).auth == old(self).auth,
            final(self).licencias == old(self).licencias,
            final(self).print_count == old(self).print_count,
            final(self).logs@ == log_after(old(self).logs@, final(self).logs@.last()),
            final(self).logs@.last().timestamp@ == timestamp@,
            final(self).logs@.last().level@ == level@,
            final(self).logs@.last().message@ == message@,
    {
        let entry = LogEntry {
            timestamp,
            level: String::from_str(level),
            message: String::from_str(message),
        };
        if self.logs.len() >= MAX_LOGS {
            self.logs.pop_front();
        }
        self.logs.push_back(entry);
    }

    /// Adds a log entry stamped with the current local time.
    pub fn add_log(&mut self, level: &str, message: &str)
        requires
            old(self).logs@.len() <= MAX_LOGS,
        ensures
            final(self).logs@.len() <= MAX_LOGS,
            final(self).logs@.len() >= 1,
            final(self).auth == old(self).auth,
            final(self).licencias == old(self).licencias,
            final(self).print_count == old(self).print_count,
            final(self).logs@ == log_after(old(self).logs@, final(self).logs@.last()),
            final(self).logs@.last().level@ == level@,
            final(self).logs@.last().message@ == message@,
    {
        let t = local_timestamp();
        self.add_log_at(t, level, message);
    }
}

impl AppState {
    /// Counts one more print; the count stays at its maximum once there.
    pub fn record_print(&mut self)
        ensures
            final(self).print_count == if old(self).print_count == i32::MAX {
                i32::MAX
            } else {
                (old(self).print_count + 1) as i32
            },
            final(self).auth == old(self).auth,
            final(self).licencias == old(self).licencias,
            final(self).logs == old(self).logs,
    {
        if self.print_count < i32::MAX {
            self.print_count = self.print_count + 1;
        }
    }
}

impl Default for AppState {
    fn default() -> (r: AppState)
        ensures
            !r.auth.is_logged_in,
            r.auth.token is None,
            r.licencias@.len() == 0,
            r.logs@.len() == 0,
            r.print_count == 0,
    {
        AppState::fresh()
    }
}

} // verus!
