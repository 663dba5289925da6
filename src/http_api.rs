//! What the local HTTP interface decides: which origins may call it, which
//! domains a web page may come from, and the shapes of its requests and
//! answers.

use vstd::prelude::*;
use std::collections::VecDeque;
use crate::state::LogEntry;
use crate::text::{
    before_first, before_first_of, contains_seq, decimal, decimal_string, has_prefix, has_suffix,
    lower_of, lowercase, str_contains, str_ends_with, str_equals, str_starts_with,
};

verus! {

/// A raw print request.
pub struct PrintRequest {
    pub printer: Option<String>,
    pub content: Option<String>,
    pub copies: u32,
}

/// A request to print the PDF at a URL.
pub struct PrintPdfRequest {
    pub printer: Option<String>,
    pub url: Option<String>,
    pub copies: u32,
}

/// Outcome of a print request.
pub struct PrintResponse {
    pub success: bool,
    pub message: String,
}

/// The printers available.
pub struct PrintersResponse {
    pub printers: Vec<PrinterInfo>,
}

/// One printer, and whether it is the default one.
pub struct PrinterInfo {
    pub name: String,
    pub is_default: bool,
}

/// Recent print activity.
pub struct PrintJobsResponse {
    pub jobs: Vec<PrintJobInfo>,
}

/// One line of print activity.
pub struct PrintJobInfo {
    pub id: String,
    pub timestamp: String,
    pub status: String,
    pub message: String,
}

/// Copies printed when a request names none.
pub fn default_copies() -> (r: u32)
    ensures
        r == 1,
{
    1
}

/// The host of an origin: after an `https://` or `http://` scheme up to the
/// first `/`, then up to the first `:`.
pub open spec fn origin_host(origin: Seq<char>) -> Seq<char> {
    let h = if has_prefix(origin, "https://"@) {
        before_first(origin.subrange(8, origin.len() as int), '/')
    } else if has_prefix(origin, "http://"@) {
        before_first(origin.subrange(7, origin.len() as int), '/')
    } else {
        origin
    };
    before_first(h, ':')
}

/// `host` is `domain` or one of its subdomains.
pub open spec fn under_domain(host: Seq<char>, domain: Seq<char>) -> bool {
    has_suffix(host, "."@ + domain) || host == domain
}

/// Hosts allowed to call the local interface.
pub open spec fn host_allowed(h: Seq<char>) -> bool {
    ||| h == "localhost"@
    ||| h == "127.0.0.1"@
    ||| under_domain(h, "integrate.com.bo"@)
    ||| under_domain(h, "isipass.net"@)
    ||| under_domain(h, "adeabordo.com"@)
    ||| under_domain(h, "adeabordo.com.bo"@)
    ||| under_domain(h, "adesite.net"@)
    ||| under_domain(h, "isipass.app"@)
    ||| under_domain(h, "pruebas.isipass.net"@)
}

/// An empty origin (a direct request) or one whose host is allowed.
pub open spec fn origin_allowed(origin: Seq<char>) -> bool {
    origin.len() == 0 || host_allowed(origin_host(origin))
}

fn is_under_domain(host: &str, domain: &str, dotted: &str) -> (r: bool)
    requires
        dotted@ == "."@ + domain@,
    ensures
        r == under_domain(host@, domain@),
{
    str_ends_with(host, dotted) || str_equals(host, domain)
}

fn is_host_allowed(h: &str) -> (r: bool)
    ensures
        r == host_allowed(h@),
{
    proof {
        reveal_strlit(".");
        reveal_strlit("integrate.com.bo");
        reveal_strlit(".integrate.com.bo");
        reveal_strlit("isipass.net");
        reveal_strlit(".isipass.net");
        reveal_strlit("adeabordo.com");
        reveal_strlit(".adeabordo.com");
        reveal_strlit("adeabordo.com.bo");
        reveal_strlit(".adeabordo.com.bo");
        reveal_strlit("adesite.net");
        reveal_strlit(".adesite.net");
        reveal_strlit("isipass.app");
        reveal_strlit(".isipass.app");
        reveal_strlit("pruebas.isipass.net");
        reveal_strlit(".pruebas.isipass.net");
    }
    assert(".integrate.com.bo"@ =~= "."@ + "integrate.com.bo"@);
    assert(".isipass.net"@ =~= "."@ + "isipass.net"@);
    assert(".adeabordo.com"@ =~= "."@ + "adeabordo.com"@);
    assert(".adeabordo.com.bo"@ =~= "."@ + "adeabordo.com.bo"@);
    assert(".adesite.net"@ =~= "."@ + "adesite.net"@);
    assert(".isipass.app"@ =~= "."@ + "isipass.app"@);
    assert(".pruebas.isipass.net"@ =~= "."@ + "pruebas.isipass.net"@);
    str_equals(h, "localhost") || str_equals(h, "127.0.0.1") || is_under_domain(
        h,
        "integrate.com.bo",
        ".integrate.com.bo",
    ) || is_under_domain(h, "isipass.net", ".isipass.net") || is_under_domain(
        h,
        "adeabordo.com",
        ".adeabordo.com",
    ) || is_under_domain(h, "adeabordo.com.bo", ".adeabordo.com.bo") || is_under_domain(
        h,
        "adesite.net",
        ".adesite.net",
    ) || is_under_domain(h, "isipass.app", ".isipass.app") || is_under_domain(
        h,
        "pruebas.isipass.net",
        ".pruebas.isipass.net",
    )
}

/// Whether a request's origin may use the local interface.
pub fn is_origin_allowed(origin: &str) -> (r: bool)
    ensures
        r == origin_allowed(origin@),
{
    let n = origin.unicode_len();
    if n == 0 {
        return true;
    }
    proof {
        reveal_strlit("https://");
        reveal_strlit("http://");
    }
    let host = if str_starts_with(origin, "https://") {
        before_first_of(origin.substring_char(8, n), '/')
    } else if str_starts_with(origin, "http://") {
        before_first_of(origin.substring_char(7, n), '/')
    } else {
        String::from_str(origin)
    };
    let bare = before_first_of(host.as_str(), ':');
    is_host_allowed(bare.as_str())
}

/// What the `url` crate reads as the host of a URL.
pub uninterp spec fn url_host_of(s: Seq<char>) -> Option<Seq<char>>;

/// Relies on `url::Url::parse` and `Url::host_str`: the host of a URL that
/// parses, `None` otherwise; this depends on the text alone.
#[verifier::external_body]
fn url_host(s: &str) -> (r: Option<String>)
    ensures
        match r {
            Some(h) => url_host_of(s@) == Some(h@),
            None => url_host_of(s@) is None,
        },
{
    match url::Url::parse(s) {
        Ok(u) => match u.host_str() {
            Some(h) => Some(h.to_string()),
            None => None,
        },
        Err(_) => None,
    }
}

/// Whether `fnmatch_regex` matches `text` against the shell glob `pattern`.
pub uninterp spec fn glob_match(pattern: Seq<char>, text: Seq<char>) -> bool;

/// Relies on `fnmatch_regex::glob_to_regex` and the regex's `is_match`: the
/// answer depends on the pattern and the text alone; a pattern that does not
/// translate matches nothing.
#[verifier::external_body]
fn glob_matches(pattern: &str, text: &str) -> (r: bool)
    ensures
        r == glob_match(pattern@, text@),
{
    match fnmatch_regex::glob_to_regex(pattern) {
        Ok(re) => re.is_match(text),
        Err(_) => false,
    }
}

/// Domain patterns a web page may come from.
pub open spec fn domain_patterns() -> Seq<Seq<char>> {
    seq![
        "localhost"@,
        "127.0.0.1"@,
        "*.integrate.com.bo"@,
        "*.isipass.net"@,
        "*.isipay.me"@,
        "*.idematica.net"@,
        "*.quickpay.com.bo"@,
        "*.isipass.com.bo"@,
    ]
}

fn domain_pattern(k: usize) -> (r: &'static str)
    requires
        k < 8,
    ensures
        r@ == domain_patterns()[k as int],
{
    if k == 0 {
        "localhost"
    } else if k == 1 {
        "127.0.0.1"
    } else if k == 2 {
        "*.integrate.com.bo"
    } else if k == 3 {
        "*.isipass.net"
    } else if k == 4 {
        "*.isipay.me"
    } else if k == 5 {
        "*.idematica.net"
    } else if k == 6 {
        "*.quickpay.com.bo"
    } else {
        "*.isipass.com.bo"
    }
}

/// A page's origin is allowed when its URL has a host that is local or
/// matches one of the domain patterns.
pub open spec fn domain_allowed(origin: Seq<char>) -> bool {
    match url_host_of(origin) {
        Some(h) => h == "localhost"@ || h == "127.0.0.1"@ || exists|k: int|
            0 <= k < 8 && glob_match(#[trigger] domain_patterns()[k], h),
        None => false,
    }
}

/// Whether a web page at `origin` may use the application.
pub fn validate_domain(origin: String) -> (r: Result<bool, String>)
    ensures
        r == Ok::<bool, String>(domain_allowed(origin@)),
{
    let host = match url_host(origin.as_str()) {
        Some(h) => h,
        None => return Ok(false),
    };
    if str_equals(host.as_str(), "localhost") || str_equals(host.as_str(), "127.0.0.1") {
        return Ok(true);
    }
    let mut k: usize = 0;
    while k < 8
        invariant
            k <= 8,
            url_host_of(origin@) == Some(host@),
            forall|j: int| 0 <= j < k ==> !glob_match(#[trigger] domain_patterns()[j], host@),
        decreases 8 - k,
    {
        if glob_matches(domain_pattern(k), host.as_str()) {
            return Ok(true);
        }
        k = k + 1;
    }
    Ok(false)
}

/// The printer list as the interface shows it: the first one is the default.
pub fn printer_infos(names: Vec<String>) -> (r: Vec<PrinterInfo>)
    ensures
        r@.len() == names@.len(),
        forall|i: int|
            0 <= i < r@.len() ==> (#[trigger] r@[i]).name@ == names@[i]@ && r@[i].is_default == (i
                == 0),
{
    let mut out: Vec<PrinterInfo> = Vec::new();
    let mut i: usize = 0;
    while i < names.len()
        invariant
            i <= names@.len(),
            out@.len() == i,
            forall|j: int|
                0 <= j < i ==> (#[trigger] out@[j]).name@ == names@[j]@ && out@[j].is_default == (j
                    == 0),
        decreases names@.len() - i,
    {
        out.push(PrinterInfo { name: names[i].clone(), is_default: i == 0 });
        i = i + 1;
    }
    out
}

/// A log entry about printing: its lower-case message mentions `print`.
pub open spec fn is_print_entry(e: LogEntry) -> bool {
    contains_seq(lower_of(e.message@), "print"@)
}

/// Positions `k < i` of print entries, in order.
pub open spec fn print_entries(logs: Seq<LogEntry>, i: int) -> Seq<int>
    decreases i,
{
    if i <= 0 || i > logs.len() {
        seq![]
    } else if is_print_entry(logs[i - 1]) {
        print_entries(logs, i - 1).push(i - 1)
    } else {
        print_entries(logs, i - 1)
    }
}

/// Print activity from the log, numbered from 0 in log order.
pub fn print_jobs_from_logs(logs: &VecDeque<LogEntry>) -> (r: Vec<PrintJobInfo>)
    ensures
        r@.len() == print_entries(logs@, logs@.len() as int).len(),
        forall|m: int|
            0 <= m < r@.len() ==> {
                let e = logs@[print_entries(logs@, logs@.len() as int)[m]];
                &&& (#[trigger] r@[m]).id@ == decimal(m as nat)
                &&& r@[m].timestamp@ == e.timestamp@
                &&& r@[m].status@ == e.level@
                &&& r@[m].message@ == e.message@
            },
{
    let mut out: Vec<PrintJobInfo> = Vec::new();
    let mut i: usize = 0;
    while i < logs.len()
        invariant
            i <= logs@.len(),
            out@.len() == print_entries(logs@, i as int).len(),
            forall|m: int|
                0 <= m < out@.len() ==> {
                    let e = logs@[print_entries(logs@, i as int)[m]];
                    &&& (#[trigger] out@[m]).id@ == decimal(m as nat)
                    &&& out@[m].timestamp@ == e.timestamp@
                    &&& out@[m].status@ == e.level@
                    &&& out@[m].message@ == e.message@
                },
        decreases logs@.len() - i,
    {
        let e = &logs[i];
        let lower = lowercase(e.message.as_str());
        if str_contains(lower.as_str(), "print") {
            let id = decimal_string(out.len() as u64);
            out.push(
                PrintJobInfo {
                    id,
                    timestamp: e.timestamp.clone(),
                    status: e.level.clone(),
                    message: e.message.clone(),
                },
            );
        }
        i = i + 1;
    }
    out
}

} // verus!
