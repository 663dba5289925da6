//! Installs a discovered network printer as a spooler queue: the device URI,
//! an idempotency check, and a cascade of driver strategies tried in turn
//! with their diagnostics gathered. The caller runs the admin tool with the
//! arguments asked for and reports what it did.

use vstd::prelude::*;
use crate::discovery::NetworkPrinter;
use crate::spooler::ToolRun;
use crate::text::{decimal, decimal_string, str_equals, views_of};

verus! {

/// Device URI for a printer, from its protocol tag.
pub open spec fn uri_spec(protocol: Seq<char>, ip: Seq<char>, port: u16) -> Seq<char> {
    if protocol == "ipp"@ {
        "ipp://"@ + ip + "/ipp/print"@
    } else if protocol == "lpd"@ {
        "lpd://"@ + ip + "/queue"@
    } else {
        "socket://"@ + ip + ":"@ + decimal(port as nat)
    }
}

/// Builds the device URI of a network printer: `ipp://`, `lpd://`, or
/// `socket://` for raw and any other protocol.
pub fn printer_uri(printer: &NetworkPrinter) -> (r: String)
    ensures
        r@ == uri_spec(printer.protocol@, printer.ip@, printer.port),
{
    if str_equals(printer.protocol.as_str(), "ipp") {
        let mut s = String::from_str("ipp://");
        s.append(printer.ip.as_str());
        s.append("/ipp/print");
        s
    } else if str_equals(printer.protocol.as_str(), "lpd") {
        let mut s = String::from_str("lpd://");
        s.append(printer.ip.as_str());
        s.append("/queue");
        s
    } else {
        let mut s = String::from_str("socket://");
        s.append(printer.ip.as_str());
        s.append(":");
        let p = decimal_string(printer.port as u64);
        s.append(p.as_str());
        s
    }
}

/// Number of driver strategies tried.
pub const DRIVER_STRATEGIES: u8 = 3;

/// Driver arguments of each strategy: IPP Everywhere, a generic PostScript
/// driver, then none (the spooler picks).
pub open spec fn driver_args(k: int) -> Seq<Seq<char>> {
    if k == 0 {
        seq!["-m"@, "everywhere"@]
    } else if k == 1 {
        seq!["-m"@, "drv:///sample.drv/laserjet.ppd"@]
    } else {
        seq![]
    }
}

/// Arguments of the admin tool for strategy `k`.
pub open spec fn install_args_spec(name: Seq<char>, uri: Seq<char>, k: int) -> Seq<Seq<char>> {
    seq!["-p"@, name, "-v"@, uri, "-E"@] + driver_args(k)
}

/// Where an installation stands.
#[derive(PartialEq, Eq, Structural, Clone, Copy, Debug)]
pub enum InstallPhase {
    /// Asking whether a queue of that name exists.
    CheckExisting,
    /// Trying driver strategy `k`.
    Attempt(u8),
    Done,
}

/// Installation of one network printer.
pub struct Registrar {
    pub name: String,
    pub uri: String,
    pub phase: InstallPhase,
    /// The diagnostics of the strategies that failed, in order.
    pub diagnostics: Vec<String>,
    pub outcome: Option<Result<String, String>>,
}

pub open spec fn aggregate_text(d: Seq<Seq<char>>) -> Seq<char> {
    "Error adding printer after all attempts:\n1. "@ + d[0] + "\n2. "@ + d[1] + "\n3. "@ + d[2]
}

pub open spec fn outcome_view(o: Option<Result<String, String>>) -> Option<Result<Seq<char>, Seq<char>>> {
    match o {
        None => None,
        Some(Ok(s)) => Some(Ok(s@)),
        Some(Err(e)) => Some(Err(e@)),
    }
}

impl Registrar {
    /// Starts installing `printer`: first ask whether its queue exists.
    pub fn new(printer: &NetworkPrinter) -> (r: Registrar)
        ensures
            r.name@ == printer.name@,
            r.uri@ == uri_spec(printer.protocol@, printer.ip@, printer.port),
            r.phase == InstallPhase::CheckExisting,
            r.diagnostics@.len() == 0,
            r.outcome is None,
    {
        Registrar {
            name: printer.name.clone(),
            uri: printer_uri(printer),
            phase: InstallPhase::CheckExisting,
            diagnostics: Vec::new(),
            outcome: None,
        }
    }

    /// Arguments of the status tool that tells whether the queue exists.
    pub fn check_args(&self) -> (r: Vec<String>)
        ensures
            views_of(r@) == seq!["-p"@, self.name@],
    {
        let r = vec![String::from_str("-p"), self.name.clone()];
        assert(views_of(r@) =~= seq!["-p"@, self.name@]);
        r
    }

    /// Arguments of the admin tool for driver strategy `k`.
    pub fn install_args(&self, k: u8) -> (r: Vec<String>)
        requires
            k < DRIVER_STRATEGIES,
        ensures
            views_of(r@) == install_args_spec(self.name@, self.uri@, k as int),
    {
        let mut r: Vec<String> = Vec::new();
        r.push(String::from_str("-p"));
        r.push(self.name.clone());
        r.push(String::from_str("-v"));
        r.push(self.uri.clone());
        r.push(String::from_str("-E"));
        if k == 0 {
            r.push(String::from_str("-m"));
            r.push(String::from_str("everywhere"));
        } else if k == 1 {
            r.push(String::from_str("-m"));
            r.push(String::from_str("drv:///sample.drv/laserjet.ppd"));
        }
        assert(views_of(r@) =~= install_args_spec(self.name@, self.uri@, k as int));
        r
    }

    /// Reports whether the status tool found the queue. An existing queue
    /// ends the installation without touching it.
    pub fn on_check(&mut self, found: bool)
        ensures
            final(self).name == old(self).name,
            final(self).uri == old(self).uri,
            final(self).diagnostics == old(self).diagnostics,
            old(self).phase == InstallPhase::CheckExisting ==> if found {
                &&& final(self).phase == InstallPhase::Done
                &&& outcome_view(final(self).outcome) == Some(
                    Ok::<Seq<char>, Seq<char>>("Printer "@ + old(self).name@ + " already installed"@),
                )
            } else {
                final(self).phase == InstallPhase::Attempt(0) && final(self).outcome
                    == old(self).outcome
            },
            old(self).phase != InstallPhase::CheckExisting ==> final(self).phase == old(self).phase
                && final(self).outcome == old(self).outcome,
    {
        if let InstallPhase::CheckExisting = self.phase {
            if found {
                let mut m = String::from_str("Printer ");
                m.append(self.name.as_str());
                m.append(" already installed");
                self.outcome = Some(Ok(m));
                self.phase = InstallPhase::Done;
            } else {
                self.phase = InstallPhase::Attempt(0);
            }
        }
    }

    /// Reports how the admin tool did with the current strategy: it could
    /// not be run (`Err`), it succeeded, or it failed and the next strategy
    /// is due; after the last, the installation fails with every
    /// strategy's diagnostic.
    pub fn on_install(&mut self, run: &Result<ToolRun, String>)
        requires
            (old(self).phase matches InstallPhase::Attempt(k) ==> k < DRIVER_STRATEGIES
                && old(self).diagnostics@.len() == k),
        ensures
            final(self).name == old(self).name,
            final(self).uri == old(self).uri,
            (final(self).phase matches InstallPhase::Attempt(k) ==> k < DRIVER_STRATEGIES
                && final(self).diagnostics@.len() == k),
            match old(self).phase {
                InstallPhase::Attempt(k) => match run {
                    Err(e) => final(self).phase == InstallPhase::Done && outcome_view(
                        final(self).outcome,
                    ) == Some(Err::<Seq<char>, Seq<char>>("Error executing lpadmin: "@ + e@)),
                    Ok(t) => if t.success {
                        final(self).phase == InstallPhase::Done && outcome_view(final(self).outcome)
                            == Some(
                            Ok::<Seq<char>, Seq<char>>(
                                "Printer "@ + old(self).name@ + " added successfully"@,
                            ),
                        )
                    } else {
                        &&& views_of(final(self).diagnostics@) == views_of(
                            old(self).diagnostics@,
                        ).push(t.stderr@)
                        &&& if k + 1 < DRIVER_STRATEGIES {
                            final(self).phase == InstallPhase::Attempt((k + 1) as u8)
                                && final(self).outcome == old(self).outcome
                        } else {
                            final(self).phase == InstallPhase::Done && outcome_view(
                                final(self).outcome,
                            ) == Some(
                                Err::<Seq<char>, Seq<char>>(
                                    aggregate_text(views_of(final(self).diagnostics@)),
                                ),
                            )
                        }
                    },
                },
                _ => final(self).phase == old(self).phase && final(self).outcome == old(
                    self,
                ).outcome && final(self).diagnostics == old(self).diagnostics,
            },
    {
        if let InstallPhase::Attempt(k) = self.phase {
            match run {
                Err(e) => {
                    let mut m = String::from_str("Error executing lpadmin: ");
                    m.append(e.as_str());
                    self.outcome = Some(Err(m));
                    self.phase = InstallPhase::Done;
                },
                Ok(t) => {
                    if t.success {
                        let mut m = String::from_str("Printer ");
                        m.append(self.name.as_str());
                        m.append(" added successfully");
                        self.outcome = Some(Ok(m));
                        self.phase = InstallPhase::Done;
                    } else {
                        let ghost before = self.diagnostics@;
                        self.diagnostics.push(t.stderr.clone());
                        assert(views_of(self.diagnostics@) =~= views_of(before).push(t.stderr@));
                        if k + 1 < DRIVER_STRATEGIES {
                            self.phase = InstallPhase::Attempt(k + 1);
                        } else {
                            let mut m = String::from_str(
                                "Error adding printer after all attempts:\n1. ",
                            );
                            m.append(self.diagnostics[0].as_str());
                            m.append("\n2. ");
                            m.append(self.diagnostics[1].as_str());
                            m.append("\n3. ");
                            m.append(self.diagnostics[2].as_str());
                            self.outcome = Some(Err(m));
                            self.phase = InstallPhase::Done;
                        }
                    }
                },
            }
        }
    }
}

/// Arguments of the admin tool that deletes queue `name`.
pub fn removal_args(name: &str) -> (r: Vec<String>)
    ensures
        views_of(r@) == seq!["-x"@, name@],
{
    let r = vec![String::from_str("-x"), String::from_str(name)];
    assert(views_of(r@) =~= seq!["-x"@, name@]);
    r
}

/// The result of deleting a queue: the admin tool's text is surfaced as it
/// is when it fails.
pub fn removal_result(run: &Result<ToolRun, String>) -> (r: Result<(), String>)
    ensures
        match run {
            Err(e) => r matches Err(m) && m@ == "Error executing lpadmin: "@ + e@,
            Ok(t) => if t.success {
                r is Ok
            } else {
                r matches Err(m) && m@ == "Error removing printer: "@ + t.stderr@
            },
        },
{
    match run {
        Err(e) => {
            let mut m = String::from_str("Error executing lpadmin: ");
            m.append(e.as_str());
            Err(m)
        },
        Ok(t) => {
            if t.success {
                Ok(())
            } else {
                let mut m = String::from_str("Error removing printer: ");
                m.append(t.stderr.as_str());
                Err(m)
            }
        },
    }
}

} // verus!
