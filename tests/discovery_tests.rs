use isiprint::discovery::{
    candidates_from_probes, dotted_string, get_network_range, parse_ipv4, printer_name, scan_targets,
};
use isiprint::registrar::{removal_args, removal_result, InstallPhase, Registrar};
use isiprint::discovery::NetworkPrinter;
use isiprint::spooler::ToolRun;
use std::collections::HashSet;

#[test]
fn test_get_network_range() {
    let result = get_network_range("192.168.1.100");
    assert!(result.is_ok());
    assert_eq!(result.unwrap(), "192.168.1.0/24");
}

#[test]
fn network_range_rejects_other_addresses() {
    assert_eq!(get_network_range("fe80::1"), Err("IPv6 not supported yet".to_string()));
    assert_eq!(get_network_range("::ffff:192.168.1.1"), Err("IPv6 not supported yet".to_string()));
    assert_eq!(get_network_range("1.2.3.4:80"), Err("Invalid IP address: invalid IP address syntax".to_string()));
    assert_eq!(get_network_range("fe80::1/64"), Err("Invalid IP address: invalid IP address syntax".to_string()));
    assert_eq!(get_network_range("a:b"), Err("Invalid IP address: invalid IP address syntax".to_string()));
    assert_eq!(get_network_range("192.168.01.1"), Err("Invalid IP address: invalid IP address syntax".to_string()));
    assert_eq!(get_network_range("256.1.1.1"), Err("Invalid IP address: invalid IP address syntax".to_string()));
    assert_eq!(get_network_range("10.0.0"), Err("Invalid IP address: invalid IP address syntax".to_string()));
    assert_eq!(parse_ipv4("10.20.30.40"), Some(vec![10, 20, 30, 40]));
}

#[test]
fn a_slash_24_has_254_hosts_on_three_ports() {
    let targets = scan_targets("192.168.1.0/24").unwrap();
    assert_eq!(targets.len(), 254 * 3);
    assert_eq!(targets[0].ip, "192.168.1.1");
    assert_eq!(targets[0].port, 9100);
    assert_eq!(targets[1].port, 631);
    assert_eq!(targets[2].port, 515);
    assert_eq!(targets[targets.len() - 1].ip, "192.168.1.254");
    let keys: HashSet<(String, u16)> = targets.iter().map(|t| (t.ip.clone(), t.port)).collect();
    assert_eq!(keys.len(), targets.len());
}

#[test]
fn scan_refuses_wide_or_invalid_ranges() {
    assert!(scan_targets("10.0.0.0/16").is_err());
    assert_eq!(scan_targets("nonsense").err().unwrap(), "Invalid network range: nonsense");
}

#[test]
fn answered_probes_become_distinct_candidates() {
    let targets = scan_targets("10.1.2.0/24").unwrap();
    let open: Vec<bool> = (0..targets.len()).map(|i| i % 7 == 0 || i % 5 == 1).collect();
    let cands = candidates_from_probes(&targets, &open);
    assert_eq!(cands.len(), open.iter().filter(|b| **b).count());
    let keys: HashSet<(String, u16)> = cands.iter().map(|c| (c.ip.clone(), c.port)).collect();
    assert_eq!(keys.len(), cands.len());
    let first = &cands[0];
    assert_eq!(first.ip, "10.1.2.1");
    assert_eq!(first.port, 9100);
    assert_eq!(first.protocol, "raw");
    assert_eq!(first.name, "Network_Printer_10_1_2_1_9100");
    assert!(first.is_online);
    assert_eq!(cands[1].protocol, "ipp");
}

#[test]
fn names_and_dotted_quads() {
    assert_eq!(printer_name("192.168.1.100", 515), "Network_Printer_192_168_1_100_515");
    assert_eq!(dotted_string(0xC0A80164), "192.168.1.100");
}

fn printer(protocol: &str) -> NetworkPrinter {
    NetworkPrinter {
        ip: "192.168.1.100".to_string(),
        port: 9100,
        protocol: protocol.to_string(),
        name: "Network_Printer_192_168_1_100_9100".to_string(),
        is_online: true,
    }
}

fn run(success: bool, stderr: &str) -> Result<ToolRun, String> {
    Ok(ToolRun { success, stdout: String::new(), stderr: stderr.to_string() })
}

#[test]
fn uris_follow_the_protocol() {
    assert_eq!(Registrar::new(&printer("ipp")).uri, "ipp://192.168.1.100/ipp/print");
    assert_eq!(Registrar::new(&printer("lpd")).uri, "lpd://192.168.1.100/queue");
    assert_eq!(Registrar::new(&printer("raw")).uri, "socket://192.168.1.100:9100");
    assert_eq!(Registrar::new(&printer("http")).uri, "socket://192.168.1.100:9100");
}

#[test]
fn existing_queue_is_left_alone() {
    let mut r = Registrar::new(&printer("raw"));
    assert_eq!(r.check_args(), vec!["-p", "Network_Printer_192_168_1_100_9100"]);
    r.on_check(true);
    assert_eq!(r.phase, InstallPhase::Done);
    assert_eq!(r.outcome, Some(Ok("Printer Network_Printer_192_168_1_100_9100 already installed".to_string())));
}

#[test]
fn driver_cascade_gathers_every_diagnostic() {
    let mut r = Registrar::new(&printer("raw"));
    r.on_check(false);
    assert_eq!(r.phase, InstallPhase::Attempt(0));
    assert_eq!(r.install_args(0)[5..], ["-m".to_string(), "everywhere".to_string()]);
    r.on_install(&run(false, "e1"));
    assert_eq!(r.phase, InstallPhase::Attempt(1));
    assert_eq!(r.install_args(1)[6], "drv:///sample.drv/laserjet.ppd");
    r.on_install(&run(false, "e2"));
    assert_eq!(r.install_args(2).len(), 5);
    r.on_install(&run(false, "e3"));
    assert_eq!(r.phase, InstallPhase::Done);
    assert_eq!(r.outcome, Some(Err("Error adding printer after all attempts:\n1. e1\n2. e2\n3. e3".to_string())));
}

#[test]
fn second_strategy_can_succeed() {
    let mut r = Registrar::new(&printer("ipp"));
    r.on_check(false);
    r.on_install(&run(false, "no everywhere"));
    r.on_install(&run(true, ""));
    assert_eq!(r.outcome, Some(Ok("Printer Network_Printer_192_168_1_100_9100 added successfully".to_string())));
}

#[test]
fn removal_surfaces_diagnostics() {
    assert_eq!(removal_args("Q"), vec!["-x", "Q"]);
    assert_eq!(removal_result(&run(true, "")), Ok(()));
    assert_eq!(removal_result(&run(false, "no such queue")), Err("Error removing printer: no such queue".to_string()));
}
