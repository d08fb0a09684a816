use dns_changer::reader::{get_dns_from_ipconfig, parse_dns_servers, Phase, ReadError, Scan};
use dns_changer::runner::RunReport;

fn step(state: Scan, name: &str, line: &str) -> Scan {
    state.step(line, &line.to_lowercase(), &name.to_lowercase(), &line.trim().to_lowercase())
}

#[test]
fn header_dns_line_and_continuation() {
    let listing = "Ethernet adapter Ethernet:\n\n   DNS Servers . . . . . . . . . . . : 1.1.1.1\n                                       1.0.0.1\n";
    assert_eq!(parse_dns_servers("Ethernet", listing), vec!["1.1.1.1", "1.0.0.1"]);
}

#[test]
fn block_without_dns_line_gives_nothing() {
    let listing = "Ethernet adapter Ethernet:\n\n   Description . . . : Some NIC\n   DHCP Enabled. . . : Yes\n   10.0.0.1\n";
    assert_eq!(parse_dns_servers("Ethernet", listing), Vec::<String>::new());
}

#[test]
fn no_matching_block_gives_nothing() {
    let listing = "Wireless LAN adapter Wi-Fi:\n\n   DNS Servers . . . : 9.9.9.9\n";
    assert_eq!(parse_dns_servers("Ethernet", listing), Vec::<String>::new());
    assert_eq!(parse_dns_servers("Ethernet", ""), Vec::<String>::new());
}

#[test]
fn stops_at_the_next_header_once_a_server_was_found() {
    let listing = "Ethernet adapter Ethernet:\n   DNS Servers . . . : 1.1.1.1\nWireless LAN adapter Wi-Fi:\n   DNS Servers . . . : 9.9.9.9\nEthernet adapter Ethernet:\n   DNS Servers . . . : 8.8.8.8\n";
    assert_eq!(parse_dns_servers("Ethernet", listing), vec!["1.1.1.1"]);
}

#[test]
fn header_that_names_the_interface_keeps_the_block_open() {
    let listing = "Ethernet adapter Ethernet:\n   DNS Servers . . . : 1.1.1.1\nEthernet adapter Ethernet 2:\n   DNS Servers . . . : 9.9.9.9\n";
    assert_eq!(parse_dns_servers("Ethernet", listing), vec!["1.1.1.1", "9.9.9.9"]);
}

#[test]
fn block_without_servers_is_a_false_start() {
    let listing = "Windows IP Configuration for ethernet users\n   Host Name . . . : box\nWireless LAN adapter Wi-Fi:\n   DNS Servers . . . : 9.9.9.9\nEthernet adapter Ethernet:\n   DNS Servers . . . : 8.8.8.8\n                       8.8.4.4\n";
    assert_eq!(parse_dns_servers("Ethernet", listing), vec!["8.8.8.8", "8.8.4.4"]);
}

#[test]
fn name_is_matched_whatever_its_case() {
    let listing = "ETHERNET ADAPTER ETHERNET:\n   dns servers: 1.1.1.1\n";
    assert_eq!(parse_dns_servers("ethernet", listing), vec!["1.1.1.1"]);
    let listing = "ethernet adapter:\n   Dns Servers: 1.1.1.1\n";
    assert_eq!(parse_dns_servers("ETHERNET", listing), vec!["1.1.1.1"]);
}

#[test]
fn list_ends_at_a_line_that_is_no_address() {
    let listing = "Ethernet adapter Ethernet:\n   DNS Servers . . . : 1.1.1.1\n                       1.0.0.1\n   NetBIOS over Tcpip. . . : Enabled\n                       4.4.4.4\n";
    assert_eq!(parse_dns_servers("Ethernet", listing), vec!["1.1.1.1", "1.0.0.1"]);
}

#[test]
fn empty_line_does_not_end_the_list() {
    let listing = "Ethernet adapter Ethernet:\n   DNS Servers . . . : 1.1.1.1\n\n   \n                       1.0.0.1\n";
    assert_eq!(parse_dns_servers("Ethernet", listing), vec!["1.1.1.1", "1.0.0.1"]);
}

#[test]
fn dns_line_without_an_address_opens_the_list() {
    let listing = "Ethernet adapter Ethernet:\n   Connection-specific DNS Suffix  . : lan\n   8.8.8.8\n";
    assert_eq!(parse_dns_servers("Ethernet", listing), vec!["8.8.8.8"]);
}

#[test]
fn text_after_the_last_colon_is_taken() {
    let listing = "Ethernet adapter Ethernet:\n   DNS Servers (a:b) . . . :   8.8.8.8   \n   DNS Servers . . . : fe80::1\n";
    assert_eq!(parse_dns_servers("Ethernet", listing), vec!["8.8.8.8"]);
}

#[test]
fn carriage_returns_are_line_endings() {
    let listing = "Ethernet adapter Ethernet:\r\n\r\n   DNS Servers . . . : 1.1.1.1\r\n                       1.0.0.1\r\n\r\nWireless LAN adapter Wi-Fi:\r\n   DNS Servers . . . : 9.9.9.9\r\n";
    assert_eq!(parse_dns_servers("Ethernet", listing), vec!["1.1.1.1", "1.0.0.1"]);
}

#[test]
fn open_list_survives_a_false_start() {
    let listing = "Ethernet one:\n   DNS Suffix: lan\nOther adapter:\nEthernet two:\n   8.8.8.8\n";
    assert_eq!(parse_dns_servers("Ethernet", listing), vec!["8.8.8.8"]);
}

#[test]
fn empty_name_matches_every_header() {
    let listing = "A:\n   DNS: 1.1.1.1\nB:\n   DNS: 2.2.2.2\n";
    assert_eq!(parse_dns_servers("", listing), vec!["1.1.1.1", "2.2.2.2"]);
}

#[test]
fn scan_states_one_by_one() {
    let s = Scan::new();
    assert_eq!(s.phase, Phase::Seeking);
    assert!(!s.in_dns);
    assert!(s.servers.is_empty());
    let s = step(s, "Wi-Fi", "   DNS Servers : 1.1.1.1");
    assert_eq!(s.phase, Phase::Seeking);
    assert!(s.servers.is_empty());
    let s = step(s, "Wi-Fi", "Wireless LAN adapter Wi-Fi:");
    assert_eq!(s.phase, Phase::InTarget);
    let s = step(s, "Wi-Fi", "");
    assert_eq!(s.phase, Phase::InTarget);
    let s = step(s, "Wi-Fi", "Other adapter:");
    assert_eq!(s.phase, Phase::Seeking);
    let s = step(s, "Wi-Fi", "Wireless LAN adapter Wi-Fi:");
    let s = step(s, "Wi-Fi", "   DNS Servers : 1.1.1.1");
    assert_eq!(s.phase, Phase::InTarget);
    assert!(s.in_dns);
    assert_eq!(s.servers, vec!["1.1.1.1"]);
    let s = step(s, "Wi-Fi", "   Lease Obtained : today");
    assert!(!s.in_dns);
    let s = step(s, "Wi-Fi", "Other adapter:");
    assert_eq!(s.phase, Phase::Done);
    let s = step(s, "Wi-Fi", "Wireless LAN adapter Wi-Fi:");
    assert_eq!(s.phase, Phase::Done);
    let s = step(s, "Wi-Fi", "   DNS Servers : 2.2.2.2");
    assert_eq!(s.servers, vec!["1.1.1.1"]);
}

#[test]
fn tab_indented_line_is_a_header() {
    let s = Scan::new();
    let s = step(s, "Wi-Fi", "Wi-Fi:");
    let s = step(s, "Wi-Fi", "\tDNS Servers : 1.1.1.1");
    assert_eq!(s.phase, Phase::Seeking);
    assert!(s.servers.is_empty());
}

#[test]
fn detail_listing_of_a_failed_runner_is_command_failed() {
    assert_eq!(get_dns_from_ipconfig("Ethernet", &RunReport::Failed), Err(ReadError::CommandFailed));
}

#[test]
fn detail_listing_is_read_whatever_the_exit_status() {
    let listing = "Ethernet adapter Ethernet:\n   DNS Servers . . . : 1.1.1.1\n".to_string();
    let report = RunReport::Completed { stdout: listing, succeeded: false };
    assert_eq!(get_dns_from_ipconfig("Ethernet", &report), Ok(vec!["1.1.1.1".to_string()]));
    let report = RunReport::Completed { stdout: String::new(), succeeded: true };
    assert_eq!(get_dns_from_ipconfig("Ethernet", &report), Ok(Vec::new()));
}
