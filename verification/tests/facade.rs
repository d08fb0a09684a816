use dns_changer::facade::{
    answer_says_admin, check_admin, check_admin_command, get_current_dns, reset_dns, set_dns,
    tray_reset_dns, tray_set_dns, CommandResult, DnsInfo, FacadeStep, QueryStep, Reply,
};
use dns_changer::runner::{Command, RunReport};
use dns_changer::writer::WriteError;

const LISTING: &str = "Admin State    State          Type             Interface Name\n-------------------------------------------------------------------------\nEnabled        Connected      Dedicated        Ethernet\n";

const DETAILS: &str = "Windows IP Configuration\n\n   Host Name . . . . . . . . . . . . : box\n\nEthernet adapter Ethernet:\n\n   Connection-specific DNS Suffix  . : lan\n   IPv4 Address. . . . . . . . . . . : 192.168.1.20(Preferred)\n   DNS Servers . . . . . . . . . . . : 8.8.8.8\n                                       8.8.4.4\n   NetBIOS over Tcpip. . . . . . . . : Enabled\n\nWireless LAN adapter Wi-Fi:\n\n   Media State . . . . . . . . . . . : Media disconnected\n";

struct FakeRunner {
    script: Vec<RunReport>,
    calls: Vec<Command>,
}

impl FakeRunner {
    fn new(script: Vec<RunReport>) -> FakeRunner {
        FakeRunner { script, calls: Vec::new() }
    }

    fn run(&mut self, command: Command) -> RunReport {
        self.calls.push(command);
        if self.script.is_empty() {
            RunReport::Failed
        } else {
            self.script.remove(0)
        }
    }
}

fn finish(mut step: FacadeStep, runner: &mut FakeRunner) -> CommandResult {
    loop {
        match step {
            FacadeStep::Run(pending, command) => {
                let report = runner.run(command);
                step = pending.advance(&report);
            }
            FacadeStep::Done(result) => return result,
        }
    }
}

fn query(runner: &mut FakeRunner) -> DnsInfo {
    let (mut state, mut command) = get_current_dns();
    loop {
        let report = runner.run(command);
        match state.advance(&report) {
            QueryStep::Run(next, following) => {
                state = next;
                command = following;
            }
            QueryStep::Done(info) => return info,
        }
    }
}

fn out(text: &str, succeeded: bool) -> RunReport {
    RunReport::Completed { stdout: text.to_string(), succeeded }
}

#[test]
fn apply_profile_end_to_end() {
    let mut runner = FakeRunner::new(vec![out(LISTING, true), out("", true), out("", true)]);
    let result = finish(set_dns("8.8.8.8", "8.8.4.4"), &mut runner);
    assert!(result.success());
    assert_eq!(result.message(), "DNS Uygulandı");
    assert_eq!(runner.calls.len(), 3);
    assert_eq!(runner.calls[1].args[4], "Ethernet");
    assert_eq!(runner.calls[1].args[6], "8.8.8.8");
    assert_eq!(runner.calls[2].args[5], "8.8.4.4");
}

#[test]
fn invalid_primary_is_turned_down_without_any_command() {
    let mut runner = FakeRunner::new(vec![out(LISTING, true), out("", true)]);
    let result = finish(set_dns("not-an-ip", ""), &mut runner);
    assert!(!result.success());
    assert_eq!(result.message(), "Geçersiz IP");
    assert_eq!(runner.calls.len(), 0);
}

#[test]
fn invalid_secondary_is_passed_on() {
    let mut runner = FakeRunner::new(vec![out(LISTING, true), out("", true), out("", false)]);
    let result = finish(set_dns("8.8.8.8", "bogus"), &mut runner);
    assert!(result.success());
    assert_eq!(runner.calls.len(), 3);
    assert_eq!(runner.calls[2].args[5], "bogus");
}

#[test]
fn apply_failures_share_one_message() {
    let mut runner = FakeRunner::new(vec![out(LISTING, true), out("", false)]);
    let result = finish(set_dns("8.8.8.8", "8.8.4.4"), &mut runner);
    assert!(!result.success());
    assert_eq!(result.message(), "Hata: Yönetici Yetkisi?");
    assert_eq!(runner.calls.len(), 2);
    let mut runner = FakeRunner::new(vec![out(LISTING, true), RunReport::Failed]);
    let result = finish(set_dns("8.8.8.8", "8.8.4.4"), &mut runner);
    assert!(!result.success());
    assert_eq!(result.message(), "Hata: Yönetici Yetkisi?");
    let mut runner = FakeRunner::new(vec![out("", true)]);
    let result = finish(set_dns("8.8.8.8", "8.8.4.4"), &mut runner);
    assert!(!result.success());
    assert_eq!(result.message(), "Hata: Yönetici Yetkisi?");
    assert_eq!(runner.calls.len(), 1);
}

#[test]
fn reset_end_to_end() {
    let mut runner =
        FakeRunner::new(vec![out(LISTING, true), out("", true), out("", false), out("", false)]);
    let result = finish(reset_dns(), &mut runner);
    assert!(result.success());
    assert_eq!(result.message(), "Varsayılana dönüldü");
    assert_eq!(runner.calls.len(), 4);
    let mut runner =
        FakeRunner::new(vec![out(LISTING, true), out("", false), out("", true), out("", true)]);
    let result = finish(reset_dns(), &mut runner);
    assert!(!result.success());
    assert_eq!(result.message(), "Hata");
}

#[test]
fn tray_messages_carry_the_profile_name() {
    let mut runner = FakeRunner::new(vec![out(LISTING, true), out("", true), out("", true)]);
    let result = finish(tray_set_dns("1.1.1.1", "1.0.0.1", "Cloudflare"), &mut runner);
    assert!(result.success());
    assert_eq!(result.message(), "Cloudflare başarıyla uygulandı!");
    let mut runner = FakeRunner::new(vec![out(LISTING, true), out("", false)]);
    let result = finish(tray_set_dns("9.9.9.9", "149.112.112.112", "Quad9"), &mut runner);
    assert!(!result.success());
    assert_eq!(result.message(), "Quad9 uygulanamadı! Yönetici olarak çalıştırın.");
}

#[test]
fn tray_reset_messages() {
    let mut runner =
        FakeRunner::new(vec![out(LISTING, true), out("", true), out("", true), out("", true)]);
    let result = finish(tray_reset_dns(), &mut runner);
    assert!(result.success());
    assert_eq!(result.message(), "Sistem varsayılanına dönüldü!");
    let mut runner = FakeRunner::new(vec![RunReport::Failed]);
    let result = finish(tray_reset_dns(), &mut runner);
    assert!(!result.success());
    assert_eq!(result.message(), "Sıfırlama başarısız! Yönetici olarak çalıştırın.");
}

#[test]
fn outcome_wording_for_each_result() {
    let r = Reply::SetDns.outcome(Ok(true));
    assert!(r.success());
    let r = Reply::SetDns.outcome(Ok(false));
    assert!(!r.success());
    let r = Reply::SetDns.outcome(Err(WriteError::CommandFailed));
    assert!(!r.success());
    assert_eq!(r.message(), "Hata: Yönetici Yetkisi?");
    let r = Reply::TraySetDns { name: "OpenDNS".to_string() }.outcome(Ok(true));
    assert_eq!(r.message(), "OpenDNS başarıyla uygulandı!");
}

#[test]
fn query_without_connected_interface() {
    let mut runner = FakeRunner::new(vec![out("nothing here\n", true), out(DETAILS, true)]);
    let info = query(&mut runner);
    assert_eq!(info.interface_name(), "Bilinmiyor");
    assert!(info.servers().is_empty());
    assert!(info.is_automatic());
    assert_eq!(runner.calls.len(), 1);
    let mut runner = FakeRunner::new(vec![RunReport::Failed]);
    let info = query(&mut runner);
    assert_eq!(info.interface_name(), "Bilinmiyor");
    assert!(info.is_automatic());
}

#[test]
fn query_reads_the_servers_of_the_active_interface() {
    let mut runner = FakeRunner::new(vec![out(LISTING, true), out(DETAILS, true)]);
    let info = query(&mut runner);
    assert_eq!(info.interface_name(), "Ethernet");
    assert_eq!(info.servers(), &vec!["8.8.8.8".to_string(), "8.8.4.4".to_string()]);
    assert!(!info.is_automatic());
    assert_eq!(runner.calls.len(), 2);
    assert_eq!(runner.calls[1].program, "ipconfig");
    assert_eq!(runner.calls[1].args, vec!["/all"]);
}

#[test]
fn query_with_unreadable_details_is_automatic() {
    let mut runner = FakeRunner::new(vec![out(LISTING, true), RunReport::Failed]);
    let info = query(&mut runner);
    assert_eq!(info.interface_name(), "Ethernet");
    assert!(info.servers().is_empty());
    assert!(info.is_automatic());
}

#[test]
fn interface_named_like_the_placeholder_is_still_read() {
    let listing = "Enabled        Connected      Dedicated        Bilinmiyor\n";
    let details = "Adapter Bilinmiyor:\n   DNS Servers . . . : 4.4.4.4\n";
    let mut runner = FakeRunner::new(vec![out(listing, true), out(details, true)]);
    let info = query(&mut runner);
    assert_eq!(info.interface_name(), "Bilinmiyor");
    assert_eq!(info.servers(), &vec!["4.4.4.4".to_string()]);
    assert!(!info.is_automatic());
}

#[test]
fn dns_info_is_automatic_exactly_without_servers() {
    let info = DnsInfo::new("Wi-Fi".to_string(), Vec::new());
    assert!(info.is_automatic());
    let info = DnsInfo::new("Wi-Fi".to_string(), vec!["1.1.1.1".to_string()]);
    assert!(!info.is_automatic());
    let copy = info.clone();
    assert_eq!(copy.interface_name(), "Wi-Fi");
    assert_eq!(copy.servers(), info.servers());
    assert!(!copy.is_automatic());
}

#[test]
fn command_result_holds_what_it_was_given() {
    let r = CommandResult::new(true, "fine".to_string());
    assert!(r.success());
    assert_eq!(r.message(), "fine");
}

#[test]
fn admin_probe() {
    assert_eq!(check_admin_command().program, "powershell");
    assert!(check_admin(&out("True\r\n", true)));
    assert!(check_admin(&out("  TRUE", false)));
    assert!(check_admin(&out("true and more", true)));
    assert!(!check_admin(&out("False\r\n", true)));
    assert!(!check_admin(&out("", true)));
    assert!(!check_admin(&out("not true", true)));
    assert!(!check_admin(&RunReport::Failed));
    assert!(answer_says_admin("true"));
    assert!(!answer_says_admin("True"));
}
