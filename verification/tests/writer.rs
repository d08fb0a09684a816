use dns_changer::runner::{Command, RunReport};
use dns_changer::writer::{
    report_succeeded, reset_dns_impl, reset_to_automatic, set_dns_impl, try_set_dns, WriteError,
    WriterState, WriterStep,
};

const LISTING: &str = "Admin State    State          Type             Interface Name\n-------------------------------------------------------------------------\nEnabled        Connected      Dedicated        Ethernet\n";

struct FakeRunner {
    script: Vec<RunReport>,
    calls: Vec<Vec<String>>,
}

impl FakeRunner {
    fn new(script: Vec<RunReport>) -> FakeRunner {
        FakeRunner { script, calls: Vec::new() }
    }

    fn run(&mut self, command: &Command) -> RunReport {
        let mut call = vec![command.program.clone()];
        call.extend(command.args.iter().cloned());
        self.calls.push(call);
        if self.script.is_empty() {
            RunReport::Failed
        } else {
            self.script.remove(0)
        }
    }
}

fn drive(start: (WriterState, Command), runner: &mut FakeRunner) -> Result<bool, WriteError> {
    let (mut state, mut command) = start;
    loop {
        let report = runner.run(&command);
        match state.advance(&report) {
            WriterStep::Run(next, following) => {
                state = next;
                command = following;
            }
            WriterStep::Finished(result) => return result,
        }
    }
}

fn ok() -> RunReport {
    RunReport::Completed { stdout: String::new(), succeeded: true }
}

fn exit_failure() -> RunReport {
    RunReport::Completed { stdout: "Access denied".to_string(), succeeded: false }
}

fn listing() -> RunReport {
    RunReport::Completed { stdout: LISTING.to_string(), succeeded: true }
}

fn words(v: &[&str]) -> Vec<String> {
    v.iter().map(|s| s.to_string()).collect()
}

#[test]
fn failing_primary_never_issues_the_secondary() {
    let mut runner = FakeRunner::new(vec![exit_failure(), ok(), ok()]);
    let result = drive(try_set_dns("Ethernet", "8.8.8.8", "8.8.4.4"), &mut runner);
    assert_eq!(result, Ok(false));
    assert_eq!(
        runner.calls,
        vec![words(&[
            "netsh", "interface", "ipv4", "set", "dnsservers", "Ethernet", "static", "8.8.8.8",
            "primary", "validate=no",
        ])]
    );
}

#[test]
fn primary_that_cannot_be_run_is_an_error() {
    let mut runner = FakeRunner::new(vec![RunReport::Failed, ok()]);
    let result = drive(try_set_dns("Ethernet", "8.8.8.8", "8.8.4.4"), &mut runner);
    assert_eq!(result, Err(WriteError::CommandFailed));
    assert_eq!(runner.calls.len(), 1);
}

#[test]
fn primary_then_secondary_in_order() {
    let mut runner = FakeRunner::new(vec![ok(), ok()]);
    let result = drive(try_set_dns("Wi-Fi", "1.1.1.1", "1.0.0.1"), &mut runner);
    assert_eq!(result, Ok(true));
    assert_eq!(
        runner.calls,
        vec![
            words(&[
                "netsh", "interface", "ipv4", "set", "dnsservers", "Wi-Fi", "static", "1.1.1.1",
                "primary", "validate=no",
            ]),
            words(&[
                "netsh", "interface", "ipv4", "add", "dnsservers", "Wi-Fi", "1.0.0.1", "index=2",
                "validate=no",
            ]),
        ]
    );
}

#[test]
fn failing_secondary_does_not_matter() {
    let mut runner = FakeRunner::new(vec![ok(), exit_failure()]);
    assert_eq!(drive(try_set_dns("Wi-Fi", "1.1.1.1", "1.0.0.1"), &mut runner), Ok(true));
    assert_eq!(runner.calls.len(), 2);
    let mut runner = FakeRunner::new(vec![ok(), RunReport::Failed]);
    assert_eq!(drive(try_set_dns("Wi-Fi", "1.1.1.1", "1.0.0.1"), &mut runner), Ok(true));
    assert_eq!(runner.calls.len(), 2);
}

#[test]
fn empty_secondary_is_not_issued() {
    let mut runner = FakeRunner::new(vec![ok(), ok()]);
    assert_eq!(drive(try_set_dns("Wi-Fi", "1.1.1.1", ""), &mut runner), Ok(true));
    assert_eq!(runner.calls.len(), 1);
}

#[test]
fn reset_goes_by_the_dhcp_command_alone() {
    for (clear, flush) in [
        (ok(), ok()),
        (exit_failure(), ok()),
        (ok(), exit_failure()),
        (RunReport::Failed, RunReport::Failed),
    ] {
        let mut runner = FakeRunner::new(vec![ok(), clear.clone(), flush.clone()]);
        assert_eq!(drive(reset_to_automatic("Ethernet"), &mut runner), Ok(true));
        assert_eq!(runner.calls.len(), 3);
        let mut runner = FakeRunner::new(vec![exit_failure(), clear, flush]);
        assert_eq!(drive(reset_to_automatic("Ethernet"), &mut runner), Ok(false));
        assert_eq!(runner.calls.len(), 3);
    }
}

#[test]
fn reset_commands_in_order() {
    let mut runner = FakeRunner::new(vec![ok(), ok(), ok()]);
    assert_eq!(drive(reset_to_automatic("Ethernet"), &mut runner), Ok(true));
    assert_eq!(
        runner.calls,
        vec![
            words(&["netsh", "interface", "ipv4", "set", "dnsservers", "Ethernet", "source=dhcp"]),
            words(&["netsh", "interface", "ipv4", "delete", "dnsservers", "Ethernet", "all"]),
            words(&["ipconfig", "/flushdns"]),
        ]
    );
}

#[test]
fn reset_that_cannot_be_run_breaks_off() {
    let mut runner = FakeRunner::new(vec![RunReport::Failed, ok(), ok()]);
    assert_eq!(drive(reset_to_automatic("Ethernet"), &mut runner), Err(WriteError::CommandFailed));
    assert_eq!(runner.calls.len(), 1);
}

#[test]
fn apply_discovers_the_interface_first() {
    let mut runner = FakeRunner::new(vec![listing(), ok(), ok()]);
    assert_eq!(drive(set_dns_impl("9.9.9.9", "149.112.112.112"), &mut runner), Ok(true));
    assert_eq!(runner.calls.len(), 3);
    assert_eq!(runner.calls[0], words(&["netsh", "interface", "show", "interface"]));
    assert_eq!(
        runner.calls[1],
        words(&[
            "netsh", "interface", "ipv4", "set", "dnsservers", "Ethernet", "static", "9.9.9.9",
            "primary", "validate=no",
        ])
    );
    assert_eq!(
        runner.calls[2],
        words(&[
            "netsh", "interface", "ipv4", "add", "dnsservers", "Ethernet", "149.112.112.112",
            "index=2", "validate=no",
        ])
    );
}

#[test]
fn without_an_interface_nothing_is_changed() {
    let mut runner = FakeRunner::new(vec![ok(), ok(), ok()]);
    assert_eq!(drive(set_dns_impl("9.9.9.9", ""), &mut runner), Ok(false));
    assert_eq!(runner.calls, vec![words(&["netsh", "interface", "show", "interface"])]);
    let mut runner = FakeRunner::new(vec![RunReport::Failed, ok(), ok()]);
    assert_eq!(drive(set_dns_impl("9.9.9.9", ""), &mut runner), Ok(false));
    assert_eq!(runner.calls.len(), 1);
    let mut runner = FakeRunner::new(vec![ok(), ok(), ok()]);
    assert_eq!(drive(reset_dns_impl(), &mut runner), Ok(false));
    assert_eq!(runner.calls.len(), 1);
    let mut runner = FakeRunner::new(vec![RunReport::Failed]);
    assert_eq!(drive(reset_dns_impl(), &mut runner), Ok(false));
    assert_eq!(runner.calls.len(), 1);
}

#[test]
fn reset_discovers_the_interface_first() {
    let mut runner = FakeRunner::new(vec![listing(), exit_failure(), ok(), ok()]);
    assert_eq!(drive(reset_dns_impl(), &mut runner), Ok(false));
    assert_eq!(runner.calls.len(), 4);
    assert_eq!(
        runner.calls[1],
        words(&["netsh", "interface", "ipv4", "set", "dnsservers", "Ethernet", "source=dhcp"])
    );
}

#[test]
fn addresses_are_not_checked_again() {
    let mut runner = FakeRunner::new(vec![ok(), ok()]);
    assert_eq!(drive(try_set_dns("Ethernet", "not-an-ip", "nor this"), &mut runner), Ok(true));
    assert_eq!(runner.calls[0][7], "not-an-ip");
    assert_eq!(runner.calls[1][6], "nor this");
}

#[test]
fn report_succeeded_cases() {
    assert!(report_succeeded(&ok()));
    assert!(!report_succeeded(&exit_failure()));
    assert!(!report_succeeded(&RunReport::Failed));
}

#[test]
fn other_commands_word_for_word() {
    let c = Command::show_adapter_details();
    assert_eq!(c.program, "ipconfig");
    assert_eq!(c.args, vec!["/all"]);
    let c = Command::probe_admin();
    assert_eq!(c.program, "powershell");
    assert_eq!(c.args.len(), 3);
    assert_eq!(c.args[0], "-NoProfile");
    assert_eq!(c.args[1], "-Command");
    assert!(c.args[2].ends_with("IsInRole([Security.Principal.WindowsBuiltInRole]::Administrator)"));
}
