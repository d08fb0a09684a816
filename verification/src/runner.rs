//! The boundary to the command runner: the commands that the library asks
//! for, and what the runner reports back for each.

use crate::text::texts_of;
use vstd::prelude::*;

verus! {

/// One invocation of an external program.
#[derive(Debug, Clone)]
pub struct Command {
    pub program: String,
    pub args: Vec<String>,
}

/// What the runner reports for one command.
#[derive(Debug, Clone)]
pub enum RunReport {
    /// The program ran to its end: its captured standard output, and whether
    /// its exit status signalled success.
    Completed { stdout: String, succeeded: bool },
    /// The runner could not run the program at all.
    Failed,
}

/// A command as plain values: the program's name and its arguments.
pub struct CommandText {
    pub program: Seq<char>,
    pub args: Seq<Seq<char>>,
}

impl View for Command {
    type V = CommandText;

    open spec fn view(&self) -> CommandText {
        CommandText { program: self.program@, args: texts_of(self.args@) }
    }
}

/// Lists every network interface with its connection state.
pub open spec fn show_interfaces() -> CommandText {
    CommandText { program: "netsh"@, args: seq!["interface"@, "show"@, "interface"@] }
}

/// Lists every adapter in full detail, DNS servers included.
pub open spec fn show_adapter_details() -> CommandText {
    CommandText { program: "ipconfig"@, args: seq!["/all"@] }
}

/// Makes `primary` the one static DNS server of `interface`, without a
/// reachability check.
pub open spec fn set_primary(interface: Seq<char>, primary: Seq<char>) -> CommandText {
    CommandText {
        program: "netsh"@,
        args: seq![
            "interface"@,
            "ipv4"@,
            "set"@,
            "dnsservers"@,
            interface,
            "static"@,
            primary,
            "primary"@,
            "validate=no"@,
        ],
    }
}

/// Adds `secondary` as the second DNS server of `interface`, without a
/// reachability check.
pub open spec fn add_secondary(interface: Seq<char>, secondary: Seq<char>) -> CommandText {
    CommandText {
        program: "netsh"@,
        args: seq![
            "interface"@,
            "ipv4"@,
            "add"@,
            "dnsservers"@,
            interface,
            secondary,
            "index=2"@,
            "validate=no"@,
        ],
    }
}

/// Lets `interface` take its DNS servers from DHCP again.
pub open spec fn restore_dhcp(interface: Seq<char>) -> CommandText {
    CommandText {
        program: "netsh"@,
        args: seq!["interface"@, "ipv4"@, "set"@, "dnsservers"@, interface, "source=dhcp"@],
    }
}

/// Removes every static DNS entry of `interface`.
pub open spec fn clear_entries(interface: Seq<char>) -> CommandText {
    CommandText {
        program: "netsh"@,
        args: seq!["interface"@, "ipv4"@, "delete"@, "dnsservers"@, interface, "all"@],
    }
}

/// Empties the resolver cache.
pub open spec fn flush_cache() -> CommandText {
    CommandText { program: "ipconfig"@, args: seq!["/flushdns"@] }
}

/// Asks whether the process runs with administrative rights; the program
/// prints `True` or `False`.
pub open spec fn probe_admin() -> CommandText {
    CommandText {
        program: "powershell"@,
        args: seq![
            "-NoProfile"@,
            "-Command"@,
            "([Security.Principal.WindowsPrincipal] [Security.Principal.WindowsIdentity]::GetCurrent()).IsInRole([Security.Principal.WindowsBuiltInRole]::Administrator)"@,
        ],
    }
}

/// Builds a command from its program name and its arguments in order.
fn build(program: &str, words: Vec<&str>) -> (c: Command)
    ensures
        c@.program == program@,
        c@.args == crate::text::views_of(words@),
{
    let mut args: Vec<String> = Vec::new();
    let mut i: usize = 0;
    while i < words.len()
        invariant
            i <= words.len(),
            args.len() == i,
            forall|k: int| 0 <= k < i ==> args[k]@ == words[k]@,
        decreases words.len() - i,
    {
        args.push(String::from_str(words[i]));
        i = i + 1;
    }
    let c = Command { program: String::from_str(program), args };
    assert(c@.args =~~= crate::text::views_of(words@));
    c
}

impl Command {
    /// The command that lists every interface with its connection state.
    pub fn show_interfaces() -> (c: Command)
        ensures
            c@ == show_interfaces(),
    {
        let c = build("netsh", vec!["interface", "show", "interface"]);
        assert(c@.args =~~= show_interfaces().args);
        c
    }

    /// The command that lists every adapter in full detail.
    pub fn show_adapter_details() -> (c: Command)
        ensures
            c@ == show_adapter_details(),
    {
        let c = build("ipconfig", vec!["/all"]);
        assert(c@.args =~~= show_adapter_details().args);
        c
    }

    /// The command that makes `primary` the static DNS server of `interface`.
    pub fn set_primary(interface: &str, primary: &str) -> (c: Command)
        ensures
            c@ == set_primary(interface@, primary@),
    {
        let c = build(
            "netsh",
            vec![
                "interface",
                "ipv4",
                "set",
                "dnsservers",
                interface,
                "static",
                primary,
                "primary",
                "validate=no",
            ],
        );
        assert(c@.args =~~= set_primary(interface@, primary@).args);
        c
    }

    /// The command that adds `secondary` as second DNS server of `interface`.
    pub fn add_secondary(interface: &str, secondary: &str) -> (c: Command)
        ensures
            c@ == add_secondary(interface@, secondary@),
    {
        let c = build(
            "netsh",
            vec![
                "interface",
                "ipv4",
                "add",
                "dnsservers",
                interface,
                secondary,
                "index=2",
                "validate=no",
            ],
        );
        assert(c@.args =~~= add_secondary(interface@, secondary@).args);
        c
    }

    /// The command that hands the DNS servers of `interface` back to DHCP.
    pub fn restore_dhcp(interface: &str) -> (c: Command)
        ensures
            c@ == restore_dhcp(interface@),
    {
        let c = build(
            "netsh",
            vec!["interface", "ipv4", "set", "dnsservers", interface, "source=dhcp"],
        );
        assert(c@.args =~~= restore_dhcp(interface@).args);
        c
    }

    /// The command that removes every static DNS entry of `interface`.
    pub fn clear_entries(interface: &str) -> (c: Command)
        ensures
            c@ == clear_entries(interface@),
    {
        let c = build("netsh", vec!["interface", "ipv4", "delete", "dnsservers", interface, "all"]);
        assert(c@.args =~~= clear_entries(interface@).args);
        c
    }

    /// The command that empties the resolver cache.
    pub fn flush_cache() -> (c: Command)
        ensures
            c@ == flush_cache(),
    {
        let c = build("ipconfig", vec!["/flushdns"]);
        assert(c@.args =~~= flush_cache().args);
        c
    }

    /// The command that asks for the process's administrative rights.
    pub fn probe_admin() -> (c: Command)
        ensures
            c@ == probe_admin(),
    {
        let c = build(
            "powershell",
            vec![
                "-NoProfile",
                "-Command",
                "([Security.Principal.WindowsPrincipal] [Security.Principal.WindowsIdentity]::GetCurrent()).IsInRole([Security.Principal.WindowsBuiltInRole]::Administrator)",
            ],
        );
        assert(c@.args =~~= probe_admin().args);
        c
    }
}

} // verus!
