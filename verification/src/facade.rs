//! The operations that the application offers: show the current DNS servers,
//! apply a pair of servers, go back to automatic configuration, and ask for
//! administrative rights. Each is a state machine over the command runner's
//! reports, and none of them fails: every way an operation can go wrong ends
//! in an ordinary result with a fixed message.

use crate::discover::{discovered, get_connected_interface_name};
use crate::ipv4::{is_ipv4, is_valid_ip};
use crate::reader::{get_dns_from_ipconfig, servers_read};
use crate::runner::{probe_admin, show_adapter_details, show_interfaces, Command, CommandText, RunReport};
use crate::text::{lowercase_of, occurs_at, starts_with, texts_of, to_lowercase, trim, trimmed};
use crate::writer::{
    advance, apply_search_start, reset_dns_impl, reset_search_start, set_dns_impl, WriteError,
    WriterState, WriterStateText, WriterStep, WriterStepText,
};
use vstd::prelude::*;

verus! {

/// The DNS configuration of the active interface.
#[derive(Debug)]
pub struct DnsInfo {
    interface_name: String,
    servers: Vec<String>,
    is_automatic: bool,
}

/// A DNS configuration as plain values.
pub struct DnsInfoText {
    pub interface_name: Seq<char>,
    pub servers: Seq<Seq<char>>,
    pub is_automatic: bool,
}

/// The outcome of an operation: whether it succeeded, and a message for the
/// user.
#[derive(Debug, Clone)]
pub struct CommandResult {
    success: bool,
    message: String,
}

/// An outcome as plain values.
pub struct CommandResultText {
    pub success: bool,
    pub message: Seq<char>,
}

impl View for DnsInfo {
    type V = DnsInfoText;

    closed spec fn view(&self) -> DnsInfoText {
        DnsInfoText {
            interface_name: self.interface_name@,
            servers: texts_of(self.servers@),
            is_automatic: self.is_automatic,
        }
    }
}

impl View for CommandResult {
    type V = CommandResultText;

    closed spec fn view(&self) -> CommandResultText {
        CommandResultText { success: self.success, message: self.message@ }
    }
}

/// The configuration of `interface_name` with the servers `servers`: it is
/// automatic exactly when there are no servers.
pub open spec fn configuration(interface_name: Seq<char>, servers: Seq<Seq<char>>) -> DnsInfoText {
    DnsInfoText { interface_name, servers, is_automatic: servers.len() == 0 }
}

/// The name that stands for the interface when none is active.
pub open spec fn unknown_interface() -> Seq<char> {
    "Bilinmiyor"@
}

impl DnsInfo {
    /// A configuration is automatic exactly when it lists no server.
    #[verifier::type_invariant]
    spec fn well_formed(self) -> bool {
        self.is_automatic == (self.servers@.len() == 0)
    }

    /// The configuration of `interface_name` with the servers `servers`.
    pub fn new(interface_name: String, servers: Vec<String>) -> (info: DnsInfo)
        ensures
            info@ == configuration(interface_name@, texts_of(servers@)),
    {
        let is_automatic = servers.len() == 0;
        DnsInfo { interface_name, servers, is_automatic }
    }

    /// The interface's name.
    pub fn interface_name(&self) -> (name: &str)
        ensures
            name@ == self@.interface_name,
    {
        self.interface_name.as_str()
    }

    /// The interface's DNS servers, in order.
    pub fn servers(&self) -> (servers: &Vec<String>)
        ensures
            texts_of(servers@) == self@.servers,
    {
        &self.servers
    }

    /// Whether the interface takes its DNS servers from DHCP: exactly when
    /// it lists none of its own.
    pub fn is_automatic(&self) -> (b: bool)
        ensures
            b == self@.is_automatic,
            b == (self@.servers.len() == 0),
    {
        proof {
            use_type_invariant(self);
        }
        self.is_automatic
    }
}

impl Clone for DnsInfo {
    fn clone(&self) -> (copy: DnsInfo)
        ensures
            copy@ == self@,
    {
        proof {
            use_type_invariant(self);
        }
        let mut servers: Vec<String> = Vec::new();
        let mut i: usize = 0;
        while i < self.servers.len()
            invariant
                i <= self.servers.len(),
                servers.len() == i,
                forall|k: int| 0 <= k < i ==> servers[k]@ == self.servers[k]@,
            decreases self.servers.len() - i,
        {
            servers.push(self.servers[i].clone());
            i = i + 1;
        }
        assert(texts_of(servers@) =~= texts_of(self.servers@));
        DnsInfo {
            interface_name: self.interface_name.clone(),
            servers,
            is_automatic: self.is_automatic,
        }
    }
}

impl CommandResult {
    /// An outcome.
    pub fn new(success: bool, message: String) -> (result: CommandResult)
        ensures
            result@ == (CommandResultText { success, message: message@ }),
    {
        CommandResult { success, message }
    }

    /// Whether the operation succeeded.
    pub fn success(&self) -> (b: bool)
        ensures
            b == self@.success,
    {
        self.success
    }

    /// The message for the user.
    pub fn message(&self) -> (m: &str)
        ensures
            m@ == self@.message,
    {
        self.message.as_str()
    }
}

/// Which operation an outcome is worded for.
#[derive(Debug, Clone)]
pub enum Reply {
    /// Servers applied from the window.
    SetDns,
    /// Automatic configuration restored from the window.
    ResetDns,
    /// The profile `name` applied from the tray menu.
    TraySetDns { name: String },
    /// Automatic configuration restored from the tray menu.
    TrayResetDns,
}

/// A reply kind as plain values.
pub enum ReplyText {
    SetDns,
    ResetDns,
    TraySetDns { name: Seq<char> },
    TrayResetDns,
}

impl View for Reply {
    type V = ReplyText;

    open spec fn view(&self) -> ReplyText {
        match *self {
            Reply::SetDns => ReplyText::SetDns,
            Reply::ResetDns => ReplyText::ResetDns,
            Reply::TraySetDns { name } => ReplyText::TraySetDns { name: name@ },
            Reply::TrayResetDns => ReplyText::TrayResetDns,
        }
    }
}

/// The outcome for an address that is no dotted quad.
pub open spec fn invalid_address() -> CommandResultText {
    CommandResultText { success: false, message: "Geçersiz IP"@ }
}

/// The outcome of a writing operation: a success exactly for `Ok(true)`.
/// `Ok(false)` and an error are worded alike.
pub open spec fn outcome_of(reply: ReplyText, result: Result<bool, WriteError>) -> CommandResultText {
    let success = result == Ok::<bool, WriteError>(true);
    let message = match reply {
        ReplyText::SetDns => if success {
            "DNS Uygulandı"@
        } else {
            "Hata: Yönetici Yetkisi?"@
        },
        ReplyText::ResetDns => if success {
            "Varsayılana dönüldü"@
        } else {
            "Hata"@
        },
        ReplyText::TraySetDns { name } => if success {
            name + " başarıyla uygulandı!"@
        } else {
            name + " uygulanamadı! Yönetici olarak çalıştırın."@
        },
        ReplyText::TrayResetDns => if success {
            "Sistem varsayılanına dönüldü!"@
        } else {
            "Sıfırlama başarısız! Yönetici olarak çalıştırın."@
        },
    };
    CommandResultText { success, message }
}

/// A writing operation under way, and the wording its outcome will take.
#[derive(Debug, Clone)]
pub struct Pending {
    pub writer: WriterState,
    pub reply: Reply,
}

/// A writing operation under way as plain values.
pub struct PendingText {
    pub writer: WriterStateText,
    pub reply: ReplyText,
}

impl View for Pending {
    type V = PendingText;

    open spec fn view(&self) -> PendingText {
        PendingText { writer: self.writer@, reply: self.reply@ }
    }
}

/// What to do next in a writing operation: run a command and come back with
/// its report, or stop with the outcome.
#[derive(Debug)]
pub enum FacadeStep {
    Run(Pending, Command),
    Done(CommandResult),
}

/// A step as plain values.
pub enum FacadeStepText {
    Run(PendingText, CommandText),
    Done(CommandResultText),
}

impl View for FacadeStep {
    type V = FacadeStepText;

    open spec fn view(&self) -> FacadeStepText {
        match *self {
            FacadeStep::Run(pending, command) => FacadeStepText::Run(pending@, command@),
            FacadeStep::Done(result) => FacadeStepText::Done(result@),
        }
    }
}

/// The step that starts a writing operation: its first state and command,
/// and the wording its outcome will take.
pub open spec fn started(start: (WriterStateText, CommandText), reply: ReplyText) -> FacadeStepText {
    FacadeStepText::Run(PendingText { writer: start.0, reply }, start.1)
}

/// The wording for the profile `name` applied from the tray menu.
pub open spec fn tray_reply(name: Seq<char>) -> ReplyText {
    ReplyText::TraySetDns { name }
}

/// The first step of applying `primary` and `secondary` from the window: an
/// invalid primary address is turned down before any command is run.
pub open spec fn set_dns_start(primary: Seq<char>, secondary: Seq<char>) -> FacadeStepText {
    if !is_ipv4(primary) {
        FacadeStepText::Done(invalid_address())
    } else {
        started(apply_search_start(primary, secondary), ReplyText::SetDns)
    }
}

/// The step that follows `pending` when the runner reports `report` on the
/// command under way.
pub open spec fn resume(pending: PendingText, report: RunReport) -> FacadeStepText {
    match advance(pending.writer, report) {
        WriterStepText::Run(writer, command) => FacadeStepText::Run(
            PendingText { writer, reply: pending.reply },
            command,
        ),
        WriterStepText::Finished(result) => FacadeStepText::Done(outcome_of(pending.reply, result)),
    }
}

impl Reply {
    /// The outcome of a writing operation that ended with `result`.
    pub fn outcome(&self, result: Result<bool, WriteError>) -> (r: CommandResult)
        ensures
            r@ == outcome_of(self@, result),
    {
        let success = match result {
            Ok(done) => done,
            Err(_) => false,
        };
        let message = match self {
            Reply::SetDns => if success {
                String::from_str("DNS Uygulandı")
            } else {
                String::from_str("Hata: Yönetici Yetkisi?")
            },
            Reply::ResetDns => if success {
                String::from_str("Varsayılana dönüldü")
            } else {
                String::from_str("Hata")
            },
            Reply::TraySetDns { name } => if success {
                String::from_str(name.as_str()).concat(" başarıyla uygulandı!")
            } else {
                String::from_str(name.as_str()).concat(
                    " uygulanamadı! Yönetici olarak çalıştırın.",
                )
            },
            Reply::TrayResetDns => if success {
                String::from_str("Sistem varsayılanına dönüldü!")
            } else {
                String::from_str("Sıfırlama başarısız! Yönetici olarak çalıştırın.")
            },
        };
        CommandResult::new(success, message)
    }
}

impl Pending {
    /// The step that follows when the runner reports `report` on the
    /// command under way.
    pub fn advance(self, report: &RunReport) -> (step: FacadeStep)
        ensures
            step@ == resume(self@, *report),
    {
        let Pending { writer, reply } = self;
        match writer.advance(report) {
            WriterStep::Run(next, command) => FacadeStep::Run(
                Pending { writer: next, reply },
                command,
            ),
            WriterStep::Finished(result) => FacadeStep::Done(reply.outcome(result)),
        }
    }
}

/// Starts a writing operation whose first command is the status listing.
fn begin(start: (WriterState, Command), reply: Reply) -> (step: FacadeStep)
    ensures
        step@ == started((start.0@, start.1@), reply@),
{
    let (writer, command) = start;
    FacadeStep::Run(Pending { writer, reply }, command)
}

/// Starts applying `primary`, and `secondary` unless it is empty, to the
/// active interface. A primary address that is no dotted quad is turned down
/// at once, with a message of its own and without any command; the secondary
/// address is taken as it is.
pub fn set_dns(primary: &str, secondary: &str) -> (step: FacadeStep)
    ensures
        step@ == set_dns_start(primary@, secondary@),
{
    if !is_valid_ip(primary) {
        return FacadeStep::Done(CommandResult::new(false, String::from_str("Geçersiz IP")));
    }
    begin(set_dns_impl(primary, secondary), Reply::SetDns)
}

/// Starts handing the active interface back to DHCP.
pub fn reset_dns() -> (step: FacadeStep)
    ensures
        step@ == started(reset_search_start(), ReplyText::ResetDns),
{
    begin(reset_dns_impl(), Reply::ResetDns)
}

/// Starts applying the profile `name`, with the servers `primary` and
/// `secondary`, from the tray menu. The addresses are taken as they are.
pub fn tray_set_dns(primary: &str, secondary: &str, name: &str) -> (step: FacadeStep)
    ensures
        step@ == started(apply_search_start(primary@, secondary@), tray_reply(name@)),
{
    begin(set_dns_impl(primary, secondary), Reply::TraySetDns { name: String::from_str(name) })
}

/// Starts handing the active interface back to DHCP from the tray menu.
pub fn tray_reset_dns() -> (step: FacadeStep)
    ensures
        step@ == started(reset_search_start(), ReplyText::TrayResetDns),
{
    begin(reset_dns_impl(), Reply::TrayResetDns)
}

/// Where the query for the current configuration stands.
#[derive(Debug, Clone)]
pub enum QueryState {
    /// The status listing is under way.
    Finding,
    /// The detail listing is under way, to be read for `interface`.
    Reading { interface: String },
}

/// A query state as plain values.
pub enum QueryStateText {
    Finding,
    Reading { interface: Seq<char> },
}

impl View for QueryState {
    type V = QueryStateText;

    open spec fn view(&self) -> QueryStateText {
        match *self {
            QueryState::Finding => QueryStateText::Finding,
            QueryState::Reading { interface } => QueryStateText::Reading { interface: interface@ },
        }
    }
}

/// What to do next in the query: run a command and come back with its
/// report, or stop with the configuration.
#[derive(Debug)]
pub enum QueryStep {
    Run(QueryState, Command),
    Done(DnsInfo),
}

/// A query step as plain values.
pub enum QueryStepText {
    Run(QueryStateText, CommandText),
    Done(DnsInfoText),
}

impl View for QueryStep {
    type V = QueryStepText;

    open spec fn view(&self) -> QueryStepText {
        match *self {
            QueryStep::Run(state, command) => QueryStepText::Run(state@, command@),
            QueryStep::Done(info) => QueryStepText::Done(info@),
        }
    }
}

/// The step that follows `state` when the runner reports `report` on the
/// command under way.
///
/// Without an active interface the configuration goes by the name for an
/// unknown interface and is automatic. Else the detail listing is read for
/// the interface that was found; if the listing cannot be had, the interface
/// counts as automatic.
pub open spec fn query_advance(state: QueryStateText, report: RunReport) -> QueryStepText {
    match state {
        QueryStateText::Finding => match discovered(report) {
            Ok(interface) => QueryStepText::Run(
                QueryStateText::Reading { interface },
                show_adapter_details(),
            ),
            Err(_) => QueryStepText::Done(configuration(unknown_interface(), Seq::empty())),
        },
        QueryStateText::Reading { interface } => match servers_read(interface, report) {
            Ok(servers) => QueryStepText::Done(configuration(interface, servers)),
            Err(_) => QueryStepText::Done(configuration(interface, Seq::empty())),
        },
    }
}

/// Starts the query for the current configuration: the first state, and the
/// status listing command to run first.
pub fn get_current_dns() -> (r: (QueryState, Command))
    ensures
        r.0@ == QueryStateText::Finding,
        r.1@ == show_interfaces(),
{
    (QueryState::Finding, Command::show_interfaces())
}

impl QueryState {
    /// The step that follows this state when the runner reports `report`
    /// on the command under way.
    pub fn advance(self, report: &RunReport) -> (step: QueryStep)
        ensures
            step@ == query_advance(self@, *report),
    {
        match self {
            QueryState::Finding => match get_connected_interface_name(report) {
                Ok(interface) => QueryStep::Run(
                    QueryState::Reading { interface },
                    Command::show_adapter_details(),
                ),
                Err(_) => {
                    let none: Vec<String> = Vec::new();
                    assert(texts_of(none@) =~= Seq::<Seq<char>>::empty());
                    QueryStep::Done(DnsInfo::new(String::from_str("Bilinmiyor"), none))
                },
            },
            QueryState::Reading { interface } => {
                match get_dns_from_ipconfig(interface.as_str(), report) {
                    Ok(servers) => QueryStep::Done(DnsInfo::new(interface, servers)),
                    Err(_) => {
                        let none: Vec<String> = Vec::new();
                        assert(texts_of(none@) =~= Seq::<Seq<char>>::empty());
                        QueryStep::Done(DnsInfo::new(interface, none))
                    },
                }
            },
        }
    }
}

/// Whether the answer of the rights probe, trimmed and in lowercase, says
/// that the process has administrative rights: it begins with `true`.
pub open spec fn says_admin(lower: Seq<char>) -> bool {
    occurs_at(lower, "true"@, 0)
}

/// Whether the process has administrative rights according to what the
/// runner reported for the rights probe. A probe that could not be run counts
/// as no.
pub open spec fn is_admin(report: RunReport) -> bool {
    match report {
        RunReport::Completed { stdout, .. } => says_admin(lowercase_of(trimmed(stdout@))),
        RunReport::Failed => false,
    }
}

/// The command that asks for the process's administrative rights.
pub fn check_admin_command() -> (c: Command)
    ensures
        c@ == probe_admin(),
{
    Command::probe_admin()
}

/// Whether the probe's answer, trimmed and in lowercase, says yes.
pub fn answer_says_admin(lower: &str) -> (b: bool)
    ensures
        b == says_admin(lower@),
{
    starts_with(lower, "true")
}

/// Whether the process has administrative rights according to what the
/// runner reported for the rights probe.
pub fn check_admin(report: &RunReport) -> (b: bool)
    ensures
        b == is_admin(*report),
{
    match report {
        RunReport::Completed { stdout, .. } => {
            let lower = to_lowercase(trim(stdout.as_str()));
            answer_says_admin(lower.as_str())
        },
        RunReport::Failed => false,
    }
}

} // verus!
