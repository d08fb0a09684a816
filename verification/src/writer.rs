//! Applies static DNS servers to an interface, or hands the interface back
//! to DHCP.
//!
//! The library runs no program itself. Each operation is a state machine: it
//! starts with a state and a first command, and `WriterState::advance` turns
//! the state and the runner's report on the command into the next state and
//! command, or into the operation's result. Whoever owns the runner runs each
//! command and hands the report back.

use crate::discover::{discovered, get_connected_interface_name, DiscoveryError};
use crate::runner::{
    add_secondary, clear_entries, flush_cache, restore_dhcp, set_primary, show_interfaces, Command,
    CommandText, RunReport,
};
use vstd::prelude::*;

verus! {

/// Why a writing operation broke off.
#[derive(Debug, Clone, Copy, PartialEq, Eq)]
pub enum WriteError {
    /// The runner could not run the command that decides the outcome.
    CommandFailed,
}

/// Where a writing operation stands: which command is under way, and what
/// the steps after it need to know.
#[derive(Debug, Clone)]
pub enum WriterState {
    /// The status listing is under way; static servers are to be applied.
    FindingForApply { primary: String, secondary: String },
    /// The command that sets the primary server is under way.
    SettingPrimary { interface: String, secondary: String },
    /// The command that adds the secondary server is under way.
    AddingSecondary,
    /// The status listing is under way; DHCP is to be restored.
    FindingForReset,
    /// The command that restores DHCP is under way.
    RestoringDhcp { interface: String },
    /// The command that removes the static entries is under way.
    ClearingEntries { restored: bool },
    /// The command that empties the resolver cache is under way.
    FlushingCache { restored: bool },
}

/// What to do next: run a command and come back with its report, or stop
/// with the operation's result.
#[derive(Debug)]
pub enum WriterStep {
    Run(WriterState, Command),
    Finished(Result<bool, WriteError>),
}

/// A state as plain values.
pub enum WriterStateText {
    FindingForApply { primary: Seq<char>, secondary: Seq<char> },
    SettingPrimary { interface: Seq<char>, secondary: Seq<char> },
    AddingSecondary,
    FindingForReset,
    RestoringDhcp { interface: Seq<char> },
    ClearingEntries { restored: bool },
    FlushingCache { restored: bool },
}

/// A step as plain values.
pub enum WriterStepText {
    Run(WriterStateText, CommandText),
    Finished(Result<bool, WriteError>),
}

impl View for WriterState {
    type V = WriterStateText;

    open spec fn view(&self) -> WriterStateText {
        match *self {
            WriterState::FindingForApply { primary, secondary } => {
                WriterStateText::FindingForApply { primary: primary@, secondary: secondary@ }
            },
            WriterState::SettingPrimary { interface, secondary } => {
                WriterStateText::SettingPrimary { interface: interface@, secondary: secondary@ }
            },
            WriterState::AddingSecondary => WriterStateText::AddingSecondary,
            WriterState::FindingForReset => WriterStateText::FindingForReset,
            WriterState::RestoringDhcp { interface } => WriterStateText::RestoringDhcp {
                interface: interface@,
            },
            WriterState::ClearingEntries { restored } => WriterStateText::ClearingEntries {
                restored,
            },
            WriterState::FlushingCache { restored } => WriterStateText::FlushingCache { restored },
        }
    }
}

impl View for WriterStep {
    type V = WriterStepText;

    open spec fn view(&self) -> WriterStepText {
        match *self {
            WriterStep::Run(state, command) => WriterStepText::Run(state@, command@),
            WriterStep::Finished(result) => WriterStepText::Finished(result),
        }
    }
}

/// Whether the runner reports that the program ran and signalled success.
pub open spec fn succeeded(report: RunReport) -> bool {
    report matches RunReport::Completed { succeeded: true, .. }
}

/// Starting to apply static servers to a known interface: the first state
/// and command.
pub open spec fn apply_start(interface: Seq<char>, primary: Seq<char>, secondary: Seq<char>) -> (
    WriterStateText,
    CommandText,
) {
    (WriterStateText::SettingPrimary { interface, secondary }, set_primary(interface, primary))
}

/// Starting to restore DHCP on a known interface: the first state and
/// command.
pub open spec fn reset_start(interface: Seq<char>) -> (WriterStateText, CommandText) {
    (WriterStateText::RestoringDhcp { interface }, restore_dhcp(interface))
}

/// Starting to apply static servers to whichever interface is active: the
/// first state, and the status listing as first command.
pub open spec fn apply_search_start(primary: Seq<char>, secondary: Seq<char>) -> (
    WriterStateText,
    CommandText,
) {
    (WriterStateText::FindingForApply { primary, secondary }, show_interfaces())
}

/// Starting to restore DHCP on whichever interface is active: the first
/// state, and the status listing as first command.
pub open spec fn reset_search_start() -> (WriterStateText, CommandText) {
    (WriterStateText::FindingForReset, show_interfaces())
}

/// The step that follows `state` when the runner reports `report` on the
/// command under way.
///
/// Applying: without an active interface nothing is run and the result is
/// `Ok(false)`. If the primary server cannot be set, the result is `Ok(false)`
/// and the secondary server is not tried; if the command could not even be
/// run, the operation breaks off with `CommandFailed`. A secondary server, if
/// one was given, is added after that, and how that goes does not matter.
///
/// Restoring: the exit status of the DHCP command alone decides the result.
/// Removing the static entries and emptying the cache follow in any case, and
/// how they go does not matter. If the DHCP command could not be run at all,
/// the operation breaks off with `CommandFailed` and nothing follows.
pub open spec fn advance(state: WriterStateText, report: RunReport) -> WriterStepText {
    match state {
        WriterStateText::FindingForApply { primary, secondary } => match discovered(report) {
            Ok(interface) => {
                let (next, command) = apply_start(interface, primary, secondary);
                WriterStepText::Run(next, command)
            },
            Err(_) => WriterStepText::Finished(Ok(false)),
        },
        WriterStateText::SettingPrimary { interface, secondary } => match report {
            RunReport::Failed => WriterStepText::Finished(Err(WriteError::CommandFailed)),
            RunReport::Completed { succeeded, .. } => if !succeeded {
                WriterStepText::Finished(Ok(false))
            } else if secondary.len() == 0 {
                WriterStepText::Finished(Ok(true))
            } else {
                WriterStepText::Run(
                    WriterStateText::AddingSecondary,
                    add_secondary(interface, secondary),
                )
            },
        },
        WriterStateText::AddingSecondary => WriterStepText::Finished(Ok(true)),
        WriterStateText::FindingForReset => match discovered(report) {
            Ok(interface) => {
                let (next, command) = reset_start(interface);
                WriterStepText::Run(next, command)
            },
            Err(_) => WriterStepText::Finished(Ok(false)),
        },
        WriterStateText::RestoringDhcp { interface } => match report {
            RunReport::Failed => WriterStepText::Finished(Err(WriteError::CommandFailed)),
            RunReport::Completed { succeeded, .. } => WriterStepText::Run(
                WriterStateText::ClearingEntries { restored: succeeded },
                clear_entries(interface),
            ),
        },
        WriterStateText::ClearingEntries { restored } => WriterStepText::Run(
            WriterStateText::FlushingCache { restored },
            flush_cache(),
        ),
        WriterStateText::FlushingCache { restored } => WriterStepText::Finished(Ok(restored)),
    }
}

/// A run of an operation: the commands that were issued, in order, and the
/// result, if the operation came to its end.
pub struct RunText {
    pub issued: Seq<CommandText>,
    pub result: Option<Result<bool, WriteError>>,
}

/// The run that starts in `state` with `command` when the runner answers
/// the commands, in order, with `reports`. The run is cut short where the
/// reports end.
pub open spec fn run_from(state: WriterStateText, command: CommandText, reports: Seq<RunReport>) -> RunText
    decreases reports.len(),
{
    if reports.len() == 0 {
        RunText { issued: seq![command], result: None }
    } else {
        match advance(state, reports[0]) {
            WriterStepText::Run(next, following) => {
                let rest = run_from(next, following, reports.drop_first());
                RunText { issued: seq![command] + rest.issued, result: rest.result }
            },
            WriterStepText::Finished(result) => RunText {
                issued: seq![command],
                result: Some(result),
            },
        }
    }
}

/// The run that applies `primary` and `secondary` to `interface`.
pub open spec fn apply_run(
    interface: Seq<char>,
    primary: Seq<char>,
    secondary: Seq<char>,
    reports: Seq<RunReport>,
) -> RunText {
    run_from(
        apply_start(interface, primary, secondary).0,
        apply_start(interface, primary, secondary).1,
        reports,
    )
}

/// The run that restores DHCP on `interface`.
pub open spec fn reset_run(interface: Seq<char>, reports: Seq<RunReport>) -> RunText {
    run_from(reset_start(interface).0, reset_start(interface).1, reports)
}

/// The run that applies `primary` and `secondary` to whichever interface is
/// active.
pub open spec fn apply_search_run(
    primary: Seq<char>,
    secondary: Seq<char>,
    reports: Seq<RunReport>,
) -> RunText {
    run_from(
        apply_search_start(primary, secondary).0,
        apply_search_start(primary, secondary).1,
        reports,
    )
}

/// The run that restores DHCP on whichever interface is active.
pub open spec fn reset_search_run(reports: Seq<RunReport>) -> RunText {
    run_from(reset_search_start().0, reset_search_start().1, reports)
}

/// The run in which the first command is the only one issued, and which
/// ends with `result`.
pub open spec fn stopped_after(command: CommandText, result: Result<bool, WriteError>) -> RunText {
    RunText { issued: seq![command], result: Some(result) }
}

/// When the primary server cannot be set, the secondary server is never
/// tried: whatever the runner would report afterwards, the command for the
/// primary server is the only one issued, and the operation does not succeed.
pub proof fn lemma_failed_primary_stops(
    interface: Seq<char>,
    primary: Seq<char>,
    secondary: Seq<char>,
    reports: Seq<RunReport>,
)
    requires
        reports.len() >= 1,
        !succeeded(reports[0]),
    ensures
        apply_run(interface, primary, secondary, reports).issued == seq![
            set_primary(interface, primary),
        ],
        apply_run(interface, primary, secondary, reports).result == Some(
            if reports[0] is Failed {
                Err::<bool, WriteError>(WriteError::CommandFailed)
            } else {
                Ok::<bool, WriteError>(false)
            },
        ),
{
}

/// Once the primary server is set, the operation succeeds: a secondary
/// server is tried if one was given, and whatever the runner reports on it,
/// the result is `Ok(true)`.
pub proof fn lemma_secondary_is_best_effort(
    interface: Seq<char>,
    primary: Seq<char>,
    secondary: Seq<char>,
    reports: Seq<RunReport>,
)
    requires
        reports.len() >= 2,
        succeeded(reports[0]),
    ensures
        apply_run(interface, primary, secondary, reports).result == Some(
            Ok::<bool, WriteError>(true),
        ),
        apply_run(interface, primary, secondary, reports).issued == (if secondary.len() == 0 {
            seq![set_primary(interface, primary)]
        } else {
            seq![set_primary(interface, primary), add_secondary(interface, secondary)]
        }),
{
    let tail = reports.drop_first();
    assert(tail.len() >= 1);
    if secondary.len() > 0 {
        let rest = run_from(
            WriterStateText::AddingSecondary,
            add_secondary(interface, secondary),
            tail,
        );
        assert(rest.issued == seq![add_secondary(interface, secondary)]);
        assert(seq![set_primary(interface, primary)] + rest.issued =~= seq![
            set_primary(interface, primary),
            add_secondary(interface, secondary),
        ]);
    }
}

/// Restoring DHCP succeeds exactly when the DHCP command does: when the
/// runner could run that command, the two clean-up commands follow, and
/// whatever the runner reports on them, the result is the exit status of the
/// DHCP command.
pub proof fn lemma_reset_result_is_dhcp_status(interface: Seq<char>, reports: Seq<RunReport>)
    requires
        reports.len() >= 3,
        !(reports[0] is Failed),
    ensures
        reset_run(interface, reports).result == Some(
            Ok::<bool, WriteError>(succeeded(reports[0])),
        ),
        reset_run(interface, reports).issued == seq![
            restore_dhcp(interface),
            clear_entries(interface),
            flush_cache(),
        ],
{
    let restored = succeeded(reports[0]);
    let r1 = reports.drop_first();
    let r2 = r1.drop_first();
    assert(r1.len() >= 2 && r2.len() >= 1);
    let last = run_from(WriterStateText::FlushingCache { restored }, flush_cache(), r2);
    assert(last.issued == seq![flush_cache()]);
    assert(last.result == Some(Ok::<bool, WriteError>(restored)));
    let middle = run_from(
        WriterStateText::ClearingEntries { restored },
        clear_entries(interface),
        r1,
    );
    assert(middle.issued =~= seq![clear_entries(interface), flush_cache()]);
    assert(middle.result == last.result);
    assert(seq![restore_dhcp(interface)] + middle.issued =~= seq![
        restore_dhcp(interface),
        clear_entries(interface),
        flush_cache(),
    ]);
}

/// Without an active interface no command changes anything: when the status
/// listing names no connected adapter, or could not be had, the listing
/// command is the only one issued and the result is `Ok(false)`, for applying
/// as for restoring.
pub proof fn lemma_no_interface_no_change(
    primary: Seq<char>,
    secondary: Seq<char>,
    reports: Seq<RunReport>,
)
    requires
        reports.len() >= 1,
        discovered(reports[0]) is Err,
    ensures
        apply_search_run(primary, secondary, reports) == stopped_after(show_interfaces(), Ok(false)),
        reset_search_run(reports) == stopped_after(show_interfaces(), Ok(false)),
{
}

/// Once the active interface is found, the operation goes on as if it had
/// been started on that interface: the listing command is issued first, and
/// what follows is the run on the interface that the listing names.
pub proof fn lemma_search_then_run(
    primary: Seq<char>,
    secondary: Seq<char>,
    reports: Seq<RunReport>,
)
    requires
        reports.len() >= 1,
        discovered(reports[0]) is Ok,
    ensures
        apply_search_run(primary, secondary, reports).issued == seq![show_interfaces()]
            + apply_run(
            discovered(reports[0])->Ok_0,
            primary,
            secondary,
            reports.drop_first(),
        ).issued,
        apply_search_run(primary, secondary, reports).result == apply_run(
            discovered(reports[0])->Ok_0,
            primary,
            secondary,
            reports.drop_first(),
        ).result,
        reset_search_run(reports).issued == seq![show_interfaces()] + reset_run(
            discovered(reports[0])->Ok_0,
            reports.drop_first(),
        ).issued,
        reset_search_run(reports).result == reset_run(
            discovered(reports[0])->Ok_0,
            reports.drop_first(),
        ).result,
{
}

/// Starts applying `primary`, and `secondary` unless it is empty, to
/// `interface`: the first state, and the command to run first. The addresses
/// are taken as they are; checking them is the caller's part.
pub fn try_set_dns(interface: &str, primary: &str, secondary: &str) -> (r: (WriterState, Command))
    ensures
        (r.0@, r.1@) == apply_start(interface@, primary@, secondary@),
{
    (
        WriterState::SettingPrimary {
            interface: String::from_str(interface),
            secondary: String::from_str(secondary),
        },
        Command::set_primary(interface, primary),
    )
}

/// Starts restoring DHCP on `interface`: the first state, and the command
/// to run first.
pub fn reset_to_automatic(interface: &str) -> (r: (WriterState, Command))
    ensures
        (r.0@, r.1@) == reset_start(interface@),
{
    (
        WriterState::RestoringDhcp { interface: String::from_str(interface) },
        Command::restore_dhcp(interface),
    )
}

/// Starts applying `primary`, and `secondary` unless it is empty, to
/// whichever interface is active: the first state, and the status listing
/// command to run first.
pub fn set_dns_impl(primary: &str, secondary: &str) -> (r: (WriterState, Command))
    ensures
        (r.0@, r.1@) == apply_search_start(primary@, secondary@),
{
    (
        WriterState::FindingForApply {
            primary: String::from_str(primary),
            secondary: String::from_str(secondary),
        },
        Command::show_interfaces(),
    )
}

/// Starts restoring DHCP on whichever interface is active: the first state,
/// and the status listing command to run first.
pub fn reset_dns_impl() -> (r: (WriterState, Command))
    ensures
        (r.0@, r.1@) == reset_search_start(),
{
    (WriterState::FindingForReset, Command::show_interfaces())
}

/// Whether the runner reports that the program ran and signalled success.
pub fn report_succeeded(report: &RunReport) -> (b: bool)
    ensures
        b == succeeded(*report),
{
    match report {
        RunReport::Completed { succeeded, .. } => *succeeded,
        RunReport::Failed => false,
    }
}

impl WriterState {
    /// The step that follows this state when the runner reports `report` on
    /// the command under way.
    pub fn advance(self, report: &RunReport) -> (step: WriterStep)
        ensures
            step@ == advance(self@, *report),
    {
        match self {
            WriterState::FindingForApply { primary, secondary } => {
                match get_connected_interface_name(report) {
                    Ok(interface) => {
                        let (next, command) = try_set_dns(
                            interface.as_str(),
                            primary.as_str(),
                            secondary.as_str(),
                        );
                        WriterStep::Run(next, command)
                    },
                    Err(_) => WriterStep::Finished(Ok(false)),
                }
            },
            WriterState::SettingPrimary { interface, secondary } => {
                match report {
                    RunReport::Failed => WriterStep::Finished(Err(WriteError::CommandFailed)),
                    RunReport::Completed { succeeded, .. } => {
                        if !*succeeded {
                            WriterStep::Finished(Ok(false))
                        } else if secondary.as_str().is_empty() {
                            WriterStep::Finished(Ok(true))
                        } else {
                            WriterStep::Run(
                                WriterState::AddingSecondary,
                                Command::add_secondary(interface.as_str(), secondary.as_str()),
                            )
                        }
                    },
                }
            },
            WriterState::AddingSecondary => WriterStep::Finished(Ok(true)),
            WriterState::FindingForReset => {
                match get_connected_interface_name(report) {
                    Ok(interface) => {
                        let (next, command) = reset_to_automatic(interface.as_str());
                        WriterStep::Run(next, command)
                    },
                    Err(_) => WriterStep::Finished(Ok(false)),
                }
            },
            WriterState::RestoringDhcp { interface } => {
                match report {
                    RunReport::Failed => WriterStep::Finished(Err(WriteError::CommandFailed)),
                    RunReport::Completed { succeeded, .. } => WriterStep::Run(
                        WriterState::ClearingEntries { restored: *succeeded },
                        Command::clear_entries(interface.as_str()),
                    ),
                }
            },
            WriterState::ClearingEntries { restored } => WriterStep::Run(
                WriterState::FlushingCache { restored },
                Command::flush_cache(),
            ),
            WriterState::FlushingCache { restored } => WriterStep::Finished(Ok(restored)),
        }
    }
}

} // verus!
