//! The agent as a Windows service: its names, the command-line verbs, and
//! how it answers the service control manager. Talking to the manager stays
//! with the caller.
use vstd::prelude::*;
use crate::text::str_eq;

verus! {

/// Name under which the service is registered.
pub const SERVICE_NAME: &'static str = "HispanShieldAgent";

/// Name the service manager displays.
pub const SERVICE_DISPLAY: &'static str = "HispanShield Security Agent";

/// Description the service manager displays.
pub const SERVICE_DESCRIPTION: &'static str =
    "Real-time protection, threat detection and network monitoring for HispanShield Antivirus";

/// What the agent's first command-line argument asks for.
#[derive(Debug, Clone, Copy, PartialEq, Eq, Structural)]
pub enum AgentCommand {
    Install,
    Uninstall,
    Start,
    Stop,
    Run,
    /// No known verb: try the service dispatcher, else print the usage.
    Default,
}

/// The command a first argument names.
pub open spec fn command_named(arg: Option<Seq<char>>) -> AgentCommand {
    match arg {
        Some(a) => if a == "install"@ {
            AgentCommand::Install
        } else if a == "uninstall"@ {
            AgentCommand::Uninstall
        } else if a == "start"@ {
            AgentCommand::Start
        } else if a == "stop"@ {
            AgentCommand::Stop
        } else if a == "run"@ {
            AgentCommand::Run
        } else {
            AgentCommand::Default
        },
        None => AgentCommand::Default,
    }
}

/// The command the agent's first argument (if any) names.
pub fn agent_command(arg: Option<&str>) -> (r: AgentCommand)
    ensures
        r == command_named(match arg {
            Some(a) => Some(a@),
            None => None,
        }),
{
    match arg {
        Some(a) => if str_eq(a, "install") {
            AgentCommand::Install
        } else if str_eq(a, "uninstall") {
            AgentCommand::Uninstall
        } else if str_eq(a, "start") {
            AgentCommand::Start
        } else if str_eq(a, "stop") {
            AgentCommand::Stop
        } else if str_eq(a, "run") {
            AgentCommand::Run
        } else {
            AgentCommand::Default
        },
        None => AgentCommand::Default,
    }
}

/// The controls the service manager sends that the agent tells apart.
#[derive(Debug, Clone, Copy, PartialEq, Eq, Structural)]
pub enum ServiceControlKind {
    Stop,
    Shutdown,
    Interrogate,
    Other,
}

/// What the control handler reports back.
#[derive(Debug, Clone, Copy, PartialEq, Eq, Structural)]
pub enum ControlReply {
    NoError,
    NotImplemented,
}

/// The handler's answer to a control: whether to signal shutdown to the
/// agent's tasks, and what to report.
#[derive(Debug, Clone, Copy, PartialEq, Eq, Structural)]
pub struct ControlDecision {
    pub signal_shutdown: bool,
    pub reply: ControlReply,
}

/// Answer a service control: stop and shutdown signal the agent to stop and
/// are acknowledged, an interrogation is acknowledged, anything else is not
/// implemented.
pub fn on_control(control: ServiceControlKind) -> (r: ControlDecision)
    ensures
        r.signal_shutdown == (control == ServiceControlKind::Stop || control
            == ServiceControlKind::Shutdown),
        r.reply == (if control == ServiceControlKind::Other {
            ControlReply::NotImplemented
        } else {
            ControlReply::NoError
        }),
{
    match control {
        ServiceControlKind::Stop | ServiceControlKind::Shutdown => ControlDecision {
            signal_shutdown: true,
            reply: ControlReply::NoError,
        },
        ServiceControlKind::Interrogate => ControlDecision {
            signal_shutdown: false,
            reply: ControlReply::NoError,
        },
        ServiceControlKind::Other => ControlDecision {
            signal_shutdown: false,
            reply: ControlReply::NotImplemented,
        },
    }
}

} // verus!
