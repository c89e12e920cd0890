//! What a launch does around its listener: what it makes of its command
//! line, what it wires up once its role is known, and what follows a send.

use crate::error::ListenerError;
use crate::listener::{Listener, SendReport};
use crate::payload::{texts, Payload};
use vstd::prelude::*;
use vstd::string::StringExecFns;

verus! {

/// What the command line of this launch holds, as far as the launch cares.
#[derive(Debug)]
pub struct CliMatches {
    /// The help text, where help was asked for.
    pub help: Option<String>,
    /// The paths and URIs to open, where any were given.
    pub torrents: Option<Vec<String>>,
}

/// What a launch does before it touches the channel.
#[derive(Debug)]
pub struct LaunchPlan {
    /// A text to print first.
    pub notice: Option<String>,
    /// Whether the application is asked to exit.
    pub exit: bool,
    /// Whether the launch goes on to its listener.
    pub proceed: bool,
    /// What this launch has to deliver.
    pub payload: Payload,
}

/// What is printed where the command line could not be read.
pub open spec fn unreadable_notice() -> Seq<char> {
    "Unable to read cli args"@
}

/// The entries that a command line gives.
pub open spec fn entries_of(torrents: Option<Vec<String>>) -> Seq<Seq<char>> {
    match torrents {
        Some(list) => texts(list@),
        None => Seq::empty(),
    }
}

/// Plans a launch from its command line; `None` stands for a command line
/// that could not be read.
///
/// A launch that was asked for help prints it, asks to exit and stops there.
/// A launch that cannot read its command line says so and asks to exit, and
/// still goes through its listener with nothing to deliver. Every other
/// launch goes on with the entries that it was given, in their order.
pub fn plan_launch(cli: Option<CliMatches>) -> (plan: LaunchPlan)
    ensures
        match cli {
            None => {
                &&& plan.notice matches Some(text) && text@ == unreadable_notice()
                &&& plan.exit
                &&& plan.proceed
                &&& plan.payload@.len() == 0
            },
            Some(matches) => match matches.help {
                Some(help) => {
                    &&& plan.notice == Some(help)
                    &&& plan.exit
                    &&& !plan.proceed
                    &&& plan.payload@.len() == 0
                },
                None => {
                    &&& plan.notice is None
                    &&& !plan.exit
                    &&& plan.proceed
                    &&& plan.payload@ == entries_of(matches.torrents)
                },
            },
        },
{
    match cli {
        None => LaunchPlan {
            notice: Some(String::from_str("Unable to read cli args")),
            exit: true,
            proceed: true,
            payload: Payload::new(),
        },
        Some(matches) => match matches.help {
            Some(help) => LaunchPlan {
                notice: Some(help),
                exit: true,
                proceed: false,
                payload: Payload::new(),
            },
            None => {
                let payload = match matches.torrents {
                    Some(list) => Payload::from_vec(list),
                    None => Payload::new(),
                };
                LaunchPlan { notice: None, exit: false, proceed: true, payload }
            },
        },
    }
}

/// What the application wires up once the role of this process is known.
#[derive(Clone, Copy, Debug, PartialEq, Eq, Structural)]
pub struct Wiring {
    /// Whether the two control signals are to be listened for.
    pub register_controls: bool,
    /// Whether this process shows the main window.
    pub show_window: bool,
}

/// The wiring that belongs to a listener: an owner takes the control
/// signals, and a process shows its window when payloads are delivered in
/// it, as an owner or unguarded.
pub fn wiring(listener: &Listener) -> (w: Wiring)
    ensures
        w.register_controls == listener@.is_owner(),
        w.show_window == listener@.delivers_locally(),
{
    Wiring { register_controls: listener.is_owner(), show_window: listener.delivers_locally() }
}

/// What follows a send.
#[derive(Clone, Copy, Debug, PartialEq, Eq, Structural)]
pub struct Aftermath {
    /// The error to report, if the send failed.
    pub report: Option<ListenerError>,
    /// Whether the window is told that entries came in from outside.
    pub signal_external_add: bool,
    /// Whether this process has nothing left to do and exits without ever
    /// showing a window.
    pub exit_silently: bool,
}

/// What follows a send that ended with `result`, for a payload of `entries`
/// entries.
pub open spec fn aftermath_of(result: Result<SendReport, ListenerError>, entries: nat) -> Aftermath {
    Aftermath {
        report: match result {
            Ok(_) => None,
            Err(e) => Some(e),
        },
        signal_external_add: result is Ok && entries > 0,
        exit_silently: result == Ok::<SendReport, ListenerError>(SendReport::HandedOver),
    }
}

/// Decides what follows a send: a failure is reported; a payload with
/// entries that went through is announced to the window; and a secondary
/// whose payload is with the owner exits silently.
pub fn after_send(result: Result<SendReport, ListenerError>, payload: &Payload) -> (a: Aftermath)
    ensures
        a == aftermath_of(result, payload@.len()),
{
    match result {
        Ok(report) => Aftermath {
            report: None,
            signal_external_add: !payload.is_empty(),
            exit_silently: match report {
                SendReport::HandedOver => true,
                SendReport::DeliveredHere => false,
            },
        },
        Err(e) => Aftermath { report: Some(e), signal_external_add: false, exit_silently: false },
    }
}

} // verus!
