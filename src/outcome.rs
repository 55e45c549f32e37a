use vstd::prelude::*;
use crate::outbox::{Command, CommandModel};

verus! {

/// Why an operation failed.
#[derive(Debug, PartialEq, Eq)]
pub enum MqError {
    /// The session or the channel could not be opened.
    Connection(String),
    /// The default connection settings could not be loaded.
    Config(String),
    /// An exchange or queue declaration, or a binding, was refused.
    Topology(String),
    /// A message could not be published.
    Publish(String),
}

/// What happens when a message cannot be published.
#[derive(Clone, Copy, Debug, PartialEq, Eq, Structural)]
pub enum OnPublishError {
    /// Report the failure to the log and go on as if it had been sent.
    Log,
    /// Hand the failure back to the caller.
    Return,
}

/// The number of the channel opened on each session.
pub const CHANNEL_ID: u16 = 1;

/// Settles the outcome of sending one command. `Ok(None)`: it went through;
/// `Ok(Some(e))`: a publish failed and, by the policy, is only to be logged;
/// `Err(e)`: the failure stops the operation. A refused declaration or
/// binding always stops it.
pub fn command_outcome(cmd: &Command, sent: Result<(), String>, policy: OnPublishError) -> (r: Result<
    Option<MqError>,
    MqError,
>)
    ensures
        match sent {
            Ok(()) => r == Ok::<Option<MqError>, MqError>(None),
            Err(m) => match cmd@ {
                CommandModel::Publish(_) => match policy {
                    OnPublishError::Log => r == Ok::<Option<MqError>, MqError>(Some(MqError::Publish(m))),
                    OnPublishError::Return => r == Err::<Option<MqError>, MqError>(MqError::Publish(m)),
                },
                _ => r == Err::<Option<MqError>, MqError>(MqError::Topology(m)),
            },
        },
{
    match sent {
        Ok(()) => Ok(None),
        Err(m) => match cmd {
            Command::Publish(_) => match policy {
                OnPublishError::Log => Ok(Some(MqError::Publish(m))),
                OnPublishError::Return => Err(MqError::Publish(m)),
            },
            _ => Err(MqError::Topology(m)),
        },
    }
}

/// Settles the outcome of opening a session or a channel: the opened value,
/// or a connection error that carries the reason.
pub fn connection_outcome<C>(opened: Result<C, String>) -> (r: Result<C, MqError>)
    ensures
        match opened {
            Ok(c) => r == Ok::<C, MqError>(c),
            Err(m) => r == Err::<C, MqError>(MqError::Connection(m)),
        },
{
    match opened {
        Ok(c) => Ok(c),
        Err(m) => Err(MqError::Connection(m)),
    }
}

/// Settles the outcome of loading the default connection URL: the URL, or a
/// configuration error that carries the reason.
pub fn configured_url(loaded: Result<String, String>) -> (r: Result<String, MqError>)
    ensures
        match loaded {
            Ok(url) => r == Ok::<String, MqError>(url),
            Err(m) => r == Err::<String, MqError>(MqError::Config(m)),
        },
{
    match loaded {
        Ok(url) => Ok(url),
        Err(m) => Err(MqError::Config(m)),
    }
}

} // verus!
