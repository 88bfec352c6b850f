//! Keeping the catalog current: what to do on each message of the push
//! channel and on each outcome of a fetch.
//!
//! The caller owns the connection and does the waiting: it performs the
//! action that it is handed and reports what came of it as the next event.
use vstd::prelude::*;
use crate::client::cache::catalog_of;
use crate::client::cache::ConfigurationSnapshot;
use crate::errors::Error;
use crate::models::Configuration;
use crate::text::str_eq;

verus! {

/// A message of the push channel, as far as the client reads it.
#[derive(Debug)]
pub enum PushMessage {
    /// A textual message.
    Text(String),
    /// The server closed the subscription.
    Close,
    /// Anything else: binary data, pings and pongs.
    Other,
}

/// What a message of the push channel asks for.
#[derive(Clone, Copy, Debug, PartialEq, Eq, Structural)]
pub enum Signal {
    /// Nothing: the message keeps the connection alive, or is none that the
    /// client reads.
    KeepWaiting,
    /// The catalog changed: fetch it again.
    Refresh,
    /// The server ended the subscription.
    Closed,
}

/// Where the updater stands.
#[derive(Clone, Copy, Debug, PartialEq, Eq, Structural)]
pub enum MonitorState {
    /// Connected, waiting for the next message.
    Waiting,
    /// A fresh catalog was asked for.
    Fetching,
    /// The updater has stopped, for good.
    Terminated,
}

/// What happened since the last action.
#[derive(Debug)]
pub enum MonitorEvent {
    /// The client is gone: the shutdown signal was found closed.
    ShutdownSignalled,
    /// A message arrived on the push channel.
    Received(PushMessage),
    /// Reading from the push channel failed.
    ReceiveFailed(Error),
    /// A catalog document was fetched and decoded.
    Fetched(Configuration),
    /// The catalog document could not be fetched or decoded.
    FetchFailed(Error),
}

/// What the caller is to do next.
#[derive(Debug)]
pub enum MonitorAction {
    /// Look at the shutdown signal, then wait for the next message of the
    /// push channel.
    Receive,
    /// Fetch the catalog document.
    Fetch,
    /// Put the catalog in place of the one that the client holds, then go on
    /// as for `Receive`.
    Install(ConfigurationSnapshot),
    /// Leave the loop: on shutdown without an error, else with the error
    /// that ended the updates.
    Stop(Option<Error>),
}

/// What a message asks for: the text `test message` keeps the connection
/// alive, any other text announces a change.
pub open spec fn signal_of(message: PushMessage) -> Signal {
    match message {
        PushMessage::Text(text) => if text@ == "test message"@ {
            Signal::KeepWaiting
        } else {
            Signal::Refresh
        },
        PushMessage::Close => Signal::Closed,
        PushMessage::Other => Signal::KeepWaiting,
    }
}

/// The step that the updater takes from `state` on `event`.
///
/// Once terminated the updater stays so. A closed shutdown signal ends it
/// from every state, and nothing is installed afterwards. An event that
/// does not answer the action of the state is passed over, and the action
/// is asked for again.
pub open spec fn follows(
    state: MonitorState,
    event: MonitorEvent,
    environment_id: Seq<char>,
    next: MonitorState,
    action: MonitorAction,
) -> bool {
    match state {
        MonitorState::Terminated => next == MonitorState::Terminated && action
            == MonitorAction::Stop(None),
        MonitorState::Waiting => match event {
            MonitorEvent::ShutdownSignalled => next == MonitorState::Terminated && action
                == MonitorAction::Stop(None),
            MonitorEvent::Received(message) => match signal_of(message) {
                Signal::KeepWaiting => next == MonitorState::Waiting && action
                    == MonitorAction::Receive,
                Signal::Refresh => next == MonitorState::Fetching && action == MonitorAction::Fetch,
                Signal::Closed => next == MonitorState::Terminated && action == MonitorAction::Stop(
                    Some(Error::ConnectionClosed),
                ),
            },
            MonitorEvent::ReceiveFailed(e) => next == MonitorState::Terminated && action
                == MonitorAction::Stop(Some(e)),
            _ => next == MonitorState::Waiting && action == MonitorAction::Receive,
        },
        MonitorState::Fetching => match event {
            MonitorEvent::ShutdownSignalled => next == MonitorState::Terminated && action
                == MonitorAction::Stop(None),
            MonitorEvent::Fetched(configuration) => match catalog_of(
                configuration@,
                environment_id,
            ) {
                Ok(catalog) => next == MonitorState::Waiting && (action matches MonitorAction::Install(
                    installed,
                ) && installed@ == catalog),
                Err(e) => next == MonitorState::Terminated && action == MonitorAction::Stop(
                    Some(e),
                ),
            },
            MonitorEvent::FetchFailed(e) => next == MonitorState::Terminated && action
                == MonitorAction::Stop(Some(e)),
            _ => next == MonitorState::Fetching && action == MonitorAction::Fetch,
        },
    }
}

/// Reads what a message of the push channel asks for.
pub fn wait_for_configuration_update(message: &PushMessage) -> (r: Signal)
    ensures
        r == signal_of(*message),
{
    match message {
        PushMessage::Text(text) => if str_eq(text.as_str(), "test message") {
            Signal::KeepWaiting
        } else {
            Signal::Refresh
        },
        PushMessage::Close => Signal::Closed,
        PushMessage::Other => Signal::KeepWaiting,
    }
}

/// Takes one step of the updater: from where it stands and what happened to
/// where it stands next and what the caller is to do.
pub fn update_configuration_on_change(
    state: MonitorState,
    event: MonitorEvent,
    environment_id: &str,
) -> (r: (MonitorState, MonitorAction))
    ensures
        follows(state, event, environment_id@, r.0, r.1),
{
    match state {
        MonitorState::Terminated => (MonitorState::Terminated, MonitorAction::Stop(None)),
        MonitorState::Waiting => match event {
            MonitorEvent::ShutdownSignalled => (
                MonitorState::Terminated,
                MonitorAction::Stop(None),
            ),
            MonitorEvent::Received(message) => match wait_for_configuration_update(&message) {
                Signal::KeepWaiting => (MonitorState::Waiting, MonitorAction::Receive),
                Signal::Refresh => (MonitorState::Fetching, MonitorAction::Fetch),
                Signal::Closed => (
                    MonitorState::Terminated,
                    MonitorAction::Stop(Some(Error::ConnectionClosed)),
                ),
            },
            MonitorEvent::ReceiveFailed(e) => (
                MonitorState::Terminated,
                MonitorAction::Stop(Some(e)),
            ),
            _ => (MonitorState::Waiting, MonitorAction::Receive),
        },
        MonitorState::Fetching => match event {
            MonitorEvent::ShutdownSignalled => (
                MonitorState::Terminated,
                MonitorAction::Stop(None),
            ),
            MonitorEvent::Fetched(configuration) => match ConfigurationSnapshot::new(
                environment_id,
                configuration,
            ) {
                Ok(catalog) => (MonitorState::Waiting, MonitorAction::Install(catalog)),
                Err(e) => (MonitorState::Terminated, MonitorAction::Stop(Some(e))),
            },
            MonitorEvent::FetchFailed(e) => (MonitorState::Terminated, MonitorAction::Stop(Some(e))),
            _ => (MonitorState::Fetching, MonitorAction::Fetch),
        },
    }
}

/// Where the updater starts, and what the caller is to do first.
pub fn update_cache_in_background() -> (r: (MonitorState, MonitorAction))
    ensures
        r.0 == MonitorState::Waiting,
        r.1 == MonitorAction::Receive,
{
    (MonitorState::Waiting, MonitorAction::Receive)
}

/// The updater stays terminated, whatever happens.
pub proof fn law_terminated_stays(
    event: MonitorEvent,
    environment_id: Seq<char>,
    next: MonitorState,
    action: MonitorAction,
)
    requires
        follows(MonitorState::Terminated, event, environment_id, next, action),
    ensures
        next == MonitorState::Terminated,
        !(action is Install),
{
}

/// A closed shutdown signal ends the updater, and nothing is installed on
/// it.
pub proof fn law_shutdown_ends(
    state: MonitorState,
    environment_id: Seq<char>,
    next: MonitorState,
    action: MonitorAction,
)
    requires
        follows(state, MonitorEvent::ShutdownSignalled, environment_id, next, action),
    ensures
        next == MonitorState::Terminated,
        action == MonitorAction::Stop(None),
{
}

} // verus!
