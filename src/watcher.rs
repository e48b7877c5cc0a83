use vstd::prelude::*;

use crate::config::Config;
use crate::store::ConfigStore;

verus! {

/// What a filesystem notification says happened to a watched path.
#[derive(Clone, Copy, Debug, PartialEq, Eq, Structural)]
pub enum ChangeKind {
    /// Something happened; the source does not say what.
    Any,
    /// A file was opened, read or closed without being changed.
    Access,
    /// A file or directory was created.
    Create,
    /// A file's content changed, or it changed in a way the source does not
    /// narrow down further.
    Modify,
    /// Only a file's metadata (permissions, timestamps) changed.
    Metadata,
    /// A file was renamed or moved.
    Rename,
    /// A file or directory was removed.
    Remove,
    /// Some other kind of event.
    Other,
}

impl ChangeKind {
    /// Whether the notification reports a change of content.
    pub fn is_modify(&self) -> (r: bool)
        ensures
            r == (*self is Modify),
    {
        match self {
            ChangeKind::Modify => true,
            _ => false,
        }
    }
}

/// One delivery from the notification source: an event, or the source's
/// report that it failed to deliver one.
#[derive(Clone, Debug)]
pub enum WatchEvent {
    Changed(ChangeKind),
    DeliveryFailed(String),
}

/// The failures of the hot-reload mechanism, each with its description.
#[derive(Clone, Debug)]
pub enum WatchError {
    /// The configuration file could not be read or parsed at startup.
    InitialLoad(String),
    /// The notification source could not be set up on the configuration path.
    WatchRegistration(String),
    /// The notification source failed while delivering events.
    NotificationDelivery(String),
    /// A reload after startup could not read or parse the file.
    ReloadParse(String),
}

impl WatchError {
    /// Whether the error must stop the process; only a failed reload is
    /// recoverable.
    pub fn is_fatal(&self) -> (r: bool)
        ensures
            r == !(*self is ReloadParse),
    {
        match self {
            WatchError::ReloadParse(_) => false,
            _ => true,
        }
    }
}

/// Where the watcher stands between two deliveries.
#[derive(Clone, Copy, Debug, PartialEq, Eq, Structural)]
pub enum WatcherState {
    /// Waiting for the next event.
    Idle,
    /// A modification was seen; the file is being read and parsed.
    Parsing,
    /// The notification source failed; no further event is trusted.
    Stopped,
}

/// What the driver of the watcher must do after an event.
#[derive(Clone, Debug)]
pub enum Action {
    /// Nothing: the event does not concern the file's content.
    Ignore,
    /// Read and parse the configuration file again, then report the outcome.
    Reload,
    /// Stop watching and surface the error.
    Abort(WatchError),
}

/// The action that an event calls for.
pub open spec fn action_for(event: WatchEvent) -> Action {
    match event {
        WatchEvent::Changed(k) => if k is Modify {
            Action::Reload
        } else {
            Action::Ignore
        },
        WatchEvent::DeliveryFailed(m) => Action::Abort(WatchError::NotificationDelivery(m)),
    }
}

/// The state that an event leads to from `Idle`.
pub open spec fn state_after(event: WatchEvent) -> WatcherState {
    match event {
        WatchEvent::Changed(k) => if k is Modify {
            WatcherState::Parsing
        } else {
            WatcherState::Idle
        },
        WatchEvent::DeliveryFailed(_) => WatcherState::Stopped,
    }
}

/// Loads the initial snapshot: a store holding it, or the startup error.
///
/// `initial` is the outcome of reading and parsing the configuration file.
pub fn start(initial: Result<Config, String>) -> (r: Result<ConfigStore, WatchError>)
    requires
        initial matches Ok(c) ==> c.wf(),
    ensures
        r is Ok <==> initial is Ok,
        initial matches Ok(c) ==> (r matches Ok(s) ==> s.wf() && s@ == c@ && s.history() == seq![
            c@,
        ]),
        initial matches Err(m) ==> (r matches Err(e) ==> e == WatchError::InitialLoad(m)),
{
    match initial {
        Ok(c) => Ok(ConfigStore::new(c)),
        Err(m) => Err(WatchError::InitialLoad(m)),
    }
}

/// The decision logic of the hot-reload watcher, driven one event at a time.
pub struct ReloadWatcher {
    state: WatcherState,
}

impl ReloadWatcher {
    pub closed spec fn state(&self) -> WatcherState {
        self.state
    }

    /// A watcher waiting for its first event.
    pub fn new() -> (r: ReloadWatcher)
        ensures
            r.state() == WatcherState::Idle,
    {
        ReloadWatcher { state: WatcherState::Idle }
    }

    /// The current state.
    pub fn current_state(&self) -> (r: WatcherState)
        ensures
            r == self.state(),
    {
        self.state
    }

    /// Takes in one delivery and says what to do about it.
    pub fn on_event(&mut self, event: WatchEvent) -> (a: Action)
        requires
            old(self).state() == WatcherState::Idle,
        ensures
            a == action_for(event),
            final(self).state() == state_after(event),
    {
        match event {
            WatchEvent::Changed(k) => {
                if k.is_modify() {
                    self.state = WatcherState::Parsing;
                    Action::Reload
                } else {
                    Action::Ignore
                }
            },
            WatchEvent::DeliveryFailed(m) => {
                self.state = WatcherState::Stopped;
                Action::Abort(WatchError::NotificationDelivery(m))
            },
        }
    }

    /// Takes in the outcome of the reload that `Reload` asked for: publishes
    /// a parsed snapshot, or keeps the previous one and returns the
    /// recoverable error.
    pub fn on_loaded(&mut self, store: &mut ConfigStore, outcome: Result<Config, String>) -> (r:
        Result<(), WatchError>)
        requires
            old(self).state() == WatcherState::Parsing,
            old(store).wf(),
            outcome matches Ok(c) ==> c.wf(),
        ensures
            final(self).state() == WatcherState::Idle,
            final(store).wf(),
            r is Ok <==> outcome is Ok,
            outcome matches Ok(c) ==> final(store)@ == c@ && final(store).history() == old(
                store,
            ).history().push(c@),
            outcome matches Err(m) ==> *final(store) == *old(store) && (r matches Err(e) ==> e
                == WatchError::ReloadParse(m)),
    {
        self.state = WatcherState::Idle;
        match outcome {
            Ok(c) => {
                store.replace(c);
                Ok(())
            },
            Err(m) => Err(WatchError::ReloadParse(m)),
        }
    }
}

/// An event that does not report a change of content calls for no reload
/// and leaves the watcher idle: no parse runs, and the store, which only a
/// reload's outcome can change, keeps its value.
pub proof fn lemma_non_modify_event_is_ignored(k: ChangeKind)
    requires
        !(k is Modify),
    ensures
        action_for(WatchEvent::Changed(k)) == Action::Ignore,
        state_after(WatchEvent::Changed(k)) == WatcherState::Idle,
{
}

} // verus!
