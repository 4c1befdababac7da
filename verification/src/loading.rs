//! Reading back the settings that a setup kept.
//!
//! A [`Loading`] decides; its driver acts. The settings file gives the
//! address and the user name, and the credential store gives the password
//! of that user. A failure is handed on as it was reported, so that a
//! missing settings file can be told from every other failure.

use vstd::prelude::*;
use crate::error::Error;
use crate::error::ErrorView;
use crate::error::IoKind;
use crate::settings::KEYRING_SERVICE;
use crate::settings::SETTINGS_FILE_NAME;
use crate::settings::Settings;
use crate::settings::SettingsView;
use crate::settings::StoredSettings;
use crate::settings::StoredSettingsView;
use crate::setup;
use crate::setup::SetupView;

verus! {

/// Where a loading stands. Each phase but the last two waits for the
/// outcome of one action.
#[derive(Debug, PartialEq, Eq)]
pub enum Phase {
    /// Waiting for the content of the settings file.
    File,
    /// Waiting for the password of the stored user.
    Password { stored: StoredSettings },
    /// The settings are complete.
    Done(Settings),
    /// The loading was given up.
    Failed(Error),
}

/// What a [`Phase`] holds, its texts as sequences of characters.
pub enum PhaseView {
    File,
    Password { stored: StoredSettingsView },
    Done(SettingsView),
    Failed(ErrorView),
}

impl View for Phase {
    type V = PhaseView;

    open spec fn view(&self) -> PhaseView {
        match *self {
            Phase::File => PhaseView::File,
            Phase::Password { stored } => PhaseView::Password { stored: stored@ },
            Phase::Done(settings) => PhaseView::Done(settings@),
            Phase::Failed(error) => PhaseView::Failed(error@),
        }
    }
}

/// What the driver is to do.
#[derive(Debug, PartialEq, Eq)]
pub enum Action {
    /// Read the file of this name in the user's configuration directory
    /// and decode it as JSON: [`Event::Stored`].
    ReadSettings { file_name: String },
    /// Ask the credential store for the password kept under the service
    /// and the user name: [`Event::Password`].
    FetchPassword { service: String, username: String },
    /// Stop: the loading has its outcome.
    Finish,
}

/// What an [`Action`] holds, its texts as sequences of characters.
pub enum ActionView {
    ReadSettings { file_name: Seq<char> },
    FetchPassword { service: Seq<char>, username: Seq<char> },
    Finish,
}

impl View for Action {
    type V = ActionView;

    open spec fn view(&self) -> ActionView {
        match *self {
            Action::ReadSettings { file_name } => ActionView::ReadSettings {
                file_name: file_name@,
            },
            Action::FetchPassword { service, username } => ActionView::FetchPassword {
                service: service@,
                username: username@,
            },
            Action::Finish => ActionView::Finish,
        }
    }
}

/// What came of an action.
#[derive(Debug, PartialEq, Eq)]
pub enum Event {
    /// The action failed.
    Failed(Error),
    /// What the settings file holds.
    Stored(StoredSettings),
    /// The password that the credential store holds.
    Password(String),
}

/// What an [`Event`] holds, its texts as sequences of characters.
pub enum EventView {
    Failed(ErrorView),
    Stored(StoredSettingsView),
    Password(Seq<char>),
}

impl View for Event {
    type V = EventView;

    open spec fn view(&self) -> EventView {
        match *self {
            Event::Failed(error) => EventView::Failed(error@),
            Event::Stored(stored) => EventView::Stored(stored@),
            Event::Password(password) => EventView::Password(password@),
        }
    }
}

/// A loading, which is nothing but where it stands.
#[derive(Debug, PartialEq, Eq)]
pub struct Loading {
    pub phase: Phase,
}

/// What a [`Loading`] holds, its texts as sequences of characters.
pub struct LoadingView {
    pub phase: PhaseView,
}

impl View for Loading {
    type V = LoadingView;

    open spec fn view(&self) -> LoadingView {
        LoadingView { phase: self.phase@ }
    }
}

impl PhaseView {
    /// The loading is over, well or badly.
    pub open spec fn is_final(self) -> bool {
        self is Done || self is Failed
    }
}

impl LoadingView {
    /// A loading before anything was read.
    pub open spec fn start() -> LoadingView {
        LoadingView { phase: PhaseView::File }
    }

    /// What the driver is to do now.
    pub open spec fn action(self) -> ActionView {
        match self.phase {
            PhaseView::File => ActionView::ReadSettings { file_name: SETTINGS_FILE_NAME@ },
            PhaseView::Password { stored } => ActionView::FetchPassword {
                service: KEYRING_SERVICE@,
                username: stored.username,
            },
            PhaseView::Done(_) => ActionView::Finish,
            PhaseView::Failed(_) => ActionView::Finish,
        }
    }

    /// The loading after `event`. A loading that is over stays as it is. A
    /// failure ends any other. Otherwise the event that the phase waits for
    /// moves the loading on, and any other event leaves it where it is.
    pub open spec fn advance(self, event: EventView) -> LoadingView {
        LoadingView {
            phase: match (self.phase, event) {
                (PhaseView::Done(_), _) => self.phase,
                (PhaseView::Failed(_), _) => self.phase,
                (_, EventView::Failed(error)) => PhaseView::Failed(error),
                (PhaseView::File, EventView::Stored(stored)) => PhaseView::Password { stored },
                (
                    PhaseView::Password { stored },
                    EventView::Password(password),
                ) => PhaseView::Done(SettingsView::assemble(stored, password)),
                _ => self.phase,
            },
        }
    }

    /// How the loading ended, if it has.
    pub open spec fn outcome(self) -> Option<Result<SettingsView, ErrorView>> {
        match self.phase {
            PhaseView::Done(settings) => Some(Ok(settings)),
            PhaseView::Failed(error) => Some(Err(error)),
            _ => None,
        }
    }

    /// The loading after each of `events` in turn.
    pub open spec fn run(self, events: Seq<EventView>) -> LoadingView
        decreases events.len(),
    {
        if events.len() == 0 {
            self
        } else {
            self.advance(events[0]).run(events.drop_first())
        }
    }
}

/// A loading that is over stays as it is, whatever is reported to it, and
/// asks for nothing but to stop.
pub proof fn lemma_over_stays_over(loading: LoadingView, events: Seq<EventView>)
    requires
        loading.phase.is_final(),
    ensures
        loading.run(events) == loading,
        loading.action() == ActionView::Finish,
    decreases events.len(),
{
    if events.len() > 0 {
        assert(loading.advance(events[0]) == loading);
        lemma_over_stays_over(loading, events.drop_first());
    }
}

/// A failure ends a loading that is under way, and is its outcome as it
/// was reported: whatever is reported later, the loading asks for nothing
/// more.
pub proof fn lemma_failure_is_handed_on(
    loading: LoadingView,
    error: ErrorView,
    later: Seq<EventView>,
)
    requires
        !loading.phase.is_final(),
    ensures
        loading.advance(EventView::Failed(error)).run(later).outcome() == Some(
            Err::<SettingsView, ErrorView>(error),
        ),
        loading.advance(EventView::Failed(error)).run(later).action() == ActionView::Finish,
{
    lemma_over_stays_over(loading.advance(EventView::Failed(error)), later);
}

/// A loading that finds no settings file fails with an error that says so,
/// and a loading that fails at the file in any other way, be it another
/// failure of the filesystem, fails with an error that does not.
pub proof fn lemma_missing_file_is_told_apart(detail: Seq<char>, other: ErrorView)
    requires
        !(other is Io && other->kind == IoKind::NotFound),
    ensures
        ({
            let missing = ErrorView::Io { kind: IoKind::NotFound, detail };
            let begun = LoadingView::start();
            &&& begun.advance(EventView::Failed(missing)).outcome() == Some(
                Err::<SettingsView, ErrorView>(missing),
            )
            &&& missing.is_not_found()
            &&& begun.advance(EventView::Failed(other)).outcome() == Some(
                Err::<SettingsView, ErrorView>(other),
            )
            &&& !other.is_not_found()
        }),
{
}

/// A loading that meets no failure reads the settings file, asks for the
/// password of the user that the file names, and ends with the settings
/// made of the two.
pub proof fn lemma_loading_without_failure(stored: StoredSettingsView, password: Seq<char>)
    ensures
        ({
            let begun = LoadingView::start();
            let read = begun.advance(EventView::Stored(stored));
            let fetched = read.advance(EventView::Password(password));
            &&& begun.action() == ActionView::ReadSettings { file_name: SETTINGS_FILE_NAME@ }
            &&& read.action() == ActionView::FetchPassword {
                service: KEYRING_SERVICE@,
                username: stored.username,
            }
            &&& fetched.action() == ActionView::Finish
            &&& fetched.outcome() == Some(
                Ok::<SettingsView, ErrorView>(SettingsView::assemble(stored, password)),
            )
        }),
{
}

/// What a setup kept, a loading gives back. The loading reads the file
/// that the setup wrote and asks the credential store under the service and
/// the user name under which the setup kept the password; given what was
/// written and what was kept, it ends with the settings that the setup
/// ended with.
pub proof fn lemma_loading_gives_back_what_setup_kept(
    api_url: Seq<char>,
    username: Seq<char>,
    password: Seq<char>,
)
    ensures
        ({
            let confirmed = SetupView::start().advance(setup::EventView::Announced).advance(
                setup::EventView::Answer(api_url),
            ).advance(setup::EventView::Answer(username)).advance(
                setup::EventView::Secret { first: password, second: password },
            );
            let kept = confirmed.advance(setup::EventView::PasswordKept);
            let written = kept.advance(setup::EventView::SettingsWritten);
            let begun = LoadingView::start();
            &&& confirmed.action() matches setup::ActionView::KeepPassword {
                service,
                username: owner,
                password: secret,
            } && kept.action() matches setup::ActionView::WriteSettings { file_name, stored } && {
                let read = begun.advance(EventView::Stored(stored));
                &&& begun.action() == ActionView::ReadSettings { file_name }
                &&& read.action() == ActionView::FetchPassword { service, username: owner }
                &&& read.advance(EventView::Password(secret)).outcome() == written.outcome()
            }
            &&& written.outcome() == Some(
                Ok::<SettingsView, ErrorView>(SettingsView { api_url, username, password }),
            )
        }),
{
}

impl Loading {
    /// A loading before anything was read.
    pub fn new() -> (r: Loading)
        ensures
            r@ == LoadingView::start(),
    {
        Loading { phase: Phase::File }
    }

    /// What the driver is to do now.
    pub fn action(&self) -> (r: Action)
        ensures
            r@ == self@.action(),
    {
        match &self.phase {
            Phase::File => Action::ReadSettings {
                file_name: String::from_str(SETTINGS_FILE_NAME),
            },
            Phase::Password { stored } => Action::FetchPassword {
                service: String::from_str(KEYRING_SERVICE),
                username: stored.username.clone(),
            },
            Phase::Done(_) => Action::Finish,
            Phase::Failed(_) => Action::Finish,
        }
    }

    /// The loading after `event`.
    pub fn advance(self, event: Event) -> (r: Loading)
        ensures
            r@ == self@.advance(event@),
    {
        let next = match (self.phase, event) {
            (Phase::Done(settings), _) => Phase::Done(settings),
            (Phase::Failed(error), _) => Phase::Failed(error),
            (_, Event::Failed(error)) => Phase::Failed(error),
            (Phase::File, Event::Stored(stored)) => Phase::Password { stored },
            (Phase::Password { stored }, Event::Password(password)) => Phase::Done(
                Settings::assemble(stored, password),
            ),
            (phase, _) => phase,
        };
        Loading { phase: next }
    }

    /// How the loading ended, if it has.
    pub fn outcome(self) -> (r: Option<Result<Settings, Error>>)
        ensures
            match self@.outcome() {
                Some(Ok(settings)) => r matches Some(Ok(s)) && s@ == settings,
                Some(Err(error)) => r matches Some(Err(e)) && e@ == error,
                None => r is None,
            },
    {
        match self.phase {
            Phase::Done(settings) => Some(Ok(settings)),
            Phase::Failed(error) => Some(Err(error)),
            _ => None,
        }
    }
}

} // verus!
