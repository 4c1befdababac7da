//! The first-time setup: asking for the settings and keeping them.
//!
//! A [`Setup`] decides; its driver acts, as for a
//! [`Delivery`](crate::pipeline::Delivery). The address and the user name
//! go to the settings file and the password to the credential store, and
//! only a password that was entered twice alike is kept at all.

use vstd::prelude::*;
use crate::error::Error;
use crate::error::ErrorView;
use crate::settings::KEYRING_SERVICE;
use crate::settings::SETTINGS_FILE_NAME;
use crate::settings::Settings;
use crate::settings::SettingsView;
use crate::settings::StoredSettings;
use crate::settings::StoredSettingsView;

verus! {

/// The line that opens the setup.
pub const HEADING: &'static str = "Initialize settings:";

/// The question for the server's address.
pub const API_URL_PROMPT: &'static str = "API Url (e.g. https://my-mattermost-server.com/api/v4)";

/// The question for the user name.
pub const USERNAME_PROMPT: &'static str = "Login username";

/// The question for the password.
pub const PASSWORD_PROMPT: &'static str = "Login Password (will be securely stored in Keyring)";

/// The question for the password's repetition.
pub const REPEAT_PROMPT: &'static str = "Repeat password";

/// Where a setup stands. Each phase but the last two waits for the outcome
/// of one action.
#[derive(Debug, PartialEq, Eq)]
pub enum Phase {
    /// Waiting for the heading to be shown.
    Heading,
    /// Waiting for the server's address.
    ApiUrl,
    /// Waiting for the user name.
    Username { api_url: String },
    /// Waiting for the password and its repetition.
    Password { api_url: String, username: String },
    /// Waiting for the credential store to take the password.
    Keep { settings: Settings },
    /// Waiting for the settings file to be written.
    Write { settings: Settings },
    /// The settings are kept.
    Done(Settings),
    /// The setup was given up.
    Failed(Error),
}

/// What a [`Phase`] holds, its texts as sequences of characters.
pub enum PhaseView {
    Heading,
    ApiUrl,
    Username { api_url: Seq<char> },
    Password { api_url: Seq<char>, username: Seq<char> },
    Keep { settings: SettingsView },
    Write { settings: SettingsView },
    Done(SettingsView),
    Failed(ErrorView),
}

impl View for Phase {
    type V = PhaseView;

    open spec fn view(&self) -> PhaseView {
        match *self {
            Phase::Heading => PhaseView::Heading,
            Phase::ApiUrl => PhaseView::ApiUrl,
            Phase::Username { api_url } => PhaseView::Username { api_url: api_url@ },
            Phase::Password { api_url, username } => PhaseView::Password {
                api_url: api_url@,
                username: username@,
            },
            Phase::Keep { settings } => PhaseView::Keep { settings: settings@ },
            Phase::Write { settings } => PhaseView::Write { settings: settings@ },
            Phase::Done(settings) => PhaseView::Done(settings@),
            Phase::Failed(error) => PhaseView::Failed(error@),
        }
    }
}

/// What the driver is to do.
#[derive(Debug, PartialEq, Eq)]
pub enum Action {
    /// Show the line: [`Event::Announced`].
    Announce { text: String },
    /// Ask for a line of text: [`Event::Answer`].
    Ask { prompt: String },
    /// Ask for a secret, and under `repeat` for the same secret once more,
    /// neither echoed: [`Event::Secret`].
    AskSecret { prompt: String, repeat: String },
    /// Put the password in the credential store, under the service and the
    /// user name: [`Event::PasswordKept`].
    KeepPassword { service: String, username: String, password: String },
    /// Write the stored settings as JSON to the file of this name in the
    /// user's configuration directory, in place of what is there:
    /// [`Event::SettingsWritten`].
    WriteSettings { file_name: String, stored: StoredSettings },
    /// Stop: the setup has its outcome.
    Finish,
}

/// What an [`Action`] holds, its texts as sequences of characters.
pub enum ActionView {
    Announce { text: Seq<char> },
    Ask { prompt: Seq<char> },
    AskSecret { prompt: Seq<char>, repeat: Seq<char> },
    KeepPassword { service: Seq<char>, username: Seq<char>, password: Seq<char> },
    WriteSettings { file_name: Seq<char>, stored: StoredSettingsView },
    Finish,
}

impl View for Action {
    type V = ActionView;

    open spec fn view(&self) -> ActionView {
        match *self {
            Action::Announce { text } => ActionView::Announce { text: text@ },
            Action::Ask { prompt } => ActionView::Ask { prompt: prompt@ },
            Action::AskSecret { prompt, repeat } => ActionView::AskSecret {
                prompt: prompt@,
                repeat: repeat@,
            },
            Action::KeepPassword { service, username, password } => ActionView::KeepPassword {
                service: service@,
                username: username@,
                password: password@,
            },
            Action::WriteSettings { file_name, stored } => ActionView::WriteSettings {
                file_name: file_name@,
                stored: stored@,
            },
            Action::Finish => ActionView::Finish,
        }
    }
}

/// What came of an action.
#[derive(Debug, PartialEq, Eq)]
pub enum Event {
    /// The action failed.
    Failed(Error),
    /// The line was shown.
    Announced,
    /// What was entered.
    Answer(String),
    /// The secret as it was entered the first and the second time.
    Secret { first: String, second: String },
    /// The credential store has the password.
    PasswordKept,
    /// The settings file is written.
    SettingsWritten,
}

/// What an [`Event`] holds, its texts as sequences of characters.
pub enum EventView {
    Failed(ErrorView),
    Announced,
    Answer(Seq<char>),
    Secret { first: Seq<char>, second: Seq<char> },
    PasswordKept,
    SettingsWritten,
}

impl View for Event {
    type V = EventView;

    open spec fn view(&self) -> EventView {
        match *self {
            Event::Failed(error) => EventView::Failed(error@),
            Event::Announced => EventView::Announced,
            Event::Answer(text) => EventView::Answer(text@),
            Event::Secret { first, second } => EventView::Secret {
                first: first@,
                second: second@,
            },
            Event::PasswordKept => EventView::PasswordKept,
            Event::SettingsWritten => EventView::SettingsWritten,
        }
    }
}

/// A setup, which is nothing but where it stands.
#[derive(Debug, PartialEq, Eq)]
pub struct Setup {
    pub phase: Phase,
}

/// What a [`Setup`] holds, its texts as sequences of characters.
pub struct SetupView {
    pub phase: PhaseView,
}

impl View for Setup {
    type V = SetupView;

    open spec fn view(&self) -> SetupView {
        SetupView { phase: self.phase@ }
    }
}

impl PhaseView {
    /// The setup is over, well or badly.
    pub open spec fn is_final(self) -> bool {
        self is Done || self is Failed
    }
}

impl SetupView {
    /// A setup before anything was asked.
    pub open spec fn start() -> SetupView {
        SetupView { phase: PhaseView::Heading }
    }

    /// What the driver is to do now.
    pub open spec fn action(self) -> ActionView {
        match self.phase {
            PhaseView::Heading => ActionView::Announce { text: HEADING@ },
            PhaseView::ApiUrl => ActionView::Ask { prompt: API_URL_PROMPT@ },
            PhaseView::Username { .. } => ActionView::Ask { prompt: USERNAME_PROMPT@ },
            PhaseView::Password { .. } => ActionView::AskSecret {
                prompt: PASSWORD_PROMPT@,
                repeat: REPEAT_PROMPT@,
            },
            PhaseView::Keep { settings } => ActionView::KeepPassword {
                service: KEYRING_SERVICE@,
                username: settings.username,
                password: settings.password,
            },
            PhaseView::Write { settings } => ActionView::WriteSettings {
                file_name: SETTINGS_FILE_NAME@,
                stored: settings.stored(),
            },
            PhaseView::Done(_) => ActionView::Finish,
            PhaseView::Failed(_) => ActionView::Finish,
        }
    }

    /// The setup after `event`. A setup that is over stays as it is. A
    /// failure ends any other, and so does a password whose repetition
    /// differs from it. Otherwise the event that the phase waits for moves
    /// the setup on, and any other event leaves it where it is.
    pub open spec fn advance(self, event: EventView) -> SetupView {
        SetupView {
            phase: match (self.phase, event) {
                (PhaseView::Done(_), _) => self.phase,
                (PhaseView::Failed(_), _) => self.phase,
                (_, EventView::Failed(error)) => PhaseView::Failed(error),
                (PhaseView::Heading, EventView::Announced) => PhaseView::ApiUrl,
                (PhaseView::ApiUrl, EventView::Answer(api_url)) => PhaseView::Username {
                    api_url,
                },
                (
                    PhaseView::Username { api_url },
                    EventView::Answer(username),
                ) => PhaseView::Password { api_url, username },
                (
                    PhaseView::Password { api_url, username },
                    EventView::Secret { first, second },
                ) => if first == second {
                    PhaseView::Keep {
                        settings: SettingsView { api_url, username, password: first },
                    }
                } else {
                    PhaseView::Failed(ErrorView::PasswordMismatch)
                },
                (PhaseView::Keep { settings }, EventView::PasswordKept) => PhaseView::Write {
                    settings,
                },
                (PhaseView::Write { settings }, EventView::SettingsWritten) => PhaseView::Done(
                    settings,
                ),
                _ => self.phase,
            },
        }
    }

    /// How the setup ended, if it has.
    pub open spec fn outcome(self) -> Option<Result<SettingsView, ErrorView>> {
        match self.phase {
            PhaseView::Done(settings) => Some(Ok(settings)),
            PhaseView::Failed(error) => Some(Err(error)),
            _ => None,
        }
    }

    /// The setup after each of `events` in turn.
    pub open spec fn run(self, events: Seq<EventView>) -> SetupView
        decreases events.len(),
    {
        if events.len() == 0 {
            self
        } else {
            self.advance(events[0]).run(events.drop_first())
        }
    }
}

/// A setup that is over stays as it is, whatever is reported to it, and
/// asks for nothing but to stop.
pub proof fn lemma_over_stays_over(setup: SetupView, events: Seq<EventView>)
    requires
        setup.phase.is_final(),
    ensures
        setup.run(events) == setup,
        setup.action() == ActionView::Finish,
    decreases events.len(),
{
    if events.len() > 0 {
        assert(setup.advance(events[0]) == setup);
        lemma_over_stays_over(setup, events.drop_first());
    }
}

/// A password whose repetition differs from it is rejected: the setup ends
/// with [`Error::PasswordMismatch`], and whatever is reported later it asks
/// for nothing more, so that nothing goes to the credential store or to
/// the settings file.
pub proof fn lemma_mismatch_is_rejected(
    setup: SetupView,
    first: Seq<char>,
    second: Seq<char>,
    later: Seq<EventView>,
)
    requires
        setup.phase is Password,
        first != second,
    ensures
        ({
            let ended = setup.advance(EventView::Secret { first, second });
            &&& ended.phase == PhaseView::Failed(ErrorView::PasswordMismatch)
            &&& ended.run(later).outcome() == Some(
                Err::<SettingsView, ErrorView>(ErrorView::PasswordMismatch),
            )
            &&& ended.run(later).action() == ActionView::Finish
        }),
{
    lemma_over_stays_over(setup.advance(EventView::Secret { first, second }), later);
}

impl EventView {
    /// The event is a password with a repetition that equals it.
    pub open spec fn confirms_password(self) -> bool {
        self matches EventView::Secret { first, second } && first == second
    }
}

impl SetupView {
    /// The setup has not come to keep anything: it is still asking, or it
    /// was given up.
    pub open spec fn has_kept_nothing(self) -> bool {
        self.phase is Heading || self.phase is ApiUrl || self.phase is Username
            || self.phase is Password || self.phase is Failed
    }
}

/// As long as no password was entered twice alike, nothing is kept: after
/// any events among which there is no such pair, the setup does not ask for
/// the credential store nor for the settings file, and it has not ended
/// well.
pub proof fn lemma_nothing_kept_without_confirmation(setup: SetupView, events: Seq<EventView>)
    requires
        setup.has_kept_nothing(),
        forall|i: int| 0 <= i < events.len() ==> !(#[trigger] events[i]).confirms_password(),
    ensures
        SetupView::start().has_kept_nothing(),
        setup.run(events).has_kept_nothing(),
        !(setup.run(events).action() is KeepPassword),
        !(setup.run(events).action() is WriteSettings),
        !(setup.run(events).outcome() matches Some(Ok(_))),
    decreases events.len(),
{
    if events.len() > 0 {
        assert(!events[0].confirms_password());
        let rest = events.drop_first();
        assert forall|i: int| 0 <= i < rest.len() implies !(#[trigger] rest[i]).confirms_password() by {
            assert(rest[i] == events[i + 1]);
        }
        lemma_nothing_kept_without_confirmation(setup.advance(events[0]), rest);
    }
}

/// Nothing is kept before the password was entered twice alike: a setup
/// comes to wait for the credential store only from waiting for the
/// password, by a password and a repetition that are equal, and it is this
/// password that it then keeps.
pub proof fn lemma_kept_only_when_confirmed(setup: SetupView, event: EventView)
    requires
        !(setup.phase is Keep),
        setup.advance(event).phase is Keep,
    ensures
        setup.phase is Password,
        event matches EventView::Secret { first, second } && first == second
            && setup.advance(event).phase->Keep_settings.password == first,
{
}

/// The settings file is written only after the credential store took the
/// password.
pub proof fn lemma_written_only_when_kept(setup: SetupView, event: EventView)
    requires
        !(setup.phase is Write),
        setup.advance(event).phase is Write,
    ensures
        setup.phase is Keep,
        event is PasswordKept,
        setup.advance(event).phase->Write_settings == setup.phase->Keep_settings,
{
}

/// A setup that meets no failure: it shows the heading, asks for the
/// address, the user name and the password, puts the password in the
/// credential store and the rest in the settings file, and ends with the
/// settings made of the three.
pub proof fn lemma_setup_without_failure(
    api_url: Seq<char>,
    username: Seq<char>,
    password: Seq<char>,
)
    ensures
        ({
            let settings = SettingsView { api_url, username, password };
            let begun = SetupView::start();
            let announced = begun.advance(EventView::Announced);
            let addressed = announced.advance(EventView::Answer(api_url));
            let named = addressed.advance(EventView::Answer(username));
            let confirmed = named.advance(
                EventView::Secret { first: password, second: password },
            );
            let kept = confirmed.advance(EventView::PasswordKept);
            let written = kept.advance(EventView::SettingsWritten);
            &&& begun.action() == ActionView::Announce { text: HEADING@ }
            &&& announced.action() == ActionView::Ask { prompt: API_URL_PROMPT@ }
            &&& addressed.action() == ActionView::Ask { prompt: USERNAME_PROMPT@ }
            &&& named.action() == ActionView::AskSecret {
                prompt: PASSWORD_PROMPT@,
                repeat: REPEAT_PROMPT@,
            }
            &&& confirmed.action() == ActionView::KeepPassword {
                service: KEYRING_SERVICE@,
                username,
                password,
            }
            &&& kept.action() == ActionView::WriteSettings {
                file_name: SETTINGS_FILE_NAME@,
                stored: settings.stored(),
            }
            &&& written.action() == ActionView::Finish
            &&& written.outcome() == Some(Ok::<SettingsView, ErrorView>(settings))
        }),
{
}

impl Setup {
    /// A setup before anything was asked.
    pub fn new() -> (r: Setup)
        ensures
            r@ == SetupView::start(),
    {
        Setup { phase: Phase::Heading }
    }

    /// What the driver is to do now.
    pub fn action(&self) -> (r: Action)
        ensures
            r@ == self@.action(),
    {
        match &self.phase {
            Phase::Heading => Action::Announce { text: String::from_str(HEADING) },
            Phase::ApiUrl => Action::Ask { prompt: String::from_str(API_URL_PROMPT) },
            Phase::Username { .. } => Action::Ask { prompt: String::from_str(USERNAME_PROMPT) },
            Phase::Password { .. } => Action::AskSecret {
                prompt: String::from_str(PASSWORD_PROMPT),
                repeat: String::from_str(REPEAT_PROMPT),
            },
            Phase::Keep { settings } => Action::KeepPassword {
                service: String::from_str(KEYRING_SERVICE),
                username: settings.username.clone(),
                password: settings.password.clone(),
            },
            Phase::Write { settings } => Action::WriteSettings {
                file_name: String::from_str(SETTINGS_FILE_NAME),
                stored: settings.stored(),
            },
            Phase::Done(_) => Action::Finish,
            Phase::Failed(_) => Action::Finish,
        }
    }

    /// The setup after `event`.
    pub fn advance(self, event: Event) -> (r: Setup)
        ensures
            r@ == self@.advance(event@),
    {
        let next = match (self.phase, event) {
            (Phase::Done(settings), _) => Phase::Done(settings),
            (Phase::Failed(error), _) => Phase::Failed(error),
            (_, Event::Failed(error)) => Phase::Failed(error),
            (Phase::Heading, Event::Announced) => Phase::ApiUrl,
            (Phase::ApiUrl, Event::Answer(api_url)) => Phase::Username { api_url },
            (Phase::Username { api_url }, Event::Answer(username)) => Phase::Password {
                api_url,
                username,
            },
            (Phase::Password { api_url, username }, Event::Secret { first, second }) => {
                if first == second {
                    Phase::Keep { settings: Settings { api_url, username, password: first } }
                } else {
                    Phase::Failed(Error::PasswordMismatch)
                }
            },
            (Phase::Keep { settings }, Event::PasswordKept) => Phase::Write { settings },
            (Phase::Write { settings }, Event::SettingsWritten) => Phase::Done(settings),
            (phase, _) => phase,
        };
        Setup { phase: next }
    }

    /// How the setup ended, if it has.
    pub fn outcome(self) -> (r: Option<Result<Settings, Error>>)
        ensures
            match self@.outcome() {
                Some(Ok(settings)) => r matches Some(Ok(s)) && s@ == settings,
                Some(Err(error)) => r matches Some(Err(e)) && e@ == error,
                None => r is None,
            },
    {
        match self.phase {
            Phase::Done(settings) => Some(Ok(settings)),
            Phase::Failed(error) => Some(Err(error)),
            _ => None,
        }
    }
}

} // verus!
