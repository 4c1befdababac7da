//! A whole run: finding the settings, finding the message, delivering it.
//!
//! A [`Session`] decides; its driver acts, and runs a
//! [`Setup`](crate::setup::Setup), a [`Loading`](crate::loading::Loading)
//! or a [`Delivery`](crate::pipeline::Delivery) where the session asks for
//! one. Settings are set up anew where the options ask for it, and where
//! there is no settings file yet. The message is the one given with the
//! options, or else all of standard input.

use vstd::prelude::*;
use crate::error::Error;
use crate::error::ErrorView;
use crate::pipeline::Job;
use crate::pipeline::JobView;
use crate::pipeline::copy_texts;
use crate::settings::Settings;
use crate::settings::SettingsView;

verus! {

/// What the command line said.
#[derive(Debug, PartialEq, Eq)]
pub struct Options {
    /// The recipients' email addresses.
    pub to: Vec<String>,
    /// Whether the message is signed as well as encrypted.
    pub sign: bool,
    /// A path. It is accepted and takes no part in a run: the message never
    /// comes from a file, and no file is sent.
    pub file: Option<String>,
    /// Whether the settings are set up anew before they are loaded.
    pub reinit: bool,
    /// The message, where it was given as an argument.
    pub message: Option<String>,
}

/// What an [`Options`] holds, its texts as sequences of characters.
pub struct OptionsView {
    pub to: Seq<Seq<char>>,
    pub sign: bool,
    pub file: Option<Seq<char>>,
    pub reinit: bool,
    pub message: Option<Seq<char>>,
}

impl View for Options {
    type V = OptionsView;

    open spec fn view(&self) -> OptionsView {
        OptionsView {
            to: self.to.deep_view(),
            sign: self.sign,
            file: self.file.deep_view(),
            reinit: self.reinit,
            message: self.message.deep_view(),
        }
    }
}

/// Where a session stands. Each phase but the last two waits for the
/// outcome of one action.
#[derive(Debug, PartialEq, Eq)]
pub enum Phase {
    /// Waiting for the setup that the options asked for.
    Reinit,
    /// Waiting for the settings to be loaded.
    Load,
    /// Waiting for the setup that makes up for the missing settings file.
    FirstRun,
    /// Waiting for standard input.
    Input { settings: Settings },
    /// Waiting for the delivery.
    Deliver { job: Job },
    /// The message is delivered.
    Done,
    /// The session was given up.
    Failed(Error),
}

/// What a [`Phase`] holds, its texts as sequences of characters.
pub enum PhaseView {
    Reinit,
    Load,
    FirstRun,
    Input { settings: SettingsView },
    Deliver { job: JobView },
    Done,
    Failed(ErrorView),
}

impl View for Phase {
    type V = PhaseView;

    open spec fn view(&self) -> PhaseView {
        match *self {
            Phase::Reinit => PhaseView::Reinit,
            Phase::Load => PhaseView::Load,
            Phase::FirstRun => PhaseView::FirstRun,
            Phase::Input { settings } => PhaseView::Input { settings: settings@ },
            Phase::Deliver { job } => PhaseView::Deliver { job: job@ },
            Phase::Done => PhaseView::Done,
            Phase::Failed(error) => PhaseView::Failed(error@),
        }
    }
}

/// What the driver is to do.
#[derive(Debug, PartialEq, Eq)]
pub enum Action {
    /// Run a setup to its end: [`Event::Initialized`].
    Initialize,
    /// Run a loading to its end: [`Event::Loaded`].
    LoadSettings,
    /// Read standard input to its end: [`Event::Input`].
    ReadInput,
    /// Run the delivery of this job to its end: [`Event::Delivered`].
    Deliver(Job),
    /// Stop: the session has its outcome.
    Finish,
}

/// What an [`Action`] holds, its texts as sequences of characters.
pub enum ActionView {
    Initialize,
    LoadSettings,
    ReadInput,
    Deliver(JobView),
    Finish,
}

impl View for Action {
    type V = ActionView;

    open spec fn view(&self) -> ActionView {
        match *self {
            Action::Initialize => ActionView::Initialize,
            Action::LoadSettings => ActionView::LoadSettings,
            Action::ReadInput => ActionView::ReadInput,
            Action::Deliver(job) => ActionView::Deliver(job@),
            Action::Finish => ActionView::Finish,
        }
    }
}

/// What came of an action.
#[derive(Debug, PartialEq, Eq)]
pub enum Event {
    /// The action failed.
    Failed(Error),
    /// The setup ended with these settings.
    Initialized(Settings),
    /// The loading ended with these settings.
    Loaded(Settings),
    /// All that standard input held.
    Input(String),
    /// The delivery is done.
    Delivered,
}

/// What an [`Event`] holds, its texts as sequences of characters.
pub enum EventView {
    Failed(ErrorView),
    Initialized(SettingsView),
    Loaded(SettingsView),
    Input(Seq<char>),
    Delivered,
}

impl View for Event {
    type V = EventView;

    open spec fn view(&self) -> EventView {
        match *self {
            Event::Failed(error) => EventView::Failed(error@),
            Event::Initialized(settings) => EventView::Initialized(settings@),
            Event::Loaded(settings) => EventView::Loaded(settings@),
            Event::Input(text) => EventView::Input(text@),
            Event::Delivered => EventView::Delivered,
        }
    }
}

/// A session: what the command line said, and where the run stands.
#[derive(Debug, PartialEq, Eq)]
pub struct Session {
    pub options: Options,
    pub phase: Phase,
}

/// What a [`Session`] holds, its texts as sequences of characters.
pub struct SessionView {
    pub options: OptionsView,
    pub phase: PhaseView,
}

impl View for Session {
    type V = SessionView;

    open spec fn view(&self) -> SessionView {
        SessionView { options: self.options@, phase: self.phase@ }
    }
}

impl PhaseView {
    /// The session is over, well or badly.
    pub open spec fn is_final(self) -> bool {
        self is Done || self is Failed
    }
}

impl OptionsView {
    /// The job of delivering `message` under `settings`.
    pub open spec fn job(self, settings: SettingsView, message: Seq<char>) -> JobView {
        JobView { settings, recipients: self.to, sign: self.sign, message }
    }

    /// The phase once the settings are there: the delivery of the message
    /// that came as an argument, or else the reading of standard input.
    pub open spec fn ready(self, settings: SettingsView) -> PhaseView {
        match self.message {
            Some(message) => PhaseView::Deliver { job: self.job(settings, message) },
            None => PhaseView::Input { settings },
        }
    }
}

impl SessionView {
    /// A session before anything was done.
    pub open spec fn start(options: OptionsView) -> SessionView {
        SessionView {
            options,
            phase: if options.reinit {
                PhaseView::Reinit
            } else {
                PhaseView::Load
            },
        }
    }

    /// What the driver is to do now.
    pub open spec fn action(self) -> ActionView {
        match self.phase {
            PhaseView::Reinit => ActionView::Initialize,
            PhaseView::Load => ActionView::LoadSettings,
            PhaseView::FirstRun => ActionView::Initialize,
            PhaseView::Input { .. } => ActionView::ReadInput,
            PhaseView::Deliver { job } => ActionView::Deliver(job),
            PhaseView::Done => ActionView::Finish,
            PhaseView::Failed(_) => ActionView::Finish,
        }
    }

    /// The phase after `event`. A session that is over stays as it is. A
    /// loading that fails for want of a settings file is made up for by a
    /// setup; any other failure ends the session. The settings of the setup
    /// that the options asked for are loaded like any others. Otherwise the
    /// event that the phase waits for moves the session on, and any other
    /// event leaves it where it is.
    pub open spec fn next_phase(self, event: EventView) -> PhaseView {
        let options = self.options;
        match (self.phase, event) {
            (PhaseView::Done, _) => self.phase,
            (PhaseView::Failed(_), _) => self.phase,
            (PhaseView::Load, EventView::Failed(error)) => if error.is_not_found() {
                PhaseView::FirstRun
            } else {
                PhaseView::Failed(error)
            },
            (_, EventView::Failed(error)) => PhaseView::Failed(error),
            (PhaseView::Reinit, EventView::Initialized(_)) => PhaseView::Load,
            (PhaseView::Load, EventView::Loaded(settings)) => options.ready(settings),
            (PhaseView::FirstRun, EventView::Initialized(settings)) => options.ready(settings),
            (PhaseView::Input { settings }, EventView::Input(text)) => PhaseView::Deliver {
                job: options.job(settings, text),
            },
            (PhaseView::Deliver { .. }, EventView::Delivered) => PhaseView::Done,
            _ => self.phase,
        }
    }

    /// The session after `event`.
    pub open spec fn advance(self, event: EventView) -> SessionView {
        SessionView { options: self.options, phase: self.next_phase(event) }
    }

    /// How the session ended, if it has.
    pub open spec fn outcome(self) -> Option<Result<(), ErrorView>> {
        match self.phase {
            PhaseView::Done => Some(Ok(())),
            PhaseView::Failed(error) => Some(Err(error)),
            _ => None,
        }
    }

    /// The session after each of `events` in turn.
    pub open spec fn run(self, events: Seq<EventView>) -> SessionView
        decreases events.len(),
    {
        if events.len() == 0 {
            self
        } else {
            self.advance(events[0]).run(events.drop_first())
        }
    }
}

/// A session that is over stays as it is, whatever is reported to it, and
/// asks for nothing but to stop.
pub proof fn lemma_over_stays_over(session: SessionView, events: Seq<EventView>)
    requires
        session.phase.is_final(),
    ensures
        session.run(events) == session,
        session.action() == ActionView::Finish,
    decreases events.len(),
{
    if events.len() > 0 {
        assert(session.advance(events[0]) == session);
        lemma_over_stays_over(session, events.drop_first());
    }
}

/// Where the options ask for it, the settings are set up before anything
/// else, and then loaded like any others.
pub proof fn lemma_reinit_sets_up_first(options: OptionsView, settings: SettingsView)
    requires
        options.reinit,
    ensures
        SessionView::start(options).action() == ActionView::Initialize,
        SessionView::start(options).advance(EventView::Initialized(settings)).action()
            == ActionView::LoadSettings,
{
}

/// Without that option the settings are loaded first, and a setup makes up
/// for the loading only where it failed for want of the settings file:
/// every other failure of the loading ends the session, with that failure
/// as its outcome.
pub proof fn lemma_setup_only_for_missing_file(options: OptionsView, error: ErrorView)
    requires
        !options.reinit,
    ensures
        SessionView::start(options).action() == ActionView::LoadSettings,
        error.is_not_found() ==> SessionView::start(options).advance(
            EventView::Failed(error),
        ).action() == ActionView::Initialize,
        !error.is_not_found() ==> SessionView::start(options).advance(
            EventView::Failed(error),
        ).outcome() == Some(Err::<(), ErrorView>(error)),
{
}

/// With a message among the options, standard input is never read,
/// whatever happens, and what is delivered is that message.
pub proof fn lemma_argument_spares_standard_input(options: OptionsView, events: Seq<EventView>)
    requires
        options.message is Some,
    ensures
        SessionView::start(options).run(events).action() != ActionView::ReadInput,
        SessionView::start(options).run(events).action() matches ActionView::Deliver(job)
            ==> job.message == options.message->0,
{
    lemma_run_keeps_to_argument(SessionView::start(options), events);
}

proof fn lemma_run_keeps_to_argument(session: SessionView, events: Seq<EventView>)
    requires
        session.options.message is Some,
        !(session.phase is Input),
        session.phase matches PhaseView::Deliver { job } ==> job.message
            == session.options.message->0,
    ensures
        session.run(events).options == session.options,
        !(session.run(events).phase is Input),
        session.run(events).phase matches PhaseView::Deliver { job } ==> job.message
            == session.options.message->0,
    decreases events.len(),
{
    if events.len() > 0 {
        lemma_run_keeps_to_argument(session.advance(events[0]), events.drop_first());
    }
}

/// Without a message among the options, standard input is read once the
/// settings are there, and all that it held is the message, as it is.
pub proof fn lemma_standard_input_is_the_message(
    options: OptionsView,
    settings: SettingsView,
    text: Seq<char>,
)
    requires
        options.message is None,
    ensures
        ({
            let loaded = SessionView { options, phase: PhaseView::Load }.advance(
                EventView::Loaded(settings),
            );
            let set_up = SessionView { options, phase: PhaseView::FirstRun }.advance(
                EventView::Initialized(settings),
            );
            &&& loaded == set_up
            &&& loaded.action() == ActionView::ReadInput
            &&& loaded.advance(EventView::Input(text)).action() == ActionView::Deliver(
                options.job(settings, text),
            )
            &&& options.job(settings, text).message == text
        }),
{
}

/// The path among the options takes no part in a run: two sessions whose
/// options differ in nothing else stand in the same phase after the same
/// events.
pub proof fn lemma_file_takes_no_part(
    options: OptionsView,
    file: Option<Seq<char>>,
    events: Seq<EventView>,
)
    ensures
        SessionView::start(options).run(events).phase == SessionView::start(
            OptionsView { file, ..options },
        ).run(events).phase,
{
    lemma_run_ignores_file(
        SessionView::start(options),
        SessionView::start(OptionsView { file, ..options }),
        events,
    );
}

proof fn lemma_run_ignores_file(one: SessionView, other: SessionView, events: Seq<EventView>)
    requires
        other.options == (OptionsView { file: other.options.file, ..one.options }),
        one.phase == other.phase,
    ensures
        one.run(events).phase == other.run(events).phase,
    decreases events.len(),
{
    if events.len() > 0 {
        lemma_run_ignores_file(
            one.advance(events[0]),
            other.advance(events[0]),
            events.drop_first(),
        );
    }
}

/// The job of delivering `message` under `settings`.
fn job_of(options: &Options, settings: Settings, message: String) -> (r: Job)
    ensures
        r@ == options@.job(settings@, message@),
{
    Job { settings, recipients: copy_texts(&options.to), sign: options.sign, message }
}

/// The phase once the settings are there.
fn ready(options: &Options, settings: Settings) -> (r: Phase)
    ensures
        r@ == options@.ready(settings@),
{
    match &options.message {
        Some(message) => Phase::Deliver { job: job_of(options, settings, message.clone()) },
        None => Phase::Input { settings },
    }
}

impl Session {
    /// A session before anything was done.
    pub fn new(options: Options) -> (r: Session)
        ensures
            r@ == SessionView::start(options@),
    {
        let phase = if options.reinit {
            Phase::Reinit
        } else {
            Phase::Load
        };
        Session { options, phase }
    }

    /// What the driver is to do now.
    pub fn action(&self) -> (r: Action)
        ensures
            r@ == self@.action(),
    {
        match &self.phase {
            Phase::Reinit => Action::Initialize,
            Phase::Load => Action::LoadSettings,
            Phase::FirstRun => Action::Initialize,
            Phase::Input { .. } => Action::ReadInput,
            Phase::Deliver { job } => Action::Deliver(job.clone()),
            Phase::Done => Action::Finish,
            Phase::Failed(_) => Action::Finish,
        }
    }

    /// The session after `event`.
    pub fn advance(self, event: Event) -> (r: Session)
        ensures
            r@ == self@.advance(event@),
    {
        let Session { options, phase } = self;
        let next = match (phase, event) {
            (Phase::Done, _) => Phase::Done,
            (Phase::Failed(error), _) => Phase::Failed(error),
            (Phase::Load, Event::Failed(error)) => {
                if error.is_not_found() {
                    Phase::FirstRun
                } else {
                    Phase::Failed(error)
                }
            },
            (_, Event::Failed(error)) => Phase::Failed(error),
            (Phase::Reinit, Event::Initialized(_)) => Phase::Load,
            (Phase::Load, Event::Loaded(settings)) => ready(&options, settings),
            (Phase::FirstRun, Event::Initialized(settings)) => ready(&options, settings),
            (Phase::Input { settings }, Event::Input(text)) => Phase::Deliver {
                job: job_of(&options, settings, text),
            },
            (Phase::Deliver { .. }, Event::Delivered) => Phase::Done,
            (phase, _) => phase,
        };
        Session { options, phase: next }
    }

    /// How the session ended, if it has.
    pub fn outcome(self) -> (r: Option<Result<(), Error>>)
        ensures
            match self@.outcome() {
                Some(Ok(())) => r == Some(Ok::<(), Error>(())),
                Some(Err(error)) => r matches Some(Err(e)) && e@ == error,
                None => r is None,
            },
    {
        match self.phase {
            Phase::Done => Some(Ok(())),
            Phase::Failed(error) => Some(Err(error)),
            _ => None,
        }
    }
}

} // verus!
