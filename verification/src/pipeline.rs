//! The delivery of one message to each recipient in turn.
//!
//! A [`Delivery`] decides; its driver acts. The driver asks for the
//! [`Action`] of the moment, performs it, and reports what came of it as an
//! [`Event`], until the action is [`Action::Finish`]. The first failure
//! ends the delivery: what was posted stays posted, and nothing more is
//! sent.

use vstd::prelude::*;
use crate::api::ChannelId;
use crate::api::Request;
use crate::api::RequestView;
use crate::api::Token;
use crate::api::User;
use crate::api::UserView;
use crate::api::bearer;
use crate::error::Error;
use crate::error::ErrorView;
use crate::report::Confirmation;
use crate::report::ConfirmationView;
use crate::report::decrypt_instructions;
use crate::report::wrap_ciphertext;
use crate::settings::Settings;
use crate::settings::SettingsView;

verus! {

/// What is to be delivered, to whom, and on whose behalf.
#[derive(Debug, PartialEq, Eq)]
pub struct Job {
    pub settings: Settings,
    /// The recipients' email addresses, which also name their keys.
    pub recipients: Vec<String>,
    /// Whether the message is signed as well as encrypted.
    pub sign: bool,
    pub message: String,
}

/// What a [`Job`] holds, its texts as sequences of characters.
pub struct JobView {
    pub settings: SettingsView,
    pub recipients: Seq<Seq<char>>,
    pub sign: bool,
    pub message: Seq<char>,
}

impl View for Job {
    type V = JobView;

    open spec fn view(&self) -> JobView {
        JobView {
            settings: self.settings@,
            recipients: self.recipients.deep_view(),
            sign: self.sign,
            message: self.message@,
        }
    }
}

/// A copy of `texts`.
pub(crate) fn copy_texts(texts: &Vec<String>) -> (r: Vec<String>)
    ensures
        r.deep_view() == texts.deep_view(),
{
    let mut copy: Vec<String> = Vec::new();
    let mut i: usize = 0;
    while i < texts.len()
        invariant
            i <= texts.len(),
            copy.len() == i,
            forall|j: int| 0 <= j < i ==> copy[j]@ == texts[j]@,
        decreases texts.len() - i,
    {
        copy.push(texts[i].clone());
        i += 1;
    }
    assert(copy.deep_view() =~= texts.deep_view());
    copy
}

impl Clone for Job {
    fn clone(&self) -> (r: Self)
        ensures
            r@ == self@,
    {
        Job {
            settings: self.settings.clone(),
            recipients: copy_texts(&self.recipients),
            sign: self.sign,
            message: self.message.clone(),
        }
    }
}

/// What the login gave: the token, and who the sender is.
#[derive(Debug, PartialEq, Eq)]
pub struct Access {
    pub token: Token,
    pub sender: User,
}

/// What an [`Access`] holds, its texts as sequences of characters.
pub struct AccessView {
    pub token: Seq<char>,
    pub sender: UserView,
}

impl View for Access {
    type V = AccessView;

    open spec fn view(&self) -> AccessView {
        AccessView { token: self.token@, sender: self.sender@ }
    }
}

/// Whose turn it is: the place in the list of recipients, and the address
/// that stands there.
#[derive(Debug, PartialEq, Eq)]
pub struct Turn {
    pub index: usize,
    pub recipient: String,
}

/// What a [`Turn`] holds, its texts as sequences of characters.
pub struct TurnView {
    pub index: nat,
    pub recipient: Seq<char>,
}

impl View for Turn {
    type V = TurnView;

    open spec fn view(&self) -> TurnView {
        TurnView { index: self.index as nat, recipient: self.recipient@ }
    }
}

/// Where a delivery stands. Each phase but the last two waits for the
/// outcome of one action.
#[derive(Debug, PartialEq, Eq)]
pub enum Phase {
    /// Waiting for the answer to the login.
    Login,
    /// Waiting for the sender's record from the body of that answer.
    Profile { token: Token },
    /// Waiting for the OpenPGP engine to open.
    Crypto { access: Access },
    /// Waiting for the recipient's key.
    Key { access: Access, turn: Turn },
    /// Waiting for the ciphertext.
    Encrypt { access: Access, turn: Turn },
    /// Waiting for the recipient's record.
    Lookup { access: Access, turn: Turn, armored: String },
    /// Waiting for the channel between sender and recipient.
    Channel { access: Access, turn: Turn, armored: String, user: User },
    /// Waiting for the post to be accepted.
    Post { access: Access, turn: Turn, user: User, channel: ChannelId, post: String },
    /// Waiting for the fingerprint of the recipient's key.
    Fingerprint { access: Access, turn: Turn, user: User, post: String },
    /// Waiting for the confirmation to be shown.
    Report { access: Access, turn: Turn, user: User, post: String, fingerprint: String },
    /// Every recipient has the message.
    Done,
    /// The delivery was given up.
    Failed(Error),
}

/// What a [`Phase`] holds, its texts as sequences of characters.
pub enum PhaseView {
    Login,
    Profile { token: Seq<char> },
    Crypto { access: AccessView },
    Key { access: AccessView, turn: TurnView },
    Encrypt { access: AccessView, turn: TurnView },
    Lookup { access: AccessView, turn: TurnView, armored: Seq<char> },
    Channel { access: AccessView, turn: TurnView, armored: Seq<char>, user: UserView },
    Post {
        access: AccessView,
        turn: TurnView,
        user: UserView,
        channel: Seq<char>,
        post: Seq<char>,
    },
    Fingerprint { access: AccessView, turn: TurnView, user: UserView, post: Seq<char> },
    Report {
        access: AccessView,
        turn: TurnView,
        user: UserView,
        post: Seq<char>,
        fingerprint: Seq<char>,
    },
    Done,
    Failed(ErrorView),
}

impl View for Phase {
    type V = PhaseView;

    open spec fn view(&self) -> PhaseView {
        match *self {
            Phase::Login => PhaseView::Login,
            Phase::Profile { token } => PhaseView::Profile { token: token@ },
            Phase::Crypto { access } => PhaseView::Crypto { access: access@ },
            Phase::Key { access, turn } => PhaseView::Key { access: access@, turn: turn@ },
            Phase::Encrypt { access, turn } => PhaseView::Encrypt {
                access: access@,
                turn: turn@,
            },
            Phase::Lookup { access, turn, armored } => PhaseView::Lookup {
                access: access@,
                turn: turn@,
                armored: armored@,
            },
            Phase::Channel { access, turn, armored, user } => PhaseView::Channel {
                access: access@,
                turn: turn@,
                armored: armored@,
                user: user@,
            },
            Phase::Post { access, turn, user, channel, post } => PhaseView::Post {
                access: access@,
                turn: turn@,
                user: user@,
                channel: channel@,
                post: post@,
            },
            Phase::Fingerprint { access, turn, user, post } => PhaseView::Fingerprint {
                access: access@,
                turn: turn@,
                user: user@,
                post: post@,
            },
            Phase::Report { access, turn, user, post, fingerprint } => PhaseView::Report {
                access: access@,
                turn: turn@,
                user: user@,
                post: post@,
                fingerprint: fingerprint@,
            },
            Phase::Done => PhaseView::Done,
            Phase::Failed(error) => PhaseView::Failed(error@),
        }
    }
}

/// What the driver is to do.
#[derive(Debug, PartialEq, Eq)]
pub enum Action {
    /// Send the request. A login is answered by [`Event::Headers`], a
    /// lookup by [`Event::UserFound`], the opening of a channel by
    /// [`Event::ChannelOpened`], a post by [`Event::Posted`].
    Send(Request),
    /// Decode the body of the login's answer: [`Event::Profile`].
    ReadProfile,
    /// Open the OpenPGP engine, with armored output: [`Event::CryptoOpened`].
    OpenCrypto,
    /// Find the key of this recipient: [`Event::KeyFound`].
    FindKey { recipient: String },
    /// Encrypt the text for the key found last: [`Event::Encrypted`].
    Encrypt { plaintext: String },
    /// Sign the text and encrypt it for the key found last:
    /// [`Event::Encrypted`].
    SignAndEncrypt { plaintext: String },
    /// Read the fingerprint of the key found last: [`Event::Fingerprint`].
    ReadFingerprint,
    /// Show the confirmation: [`Event::Reported`].
    Report(Confirmation),
    /// Stop: the delivery has its outcome.
    Finish,
}

/// What an [`Action`] holds, its texts as sequences of characters.
pub enum ActionView {
    Send(RequestView),
    ReadProfile,
    OpenCrypto,
    FindKey { recipient: Seq<char> },
    Encrypt { plaintext: Seq<char> },
    SignAndEncrypt { plaintext: Seq<char> },
    ReadFingerprint,
    Report(ConfirmationView),
    Finish,
}

impl View for Action {
    type V = ActionView;

    open spec fn view(&self) -> ActionView {
        match *self {
            Action::Send(request) => ActionView::Send(request@),
            Action::ReadProfile => ActionView::ReadProfile,
            Action::OpenCrypto => ActionView::OpenCrypto,
            Action::FindKey { recipient } => ActionView::FindKey { recipient: recipient@ },
            Action::Encrypt { plaintext } => ActionView::Encrypt { plaintext: plaintext@ },
            Action::SignAndEncrypt { plaintext } => ActionView::SignAndEncrypt {
                plaintext: plaintext@,
            },
            Action::ReadFingerprint => ActionView::ReadFingerprint,
            Action::Report(confirmation) => ActionView::Report(confirmation@),
            Action::Finish => ActionView::Finish,
        }
    }
}

/// What came of an action.
#[derive(Debug, PartialEq, Eq)]
pub enum Event {
    /// The action failed.
    Failed(Error),
    /// The login was answered; `token` is the value of the answer's token
    /// header, if it has one.
    Headers { token: Option<String> },
    /// The body of the login's answer is this user.
    Profile(User),
    /// The OpenPGP engine is open.
    CryptoOpened,
    /// The recipient has a key.
    KeyFound,
    /// The ciphertext, armored.
    Encrypted { armored: String },
    /// The recipient is this user.
    UserFound(User),
    /// The channel between sender and recipient.
    ChannelOpened(ChannelId),
    /// The post was accepted.
    Posted,
    /// The fingerprint of the recipient's key.
    Fingerprint(String),
    /// The confirmation was shown.
    Reported,
}

/// What an [`Event`] holds, its texts as sequences of characters.
pub enum EventView {
    Failed(ErrorView),
    Headers { token: Option<Seq<char>> },
    Profile(UserView),
    CryptoOpened,
    KeyFound,
    Encrypted { armored: Seq<char> },
    UserFound(UserView),
    ChannelOpened(Seq<char>),
    Posted,
    Fingerprint(Seq<char>),
    Reported,
}

impl View for Event {
    type V = EventView;

    open spec fn view(&self) -> EventView {
        match *self {
            Event::Failed(error) => EventView::Failed(error@),
            Event::Headers { token } => EventView::Headers { token: token.deep_view() },
            Event::Profile(user) => EventView::Profile(user@),
            Event::CryptoOpened => EventView::CryptoOpened,
            Event::KeyFound => EventView::KeyFound,
            Event::Encrypted { armored } => EventView::Encrypted { armored: armored@ },
            Event::UserFound(user) => EventView::UserFound(user@),
            Event::ChannelOpened(channel) => EventView::ChannelOpened(channel@),
            Event::Posted => EventView::Posted,
            Event::Fingerprint(fingerprint) => EventView::Fingerprint(fingerprint@),
            Event::Reported => EventView::Reported,
        }
    }
}

/// A delivery: what is to be delivered, and where it stands.
#[derive(Debug, PartialEq, Eq)]
pub struct Delivery {
    pub job: Job,
    pub phase: Phase,
}

/// What a [`Delivery`] holds, its texts as sequences of characters.
pub struct DeliveryView {
    pub job: JobView,
    pub phase: PhaseView,
}

impl View for Delivery {
    type V = DeliveryView;

    open spec fn view(&self) -> DeliveryView {
        DeliveryView { job: self.job@, phase: self.phase@ }
    }
}

impl PhaseView {
    /// The delivery is over, well or badly.
    pub open spec fn is_final(self) -> bool {
        self is Done || self is Failed
    }

    /// The phase that opens the turn of the recipient at `index`, or the
    /// end where no recipient stands there.
    pub open spec fn turn_of(job: JobView, access: AccessView, index: nat) -> PhaseView {
        if index < job.recipients.len() {
            PhaseView::Key {
                access,
                turn: TurnView { index, recipient: job.recipients[index as int] },
            }
        } else {
            PhaseView::Done
        }
    }
}

impl DeliveryView {
    /// A delivery before anything was done.
    pub open spec fn start(job: JobView) -> DeliveryView {
        DeliveryView { job, phase: PhaseView::Login }
    }

    /// What the driver is to do now.
    pub open spec fn action(self) -> ActionView {
        let job = self.job;
        match self.phase {
            PhaseView::Login => ActionView::Send(RequestView::login(job.settings)),
            PhaseView::Profile { .. } => ActionView::ReadProfile,
            PhaseView::Crypto { .. } => ActionView::OpenCrypto,
            PhaseView::Key { turn, .. } => ActionView::FindKey { recipient: turn.recipient },
            PhaseView::Encrypt { .. } => if job.sign {
                ActionView::SignAndEncrypt { plaintext: job.message }
            } else {
                ActionView::Encrypt { plaintext: job.message }
            },
            PhaseView::Lookup { access, turn, .. } => ActionView::Send(
                RequestView::user_by_email(job.settings, access.token, turn.recipient),
            ),
            PhaseView::Channel { access, user, .. } => ActionView::Send(
                RequestView::direct_channel(
                    job.settings,
                    access.token,
                    access.sender.id,
                    user.id,
                ),
            ),
            PhaseView::Post { access, channel, post, .. } => ActionView::Send(
                RequestView::post(job.settings, access.token, channel, post),
            ),
            PhaseView::Fingerprint { .. } => ActionView::ReadFingerprint,
            PhaseView::Report { access, user, post, fingerprint, .. } => ActionView::Report(
                ConfirmationView {
                    sender: access.sender.email,
                    recipient: user.email,
                    fingerprint,
                    message: post,
                },
            ),
            PhaseView::Done => ActionView::Finish,
            PhaseView::Failed(_) => ActionView::Finish,
        }
    }

    /// The phase after `event`. A delivery that is over stays as it is. A
    /// failure ends any other. Otherwise the event that the phase waits for
    /// moves the delivery on, and any other event leaves it where it is.
    pub open spec fn next_phase(self, event: EventView) -> PhaseView {
        let job = self.job;
        match (self.phase, event) {
            (PhaseView::Done, _) => self.phase,
            (PhaseView::Failed(_), _) => self.phase,
            (_, EventView::Failed(error)) => PhaseView::Failed(error),
            (PhaseView::Login, EventView::Headers { token }) => match bearer(token) {
                Ok(token) => PhaseView::Profile { token },
                Err(error) => PhaseView::Failed(error),
            },
            (PhaseView::Profile { token }, EventView::Profile(sender)) => PhaseView::Crypto {
                access: AccessView { token, sender },
            },
            (PhaseView::Crypto { access }, EventView::CryptoOpened) => PhaseView::turn_of(
                job,
                access,
                0,
            ),
            (PhaseView::Key { access, turn }, EventView::KeyFound) => PhaseView::Encrypt {
                access,
                turn,
            },
            (
                PhaseView::Encrypt { access, turn },
                EventView::Encrypted { armored },
            ) => PhaseView::Lookup { access, turn, armored },
            (
                PhaseView::Lookup { access, turn, armored },
                EventView::UserFound(user),
            ) => PhaseView::Channel { access, turn, armored, user },
            (
                PhaseView::Channel { access, turn, armored, user },
                EventView::ChannelOpened(channel),
            ) => PhaseView::Post {
                access,
                turn,
                user,
                channel,
                post: decrypt_instructions(armored),
            },
            (
                PhaseView::Post { access, turn, user, post, .. },
                EventView::Posted,
            ) => PhaseView::Fingerprint { access, turn, user, post },
            (
                PhaseView::Fingerprint { access, turn, user, post },
                EventView::Fingerprint(fingerprint),
            ) => PhaseView::Report { access, turn, user, post, fingerprint },
            (PhaseView::Report { access, turn, .. }, EventView::Reported) => PhaseView::turn_of(
                job,
                access,
                turn.index + 1,
            ),
            _ => self.phase,
        }
    }

    /// The delivery after `event`.
    pub open spec fn advance(self, event: EventView) -> DeliveryView {
        DeliveryView { job: self.job, phase: self.next_phase(event) }
    }

    /// How the delivery ended, if it has.
    pub open spec fn outcome(self) -> Option<Result<(), ErrorView>> {
        match self.phase {
            PhaseView::Done => Some(Ok(())),
            PhaseView::Failed(error) => Some(Err(error)),
            _ => None,
        }
    }
}

impl DeliveryView {
    /// The delivery after each of `events` in turn.
    pub open spec fn run(self, events: Seq<EventView>) -> DeliveryView
        decreases events.len(),
    {
        if events.len() == 0 {
            self
        } else {
            self.advance(events[0]).run(events.drop_first())
        }
    }

    /// Every turn that is under way is that of a recipient of the job, at
    /// that recipient's place in the list.
    pub open spec fn on_the_list(self) -> bool {
        let on_list = |turn: TurnView|
            turn.index < self.job.recipients.len() && turn.recipient
                == self.job.recipients[turn.index as int];
        match self.phase {
            PhaseView::Key { turn, .. } => on_list(turn),
            PhaseView::Encrypt { turn, .. } => on_list(turn),
            PhaseView::Lookup { turn, .. } => on_list(turn),
            PhaseView::Channel { turn, .. } => on_list(turn),
            PhaseView::Post { turn, .. } => on_list(turn),
            PhaseView::Fingerprint { turn, .. } => on_list(turn),
            PhaseView::Report { turn, .. } => on_list(turn),
            _ => true,
        }
    }
}

/// A delivery that is over stays as it is, whatever is reported to it, and
/// asks for nothing but to stop.
pub proof fn lemma_over_stays_over(delivery: DeliveryView, events: Seq<EventView>)
    requires
        delivery.phase.is_final(),
    ensures
        delivery.run(events) == delivery,
        delivery.action() == ActionView::Finish,
    decreases events.len(),
{
    if events.len() > 0 {
        assert(delivery.advance(events[0]) == delivery);
        lemma_over_stays_over(delivery, events.drop_first());
    }
}

/// The first failure ends a delivery: whatever the delivery was waiting
/// for, it is over with that failure as its outcome, and whatever is
/// reported later it asks for nothing more. What was done before the
/// failure is not undone, and no recipient after it gets a turn.
pub proof fn lemma_failure_ends_delivery(
    delivery: DeliveryView,
    error: ErrorView,
    later: Seq<EventView>,
)
    requires
        !delivery.phase.is_final(),
    ensures
        delivery.advance(EventView::Failed(error)).phase == PhaseView::Failed(error),
        delivery.advance(EventView::Failed(error)).run(later).outcome() == Some(
            Err::<(), ErrorView>(error),
        ),
        delivery.advance(EventView::Failed(error)).run(later).action() == ActionView::Finish,
{
    lemma_over_stays_over(delivery.advance(EventView::Failed(error)), later);
}

/// A login whose answer has no token header ends the delivery at once with
/// [`Error::TokenMissing`]: the sender's record is not read, no key is
/// looked up and nothing is sent.
pub proof fn lemma_missing_token_ends_delivery(job: JobView, later: Seq<EventView>)
    ensures
        ({
            let ended = DeliveryView::start(job).advance(EventView::Headers { token: None });
            &&& ended.phase == PhaseView::Failed(ErrorView::TokenMissing)
            &&& ended.run(later).outcome() == Some(
                Err::<(), ErrorView>(ErrorView::TokenMissing),
            )
            &&& ended.run(later).action() == ActionView::Finish
        }),
{
    lemma_over_stays_over(
        DeliveryView::start(job).advance(EventView::Headers { token: None }),
        later,
    );
}

impl EventView {
    /// The event is the answer to a login, with a token header.
    pub open spec fn brings_token(self) -> bool {
        self matches EventView::Headers { token } && token is Some
    }
}

/// Without a token nothing is done: after any events among which there is
/// no answer with a token header, the delivery is still waiting for the
/// answer to its login, or it was given up. It has not read the sender's
/// record, looked up a key or a user, or posted anything.
pub proof fn lemma_nothing_done_without_token(delivery: DeliveryView, events: Seq<EventView>)
    requires
        delivery.phase is Login || delivery.phase is Failed,
        forall|i: int| 0 <= i < events.len() ==> !(#[trigger] events[i]).brings_token(),
    ensures
        DeliveryView::start(delivery.job).phase is Login,
        delivery.run(events).phase is Login || delivery.run(events).phase is Failed,
        delivery.run(events).action() == ActionView::Send(
            RequestView::login(delivery.job.settings),
        ) || delivery.run(events).action() == ActionView::Finish,
    decreases events.len(),
{
    if events.len() > 0 {
        assert(!events[0].brings_token());
        let rest = events.drop_first();
        assert forall|i: int| 0 <= i < rest.len() implies !(#[trigger] rest[i]).brings_token() by {
            assert(rest[i] == events[i + 1]);
        }
        lemma_nothing_done_without_token(delivery.advance(events[0]), rest);
    }
}

/// A delivery logs in once, before anything else: it sends the login, reads
/// the sender's record once the answer has a token, opens the OpenPGP
/// engine, and then gives the first recipient their turn.
pub proof fn lemma_login_comes_first(job: JobView, header: Seq<char>, sender: UserView)
    ensures
        ({
            let begun = DeliveryView::start(job);
            let answered = begun.advance(EventView::Headers { token: Some(header) });
            let known = answered.advance(EventView::Profile(sender));
            let opened = known.advance(EventView::CryptoOpened);
            &&& begun.action() == ActionView::Send(RequestView::login(job.settings))
            &&& answered.action() == ActionView::ReadProfile
            &&& known.action() == ActionView::OpenCrypto
            &&& opened.phase == PhaseView::turn_of(
                job,
                AccessView { token: "Bearer "@ + header, sender },
                0,
            )
        }),
{
}

/// A turn that meets no failure: the key is found, the message encrypted,
/// and signed where the job says so, the recipient looked up by the address given, the channel opened between
/// the sender and that user, the ciphertext posted there inside the
/// decrypt instructions, the fingerprint read and the confirmation shown,
/// in this order. Then the next recipient has their turn, or the delivery
/// is done.
pub proof fn lemma_turn_without_failure(
    delivery: DeliveryView,
    armored: Seq<char>,
    user: UserView,
    channel: Seq<char>,
    fingerprint: Seq<char>,
)
    requires
        delivery.phase is Key,
    ensures
        ({
            let job = delivery.job;
            let access = delivery.phase->Key_access;
            let turn = delivery.phase->Key_turn;
            let post = decrypt_instructions(armored);
            let found = delivery.advance(EventView::KeyFound);
            let encrypted = found.advance(EventView::Encrypted { armored });
            let looked_up = encrypted.advance(EventView::UserFound(user));
            let opened = looked_up.advance(EventView::ChannelOpened(channel));
            let posted = opened.advance(EventView::Posted);
            let read = posted.advance(EventView::Fingerprint(fingerprint));
            let shown = read.advance(EventView::Reported);
            &&& delivery.action() == ActionView::FindKey { recipient: turn.recipient }
            &&& found.action() == if job.sign {
                ActionView::SignAndEncrypt { plaintext: job.message }
            } else {
                ActionView::Encrypt { plaintext: job.message }
            }
            &&& encrypted.action() == ActionView::Send(
                RequestView::user_by_email(job.settings, access.token, turn.recipient),
            )
            &&& looked_up.action() == ActionView::Send(
                RequestView::direct_channel(
                    job.settings,
                    access.token,
                    access.sender.id,
                    user.id,
                ),
            )
            &&& opened.action() == ActionView::Send(
                RequestView::post(job.settings, access.token, channel, post),
            )
            &&& posted.action() == ActionView::ReadFingerprint
            &&& read.action() == ActionView::Report(
                ConfirmationView {
                    sender: access.sender.email,
                    recipient: user.email,
                    fingerprint,
                    message: post,
                },
            )
            &&& shown.phase == PhaseView::turn_of(job, access, turn.index + 1)
        }),
{
}

/// Recipients have their turns one at a time and in the order of the list:
/// from its start and after every event, the turn of a delivery that is
/// under way, if there is one, is that of a recipient of the job, at that
/// recipient's place.
pub proof fn lemma_turns_follow_the_list(delivery: DeliveryView, events: Seq<EventView>)
    requires
        delivery.on_the_list(),
    ensures
        DeliveryView::start(delivery.job).on_the_list(),
        delivery.run(events).on_the_list(),
    decreases events.len(),
{
    if events.len() > 0 {
        lemma_turns_follow_the_list(delivery.advance(events[0]), events.drop_first());
    }
}

impl DeliveryView {
    /// `event` is the good news that the delivery waits for: the outcome of
    /// its action, where the action did not fail and the login gave a
    /// token.
    pub open spec fn awaits(self, event: EventView) -> bool {
        match (self.phase, event) {
            (PhaseView::Login, EventView::Headers { token }) => token is Some,
            (PhaseView::Profile { .. }, EventView::Profile(_)) => true,
            (PhaseView::Crypto { .. }, EventView::CryptoOpened) => true,
            (PhaseView::Key { .. }, EventView::KeyFound) => true,
            (PhaseView::Encrypt { .. }, EventView::Encrypted { .. }) => true,
            (PhaseView::Lookup { .. }, EventView::UserFound(_)) => true,
            (PhaseView::Channel { .. }, EventView::ChannelOpened(_)) => true,
            (PhaseView::Post { .. }, EventView::Posted) => true,
            (PhaseView::Fingerprint { .. }, EventView::Fingerprint(_)) => true,
            (PhaseView::Report { .. }, EventView::Reported) => true,
            _ => false,
        }
    }

    /// Each of `events` in turn is the good news that the delivery then
    /// waits for.
    pub open spec fn runs_smoothly(self, events: Seq<EventView>) -> bool
        decreases events.len(),
    {
        events.len() == 0 || (self.awaits(events[0]) && self.advance(events[0]).runs_smoothly(
            events.drop_first(),
        ))
    }

    /// How many actions are still to be performed before the delivery is
    /// done, if none of them fails: three for the login, and seven for each
    /// recipient.
    pub open spec fn steps_left(self) -> int {
        let turns = self.job.recipients.len() as int;
        match self.phase {
            PhaseView::Login => 3 + 7 * turns,
            PhaseView::Profile { .. } => 2 + 7 * turns,
            PhaseView::Crypto { .. } => 1 + 7 * turns,
            PhaseView::Key { turn, .. } => 7 * (turns - turn.index),
            PhaseView::Encrypt { turn, .. } => 7 * (turns - turn.index) - 1,
            PhaseView::Lookup { turn, .. } => 7 * (turns - turn.index) - 2,
            PhaseView::Channel { turn, .. } => 7 * (turns - turn.index) - 3,
            PhaseView::Post { turn, .. } => 7 * (turns - turn.index) - 4,
            PhaseView::Fingerprint { turn, .. } => 7 * (turns - turn.index) - 5,
            PhaseView::Report { turn, .. } => 7 * (turns - turn.index) - 6,
            PhaseView::Done => 0,
            PhaseView::Failed(_) => 0,
        }
    }
}

/// Good news is a step towards the end: it leaves one action less to be
/// performed. Any other event changes nothing, unless it is a failure or
/// the answer to a login. As long as the delivery is under way there is at
/// least one action left, and once it is over there is none.
pub proof fn lemma_good_news_is_a_step(delivery: DeliveryView, event: EventView)
    requires
        delivery.on_the_list(),
    ensures
        delivery.phase.is_final() <==> delivery.steps_left() == 0,
        delivery.steps_left() >= 0,
        delivery.awaits(event) ==> delivery.advance(event).steps_left() == delivery.steps_left()
            - 1 && !(delivery.advance(event).phase is Failed),
        !delivery.awaits(event) && !(event is Failed) && !(event is Headers)
            ==> delivery.advance(event) == delivery,
{
}

/// A delivery in which nothing fails is done after three actions and seven
/// for each recipient, and not before.
pub proof fn lemma_smooth_delivery_ends(job: JobView, events: Seq<EventView>)
    requires
        DeliveryView::start(job).runs_smoothly(events),
    ensures
        events.len() <= 3 + 7 * job.recipients.len(),
        DeliveryView::start(job).run(events).phase is Done <==> events.len() == 3 + 7
            * job.recipients.len(),
        !(DeliveryView::start(job).run(events).phase is Failed),
{
    lemma_smooth_run_counts_down(DeliveryView::start(job), events);
    lemma_good_news_is_a_step(DeliveryView::start(job).run(events), EventView::Posted);
}

proof fn lemma_smooth_run_counts_down(delivery: DeliveryView, events: Seq<EventView>)
    requires
        delivery.on_the_list(),
        !(delivery.phase is Failed),
        delivery.runs_smoothly(events),
    ensures
        delivery.run(events).on_the_list(),
        !(delivery.run(events).phase is Failed),
        delivery.run(events).steps_left() == delivery.steps_left() - events.len(),
    decreases events.len(),
{
    if events.len() > 0 {
        lemma_good_news_is_a_step(delivery, events[0]);
        lemma_smooth_run_counts_down(delivery.advance(events[0]), events.drop_first());
    }
}

/// The phase that opens the turn of the recipient at `index`, or the end.
fn turn_of(job: &Job, access: Access, index: usize) -> (r: Phase)
    ensures
        r@ == PhaseView::turn_of(job@, access@, index as nat),
{
    if index < job.recipients.len() {
        let recipient = job.recipients[index].clone();
        Phase::Key { access, turn: Turn { index, recipient } }
    } else {
        Phase::Done
    }
}

impl Delivery {
    /// A delivery before anything was done.
    pub fn new(job: Job) -> (r: Delivery)
        ensures
            r@ == DeliveryView::start(job@),
            r@.on_the_list(),
    {
        Delivery { job, phase: Phase::Login }
    }

    /// What the driver is to do now.
    pub fn action(&self) -> (r: Action)
        ensures
            r@ == self@.action(),
    {
        let job = &self.job;
        match &self.phase {
            Phase::Login => Action::Send(Request::login(&job.settings)),
            Phase::Profile { .. } => Action::ReadProfile,
            Phase::Crypto { .. } => Action::OpenCrypto,
            Phase::Key { turn, .. } => Action::FindKey { recipient: turn.recipient.clone() },
            Phase::Encrypt { .. } => {
                if job.sign {
                    Action::SignAndEncrypt { plaintext: job.message.clone() }
                } else {
                    Action::Encrypt { plaintext: job.message.clone() }
                }
            },
            Phase::Lookup { access, turn, .. } => Action::Send(
                Request::user_by_email(&job.settings, &access.token, turn.recipient.as_str()),
            ),
            Phase::Channel { access, user, .. } => Action::Send(
                Request::direct_channel(
                    &job.settings,
                    &access.token,
                    access.sender.id.as_str(),
                    user.id.as_str(),
                ),
            ),
            Phase::Post { access, channel, post, .. } => Action::Send(
                Request::post(&job.settings, &access.token, channel, post.as_str()),
            ),
            Phase::Fingerprint { .. } => Action::ReadFingerprint,
            Phase::Report { access, user, post, fingerprint, .. } => Action::Report(
                Confirmation {
                    sender: access.sender.email.clone(),
                    recipient: user.email.clone(),
                    fingerprint: fingerprint.clone(),
                    message: post.clone(),
                },
            ),
            Phase::Done => Action::Finish,
            Phase::Failed(_) => Action::Finish,
        }
    }

    /// The delivery after `event`.
    pub fn advance(self, event: Event) -> (r: Delivery)
        ensures
            r@ == self@.advance(event@),
            self@.on_the_list() ==> r@.on_the_list(),
    {
        let Delivery { job, phase } = self;
        let next = match (phase, event) {
            (Phase::Done, _) => Phase::Done,
            (Phase::Failed(error), _) => Phase::Failed(error),
            (_, Event::Failed(error)) => Phase::Failed(error),
            (Phase::Login, Event::Headers { token }) => match Token::from_header(token) {
                Ok(token) => Phase::Profile { token },
                Err(error) => Phase::Failed(error),
            },
            (Phase::Profile { token }, Event::Profile(sender)) => Phase::Crypto {
                access: Access { token, sender },
            },
            (Phase::Crypto { access }, Event::CryptoOpened) => turn_of(&job, access, 0),
            (Phase::Key { access, turn }, Event::KeyFound) => Phase::Encrypt { access, turn },
            (Phase::Encrypt { access, turn }, Event::Encrypted { armored }) => Phase::Lookup {
                access,
                turn,
                armored,
            },
            (Phase::Lookup { access, turn, armored }, Event::UserFound(user)) => Phase::Channel {
                access,
                turn,
                armored,
                user,
            },
            (
                Phase::Channel { access, turn, armored, user },
                Event::ChannelOpened(channel),
            ) => {
                let post = wrap_ciphertext(armored.as_str());
                Phase::Post { access, turn, user, channel, post }
            },
            (Phase::Post { access, turn, user, post, .. }, Event::Posted) => Phase::Fingerprint {
                access,
                turn,
                user,
                post,
            },
            (
                Phase::Fingerprint { access, turn, user, post },
                Event::Fingerprint(fingerprint),
            ) => Phase::Report { access, turn, user, post, fingerprint },
            (Phase::Report { access, turn, .. }, Event::Reported) => {
                if turn.index < job.recipients.len() {
                    turn_of(&job, access, turn.index + 1)
                } else {
                    Phase::Done
                }
            },
            (phase, _) => phase,
        };
        Delivery { job, phase: next }
    }

    /// How the delivery ended, if it has.
    pub fn outcome(self) -> (r: Option<Result<(), Error>>)
        ensures
            match self@.outcome() {
                Some(Ok(())) => r == Some(Ok::<(), Error>(())),
                Some(Err(error)) => r matches Some(Err(e)) && e@ == error,
                None => r is None,
            },
    {
        match self.phase {
            Phase::Done => Some(Ok(())),
            Phase::Failed(error) => Some(Err(error)),
            _ => None,
        }
    }
}

} // verus!
