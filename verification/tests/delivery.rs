use mattercrypt::api::{ChannelId, Request, User};
use mattercrypt::error::Error;
use mattercrypt::pipeline::{Action, Delivery, Event, Job, Phase};
use mattercrypt::report::Confirmation;
use mattercrypt::settings::Settings;

fn settings() -> Settings {
    Settings {
        api_url: "https://chat.example.com/api/v4".to_string(),
        username: "alice".to_string(),
        password: "p".to_string(),
    }
}

fn user(id: &str, email: &str) -> User {
    User {
        id: id.to_string(),
        email: email.to_string(),
        first_name: String::new(),
        last_name: String::new(),
        nickname: String::new(),
    }
}

fn job(recipients: &[&str], sign: bool) -> Job {
    Job {
        settings: settings(),
        recipients: recipients.iter().map(|r| r.to_string()).collect(),
        sign,
        message: "hello".to_string(),
    }
}

fn logged_in(job: Job) -> Delivery {
    Delivery::new(job)
        .advance(Event::Headers { token: Some("tok".to_string()) })
        .advance(Event::Profile(user("a1", "alice@example.com")))
        .advance(Event::CryptoOpened)
}

const ARMORED: &str = "-----BEGIN PGP MESSAGE-----\n\nhQEMA\n-----END PGP MESSAGE-----\n";

const POST: &str =
    "```\necho \"\n-----BEGIN PGP MESSAGE-----\n\nhQEMA\n-----END PGP MESSAGE-----\n\" | gpg --decrypt\n```";

fn one_turn(delivery: Delivery, id: &str, email: &str, channel: &str, fingerprint: &str) -> Delivery {
    delivery
        .advance(Event::KeyFound)
        .advance(Event::Encrypted { armored: ARMORED.to_string() })
        .advance(Event::UserFound(user(id, email)))
        .advance(Event::ChannelOpened(ChannelId(channel.to_string())))
        .advance(Event::Posted)
        .advance(Event::Fingerprint(fingerprint.to_string()))
        .advance(Event::Reported)
}

#[test]
fn delivers_hello_to_bob() {
    let delivery = Delivery::new(job(&["bob@example.com"], false));
    assert_eq!(
        delivery.action(),
        Action::Send(Request::Login {
            uri: "https://chat.example.com/api/v4/users/login".to_string(),
            login_id: "alice".to_string(),
            password: "p".to_string(),
        })
    );
    let delivery = delivery.advance(Event::Headers { token: Some("tok".to_string()) });
    assert_eq!(delivery.action(), Action::ReadProfile);
    let delivery = delivery.advance(Event::Profile(user("a1", "alice@example.com")));
    assert_eq!(delivery.action(), Action::OpenCrypto);
    let delivery = delivery.advance(Event::CryptoOpened);
    assert_eq!(delivery.action(), Action::FindKey { recipient: "bob@example.com".to_string() });
    let delivery = delivery.advance(Event::KeyFound);
    assert_eq!(delivery.action(), Action::Encrypt { plaintext: "hello".to_string() });
    let delivery = delivery.advance(Event::Encrypted { armored: ARMORED.to_string() });
    assert_eq!(
        delivery.action(),
        Action::Send(Request::UserByEmail {
            uri: "https://chat.example.com/api/v4/users/email/bob@example.com".to_string(),
            authorization: "Bearer tok".to_string(),
        })
    );
    let delivery = delivery.advance(Event::UserFound(user("b2", "bob@example.com")));
    assert_eq!(
        delivery.action(),
        Action::Send(Request::DirectChannel {
            uri: "https://chat.example.com/api/v4/channels/direct".to_string(),
            authorization: "Bearer tok".to_string(),
            from: "a1".to_string(),
            to: "b2".to_string(),
        })
    );
    let channel = ChannelId::from_response("{\"id\":\"c3\",\"type\":\"D\"}");
    assert_eq!(channel, Some(Ok(ChannelId("c3".to_string()))));
    let delivery = delivery.advance(Event::ChannelOpened(ChannelId("c3".to_string())));
    assert_eq!(
        delivery.action(),
        Action::Send(Request::Post {
            uri: "https://chat.example.com/api/v4/posts".to_string(),
            authorization: "Bearer tok".to_string(),
            channel_id: "c3".to_string(),
            message: POST.to_string(),
        })
    );
    let delivery = delivery.advance(Event::Posted);
    assert_eq!(delivery.action(), Action::ReadFingerprint);
    let delivery = delivery.advance(Event::Fingerprint("0123456789ABCDEF".to_string()));
    let confirmation = Confirmation {
        sender: "alice@example.com".to_string(),
        recipient: "bob@example.com".to_string(),
        fingerprint: "0123456789ABCDEF".to_string(),
        message: POST.to_string(),
    };
    let shown = confirmation.render();
    assert!(shown.contains("alice@example.com"));
    assert!(shown.contains("bob@example.com"));
    assert!(shown.contains("0123456789ABCDEF"));
    assert_eq!(delivery.action(), Action::Report(confirmation));
    let delivery = delivery.advance(Event::Reported);
    assert_eq!(delivery.action(), Action::Finish);
    assert_eq!(delivery.outcome(), Some(Ok(())));
}

#[test]
fn signs_when_asked() {
    let delivery = logged_in(job(&["bob@example.com"], true)).advance(Event::KeyFound);
    assert_eq!(delivery.action(), Action::SignAndEncrypt { plaintext: "hello".to_string() });
}

#[test]
fn second_recipient_without_key_ends_the_delivery() {
    let delivery = logged_in(job(&["bob@example.com", "carol@example.com"], false))
        .advance(Event::KeyFound)
        .advance(Event::Encrypted { armored: ARMORED.to_string() })
        .advance(Event::UserFound(user("b2", "bob@example.com")))
        .advance(Event::ChannelOpened(ChannelId("c3".to_string())))
        .advance(Event::Posted)
        .advance(Event::Fingerprint("B0B".to_string()));
    assert_eq!(
        delivery.action(),
        Action::Report(Confirmation {
            sender: "alice@example.com".to_string(),
            recipient: "bob@example.com".to_string(),
            fingerprint: "B0B".to_string(),
            message: POST.to_string(),
        })
    );
    let delivery = delivery.advance(Event::Reported);
    assert_eq!(delivery.action(), Action::FindKey { recipient: "carol@example.com".to_string() });
    let delivery = delivery.advance(Event::Failed(Error::Gpg("End of file".to_string())));
    assert_eq!(delivery.action(), Action::Finish);
    assert_eq!(delivery.phase, Phase::Failed(Error::Gpg("End of file".to_string())));
    let delivery = delivery
        .advance(Event::KeyFound)
        .advance(Event::Fingerprint("CA401".to_string()))
        .advance(Event::Reported);
    assert_eq!(delivery.action(), Action::Finish);
    assert_eq!(delivery.outcome(), Some(Err(Error::Gpg("End of file".to_string()))));
}

#[test]
fn two_recipients_have_their_turns_in_order() {
    let delivery = logged_in(job(&["bob@example.com", "carol@example.com"], false));
    let delivery = one_turn(delivery, "b2", "bob@example.com", "c3", "B0B");
    let delivery = delivery.advance(Event::KeyFound).advance(Event::Encrypted {
        armored: ARMORED.to_string(),
    });
    assert_eq!(
        delivery.action(),
        Action::Send(Request::UserByEmail {
            uri: "https://chat.example.com/api/v4/users/email/carol@example.com".to_string(),
            authorization: "Bearer tok".to_string(),
        })
    );
    let delivery = delivery
        .advance(Event::UserFound(user("c9", "carol@example.org")))
        .advance(Event::ChannelOpened(ChannelId("c4".to_string())))
        .advance(Event::Posted)
        .advance(Event::Fingerprint("CA401".to_string()));
    assert_eq!(
        delivery.action(),
        Action::Report(Confirmation {
            sender: "alice@example.com".to_string(),
            recipient: "carol@example.org".to_string(),
            fingerprint: "CA401".to_string(),
            message: POST.to_string(),
        })
    );
    let delivery = delivery.advance(Event::Reported);
    assert_eq!(delivery.outcome(), Some(Ok(())));
}

#[test]
fn login_without_token_header_ends_the_delivery() {
    let delivery = Delivery::new(job(&["bob@example.com"], false));
    let delivery = delivery.advance(Event::Headers { token: None });
    assert_eq!(delivery.phase, Phase::Failed(Error::TokenMissing));
    assert_eq!(delivery.action(), Action::Finish);
    let delivery = delivery.advance(Event::Profile(user("a1", "alice@example.com")));
    assert_eq!(delivery.action(), Action::Finish);
    assert_eq!(delivery.outcome(), Some(Err(Error::TokenMissing)));
}

#[test]
fn no_recipient_means_login_and_nothing_more() {
    let delivery = logged_in(job(&[], false));
    assert_eq!(delivery.action(), Action::Finish);
    assert_eq!(delivery.outcome(), Some(Ok(())));
}

#[test]
fn failed_post_is_the_outcome_and_nothing_is_confirmed() {
    let delivery = logged_in(job(&["bob@example.com"], false))
        .advance(Event::KeyFound)
        .advance(Event::Encrypted { armored: ARMORED.to_string() })
        .advance(Event::UserFound(user("b2", "bob@example.com")))
        .advance(Event::ChannelOpened(ChannelId("c3".to_string())))
        .advance(Event::Failed(Error::Surf("connection reset".to_string())));
    assert_eq!(delivery.action(), Action::Finish);
    assert_eq!(delivery.outcome(), Some(Err(Error::Surf("connection reset".to_string()))));
}

#[test]
fn unreadable_fingerprint_fails_after_the_post() {
    let delivery = logged_in(job(&["bob@example.com"], false))
        .advance(Event::KeyFound)
        .advance(Event::Encrypted { armored: ARMORED.to_string() })
        .advance(Event::UserFound(user("b2", "bob@example.com")))
        .advance(Event::ChannelOpened(ChannelId("c3".to_string())))
        .advance(Event::Posted);
    assert_eq!(delivery.action(), Action::ReadFingerprint);
    let delivery = delivery.advance(Event::Failed(Error::KeyUtf8("None".to_string())));
    assert_eq!(delivery.outcome(), Some(Err(Error::KeyUtf8("None".to_string()))));
}

#[test]
fn event_that_answers_nothing_changes_nothing() {
    let delivery = logged_in(job(&["bob@example.com"], false));
    let delivery = delivery.advance(Event::Posted).advance(Event::Reported);
    assert_eq!(delivery.action(), Action::FindKey { recipient: "bob@example.com".to_string() });
    assert_eq!(delivery.outcome(), None);
}

#[test]
fn delivery_under_way_has_no_outcome() {
    assert_eq!(Delivery::new(job(&["bob@example.com"], false)).outcome(), None);
}
