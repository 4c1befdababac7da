use mattercrypt::error::{Error, IoKind};
use mattercrypt::loading;
use mattercrypt::loading::Loading;
use mattercrypt::settings::{Settings, StoredSettings, KEYRING_SERVICE, SETTINGS_FILE_NAME};
use mattercrypt::setup;
use mattercrypt::setup::Setup;

fn example() -> Settings {
    Settings {
        api_url: "https://chat.example.com/api/v4".to_string(),
        username: "alice".to_string(),
        password: "p".to_string(),
    }
}

fn asked() -> Setup {
    Setup::new()
        .advance(setup::Event::Announced)
        .advance(setup::Event::Answer("https://chat.example.com/api/v4".to_string()))
        .advance(setup::Event::Answer("alice".to_string()))
}

#[test]
fn names_are_fixed() {
    assert_eq!(KEYRING_SERVICE, "mattercryptclient");
    assert_eq!(SETTINGS_FILE_NAME, "mcc");
}

#[test]
fn stored_part_leaves_the_password_out() {
    assert_eq!(
        example().stored(),
        StoredSettings {
            api_url: "https://chat.example.com/api/v4".to_string(),
            username: "alice".to_string(),
        }
    );
}

#[test]
fn stored_part_and_password_make_the_settings() {
    let settings = example();
    assert_eq!(Settings::assemble(settings.stored(), settings.password.clone()), settings);
}

#[test]
fn setup_asks_keeps_and_writes() {
    let setup = Setup::new();
    assert_eq!(setup.action(), setup::Action::Announce { text: "Initialize settings:".to_string() });
    let setup = setup.advance(setup::Event::Announced);
    assert_eq!(
        setup.action(),
        setup::Action::Ask {
            prompt: "API Url (e.g. https://my-mattermost-server.com/api/v4)".to_string()
        }
    );
    let setup = setup.advance(setup::Event::Answer("https://chat.example.com/api/v4".to_string()));
    assert_eq!(setup.action(), setup::Action::Ask { prompt: "Login username".to_string() });
    let setup = setup.advance(setup::Event::Answer("alice".to_string()));
    assert_eq!(
        setup.action(),
        setup::Action::AskSecret {
            prompt: "Login Password (will be securely stored in Keyring)".to_string(),
            repeat: "Repeat password".to_string(),
        }
    );
    let setup =
        setup.advance(setup::Event::Secret { first: "p".to_string(), second: "p".to_string() });
    assert_eq!(
        setup.action(),
        setup::Action::KeepPassword {
            service: "mattercryptclient".to_string(),
            username: "alice".to_string(),
            password: "p".to_string(),
        }
    );
    let setup = setup.advance(setup::Event::PasswordKept);
    assert_eq!(
        setup.action(),
        setup::Action::WriteSettings { file_name: "mcc".to_string(), stored: example().stored() }
    );
    let setup = setup.advance(setup::Event::SettingsWritten);
    assert_eq!(setup.action(), setup::Action::Finish);
    assert_eq!(setup.outcome(), Some(Ok(example())));
}

#[test]
fn differing_passwords_are_rejected_and_nothing_is_kept() {
    let setup =
        asked().advance(setup::Event::Secret { first: "p".to_string(), second: "q".to_string() });
    assert_eq!(setup.phase, setup::Phase::Failed(Error::PasswordMismatch));
    assert_eq!(setup.action(), setup::Action::Finish);
    let setup = setup
        .advance(setup::Event::Secret { first: "p".to_string(), second: "p".to_string() })
        .advance(setup::Event::PasswordKept)
        .advance(setup::Event::SettingsWritten);
    assert_eq!(setup.action(), setup::Action::Finish);
    assert_eq!(setup.outcome(), Some(Err(Error::PasswordMismatch)));
}

#[test]
fn passwords_differing_in_case_or_space_are_rejected() {
    let setup = asked()
        .advance(setup::Event::Secret { first: "Pass".to_string(), second: "pass".to_string() });
    assert_eq!(setup.outcome(), Some(Err(Error::PasswordMismatch)));
    let setup =
        asked().advance(setup::Event::Secret { first: "p".to_string(), second: "p ".to_string() });
    assert_eq!(setup.outcome(), Some(Err(Error::PasswordMismatch)));
}

#[test]
fn credential_store_failure_ends_setup_before_the_file_is_written() {
    let setup = asked()
        .advance(setup::Event::Secret { first: "p".to_string(), second: "p".to_string() })
        .advance(setup::Event::Failed(Error::Keyring("locked".to_string())));
    assert_eq!(setup.action(), setup::Action::Finish);
    assert_eq!(setup.outcome(), Some(Err(Error::Keyring("locked".to_string()))));
}

#[test]
fn loading_reads_the_file_then_the_password() {
    let loading = Loading::new();
    assert_eq!(loading.action(), loading::Action::ReadSettings { file_name: "mcc".to_string() });
    let loading = loading.advance(loading::Event::Stored(example().stored()));
    assert_eq!(
        loading.action(),
        loading::Action::FetchPassword {
            service: "mattercryptclient".to_string(),
            username: "alice".to_string(),
        }
    );
    let loading = loading.advance(loading::Event::Password("p".to_string()));
    assert_eq!(loading.action(), loading::Action::Finish);
    assert_eq!(loading.outcome(), Some(Ok(example())));
}

#[test]
fn what_setup_kept_loading_gives_back() {
    let setup = asked()
        .advance(setup::Event::Secret { first: "p".to_string(), second: "p".to_string() });
    let kept = match setup.action() {
        setup::Action::KeepPassword { password, .. } => password,
        other => panic!("{:?}", other),
    };
    let setup = setup.advance(setup::Event::PasswordKept);
    let written = match setup.action() {
        setup::Action::WriteSettings { stored, .. } => stored,
        other => panic!("{:?}", other),
    };
    let made = setup.advance(setup::Event::SettingsWritten).outcome();
    let loaded = Loading::new()
        .advance(loading::Event::Stored(written))
        .advance(loading::Event::Password(kept))
        .outcome();
    assert_eq!(loaded, made);
    assert_eq!(loaded, Some(Ok(example())));
}

#[test]
fn missing_file_fails_as_not_found() {
    let missing = || Error::Io {
        kind: IoKind::NotFound,
        detail: "No such file or directory (os error 2)".to_string(),
    };
    let loading = Loading::new().advance(loading::Event::Failed(missing()));
    assert_eq!(loading.action(), loading::Action::Finish);
    match loading.outcome() {
        Some(Err(error)) => {
            assert!(error.is_not_found());
            assert_eq!(error, missing());
        }
        other => panic!("{:?}", other),
    }
}

#[test]
fn other_failures_of_loading_are_not_not_found() {
    let denied =
        Error::Io { kind: IoKind::Other, detail: "Permission denied (os error 13)".to_string() };
    match Loading::new().advance(loading::Event::Failed(denied)).outcome() {
        Some(Err(error)) => assert!(!error.is_not_found()),
        other => panic!("{:?}", other),
    }
    let corrupt = Error::Serde("EOF while parsing an object at line 1 column 1".to_string());
    match Loading::new().advance(loading::Event::Failed(corrupt)).outcome() {
        Some(Err(error)) => {
            assert!(!error.is_not_found());
            assert!(matches!(error, Error::Serde(_)));
        }
        other => panic!("{:?}", other),
    }
    let locked = Loading::new()
        .advance(loading::Event::Stored(example().stored()))
        .advance(loading::Event::Failed(Error::Keyring("locked".to_string())));
    assert_eq!(locked.outcome(), Some(Err(Error::Keyring("locked".to_string()))));
}
