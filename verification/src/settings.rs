//! The settings of a run, and the part of them that is kept on disk.

use vstd::prelude::*;

verus! {

/// Name under which the password is kept in the platform's credential store.
pub const KEYRING_SERVICE: &'static str = "mattercryptclient";

/// Name of the settings file in the user's configuration directory.
pub const SETTINGS_FILE_NAME: &'static str = "mcc";

/// What a run needs to log in. The password comes from the credential store
/// or from the terminal, never from the settings file.
#[derive(Debug, PartialEq, Eq)]
pub struct Settings {
    pub api_url: String,
    pub username: String,
    pub password: String,
}

/// The part of [`Settings`] that is written to the settings file.
#[derive(Debug, PartialEq, Eq)]
pub struct StoredSettings {
    pub api_url: String,
    pub username: String,
}

/// What a [`Settings`] holds, its texts as sequences of characters.
pub struct SettingsView {
    pub api_url: Seq<char>,
    pub username: Seq<char>,
    pub password: Seq<char>,
}

/// What a [`StoredSettings`] holds, its texts as sequences of characters.
pub struct StoredSettingsView {
    pub api_url: Seq<char>,
    pub username: Seq<char>,
}

impl View for Settings {
    type V = SettingsView;

    open spec fn view(&self) -> SettingsView {
        SettingsView {
            api_url: self.api_url@,
            username: self.username@,
            password: self.password@,
        }
    }
}

impl View for StoredSettings {
    type V = StoredSettingsView;

    open spec fn view(&self) -> StoredSettingsView {
        StoredSettingsView { api_url: self.api_url@, username: self.username@ }
    }
}

impl SettingsView {
    /// The part that goes to disk: everything but the password.
    pub open spec fn stored(self) -> StoredSettingsView {
        StoredSettingsView { api_url: self.api_url, username: self.username }
    }

    /// The settings made of what was on disk and a password.
    pub open spec fn assemble(stored: StoredSettingsView, password: Seq<char>) -> SettingsView {
        SettingsView { api_url: stored.api_url, username: stored.username, password }
    }
}

impl Clone for Settings {
    fn clone(&self) -> (r: Self)
        ensures
            r == *self,
    {
        Settings {
            api_url: self.api_url.clone(),
            username: self.username.clone(),
            password: self.password.clone(),
        }
    }
}

impl Clone for StoredSettings {
    fn clone(&self) -> (r: Self)
        ensures
            r == *self,
    {
        StoredSettings { api_url: self.api_url.clone(), username: self.username.clone() }
    }
}

impl Settings {
    /// The part that goes to disk: everything but the password.
    pub fn stored(&self) -> (r: StoredSettings)
        ensures
            r@ == self@.stored(),
    {
        StoredSettings { api_url: self.api_url.clone(), username: self.username.clone() }
    }

    /// The settings made of what was on disk and a password.
    pub fn assemble(stored: StoredSettings, password: String) -> (r: Settings)
        ensures
            r@ == SettingsView::assemble(stored@, password@),
    {
        Settings { api_url: stored.api_url, username: stored.username, password }
    }
}

/// Settings split into the stored part and the password, and put together
/// again, are the settings that one started from.
pub proof fn lemma_stored_settings_round_trip(settings: SettingsView)
    ensures
        SettingsView::assemble(settings.stored(), settings.password) == settings,
{
}

} // verus!
