//! The four exchanges with the chat server: what is sent in each, and what
//! is read from the answers to logging in and to opening a channel.

use vstd::prelude::*;
use crate::error::Error;
use crate::error::ErrorView;
use crate::settings::Settings;
use crate::settings::SettingsView;

verus! {

/// The value of the `Authorization` header of every request after login.
#[derive(Debug, PartialEq, Eq)]
pub struct Token(pub String);

/// The server's name for a direct-message channel between two users.
#[derive(Debug, PartialEq, Eq)]
pub struct ChannelId(pub String);

/// A user as the server describes them.
#[derive(Debug, PartialEq, Eq)]
pub struct User {
    pub id: String,
    pub email: String,
    pub first_name: String,
    pub last_name: String,
    pub nickname: String,
}

/// What a [`User`] holds, its texts as sequences of characters.
pub struct UserView {
    pub id: Seq<char>,
    pub email: Seq<char>,
    pub first_name: Seq<char>,
    pub last_name: Seq<char>,
    pub nickname: Seq<char>,
}

impl View for Token {
    type V = Seq<char>;

    open spec fn view(&self) -> Seq<char> {
        self.0@
    }
}

impl View for ChannelId {
    type V = Seq<char>;

    open spec fn view(&self) -> Seq<char> {
        self.0@
    }
}

impl View for User {
    type V = UserView;

    open spec fn view(&self) -> UserView {
        UserView {
            id: self.id@,
            email: self.email@,
            first_name: self.first_name@,
            last_name: self.last_name@,
            nickname: self.nickname@,
        }
    }
}

impl Clone for Token {
    fn clone(&self) -> (r: Self)
        ensures
            r == *self,
    {
        Token(self.0.clone())
    }
}

impl Clone for ChannelId {
    fn clone(&self) -> (r: Self)
        ensures
            r == *self,
    {
        ChannelId(self.0.clone())
    }
}

impl Clone for User {
    fn clone(&self) -> (r: Self)
        ensures
            r == *self,
    {
        User {
            id: self.id.clone(),
            email: self.email.clone(),
            first_name: self.first_name.clone(),
            last_name: self.last_name.clone(),
            nickname: self.nickname.clone(),
        }
    }
}

/// One HTTP request. `uri` is where it goes; `authorization` is the value of
/// the header of that name; the other fields are the members of the JSON
/// body, under their names (`from` and `to` are the two items of a JSON
/// array, in this order).
#[derive(Debug, PartialEq, Eq)]
pub enum Request {
    /// `POST`, no authorization; the answer carries the token in a header
    /// and the sender's user record in its body.
    Login { uri: String, login_id: String, password: String },
    /// `GET`; the answer is the user record of the owner of an email address.
    UserByEmail { uri: String, authorization: String },
    /// `POST`; the answer holds the `id` of the channel between two users.
    DirectChannel { uri: String, authorization: String, from: String, to: String },
    /// `POST`; puts a message in a channel.
    Post { uri: String, authorization: String, channel_id: String, message: String },
}

/// What a [`Request`] holds, its texts as sequences of characters.
pub enum RequestView {
    Login { uri: Seq<char>, login_id: Seq<char>, password: Seq<char> },
    UserByEmail { uri: Seq<char>, authorization: Seq<char> },
    DirectChannel { uri: Seq<char>, authorization: Seq<char>, from: Seq<char>, to: Seq<char> },
    Post { uri: Seq<char>, authorization: Seq<char>, channel_id: Seq<char>, message: Seq<char> },
}

impl View for Request {
    type V = RequestView;

    open spec fn view(&self) -> RequestView {
        match *self {
            Request::Login { uri, login_id, password } => RequestView::Login {
                uri: uri@,
                login_id: login_id@,
                password: password@,
            },
            Request::UserByEmail { uri, authorization } => RequestView::UserByEmail {
                uri: uri@,
                authorization: authorization@,
            },
            Request::DirectChannel { uri, authorization, from, to } => RequestView::DirectChannel {
                uri: uri@,
                authorization: authorization@,
                from: from@,
                to: to@,
            },
            Request::Post { uri, authorization, channel_id, message } => RequestView::Post {
                uri: uri@,
                authorization: authorization@,
                channel_id: channel_id@,
                message: message@,
            },
        }
    }
}

impl RequestView {
    /// The login with the settings' user name and password.
    pub open spec fn login(settings: SettingsView) -> RequestView {
        RequestView::Login {
            uri: settings.api_url + "/users/login"@,
            login_id: settings.username,
            password: settings.password,
        }
    }

    /// The lookup of the user who owns `email`.
    pub open spec fn user_by_email(
        settings: SettingsView,
        token: Seq<char>,
        email: Seq<char>,
    ) -> RequestView {
        RequestView::UserByEmail {
            uri: settings.api_url + "/users/email/"@ + email,
            authorization: token,
        }
    }

    /// The opening of the channel between the users `from` and `to`.
    pub open spec fn direct_channel(
        settings: SettingsView,
        token: Seq<char>,
        from: Seq<char>,
        to: Seq<char>,
    ) -> RequestView {
        RequestView::DirectChannel {
            uri: settings.api_url + "/channels/direct"@,
            authorization: token,
            from,
            to,
        }
    }

    /// The posting of `message` to a channel.
    pub open spec fn post(
        settings: SettingsView,
        token: Seq<char>,
        channel_id: Seq<char>,
        message: Seq<char>,
    ) -> RequestView {
        RequestView::Post {
            uri: settings.api_url + "/posts"@,
            authorization: token,
            channel_id,
            message,
        }
    }
}

/// The server's address followed by `path`.
fn endpoint(settings: &Settings, path: &str) -> (r: String)
    ensures
        r@ == settings.api_url@ + path@,
{
    let mut uri = settings.api_url.clone();
    uri.append(path);
    uri
}

impl Request {
    /// The login with the settings' user name and password.
    pub fn login(settings: &Settings) -> (r: Request)
        ensures
            r@ == RequestView::login(settings@),
    {
        Request::Login {
            uri: endpoint(settings, "/users/login"),
            login_id: settings.username.clone(),
            password: settings.password.clone(),
        }
    }

    /// The lookup of the user who owns `email`.
    pub fn user_by_email(settings: &Settings, token: &Token, email: &str) -> (r: Request)
        ensures
            r@ == RequestView::user_by_email(settings@, token@, email@),
    {
        let mut uri = endpoint(settings, "/users/email/");
        uri.append(email);
        Request::UserByEmail { uri, authorization: token.0.clone() }
    }

    /// The opening of the channel between the users `from` and `to`.
    pub fn direct_channel(settings: &Settings, token: &Token, from: &str, to: &str) -> (r: Request)
        ensures
            r@ == RequestView::direct_channel(settings@, token@, from@, to@),
    {
        Request::DirectChannel {
            uri: endpoint(settings, "/channels/direct"),
            authorization: token.0.clone(),
            from: String::from_str(from),
            to: String::from_str(to),
        }
    }

    /// The posting of `message` to a channel.
    pub fn post(settings: &Settings, token: &Token, channel_id: &ChannelId, message: &str) -> (r:
        Request)
        ensures
            r@ == RequestView::post(settings@, token@, channel_id@, message@),
    {
        Request::Post {
            uri: endpoint(settings, "/posts"),
            authorization: token.0.clone(),
            channel_id: channel_id.0.clone(),
            message: String::from_str(message),
        }
    }
}

/// The token that a login yields: the word `Bearer`, a space and the value
/// of the answer's token header; without that header, no token.
pub open spec fn bearer(header: Option<Seq<char>>) -> Result<Seq<char>, ErrorView> {
    match header {
        Some(value) => Ok("Bearer "@ + value),
        None => Err(ErrorView::TokenMissing),
    }
}

impl Token {
    /// The token that a login yields, from the value of the answer's token
    /// header.
    pub fn from_header(header: Option<String>) -> (r: Result<Token, Error>)
        ensures
            match bearer(header.deep_view()) {
                Ok(token) => r matches Ok(t) && t@ == token,
                Err(error) => r matches Err(e) && e@ == error,
            },
    {
        match header {
            Some(value) => {
                let mut token = String::from_str("Bearer ");
                token.append(value.as_str());
                Ok(Token(token))
            },
            None => Err(Error::TokenMissing),
        }
    }
}

/// What `serde_json` makes of the member `name` of the JSON value that
/// `text` holds: the member's string, nothing where the value has no such
/// member or the member is no string, or the parser's complaint where
/// `text` is not JSON.
pub uninterp spec fn json_member(text: Seq<char>, name: Seq<char>) -> Result<Option<Seq<char>>, Seq<char>>;

/// The texts of a parsed member as sequences of characters.
pub open spec fn member_view(member: Result<Option<String>, String>) -> Result<
    Option<Seq<char>>,
    Seq<char>,
> {
    match member {
        Ok(Some(value)) => Ok(Some(value@)),
        Ok(None) => Ok(None),
        Err(complaint) => Err(complaint@),
    }
}

/// Parses `text` with `serde_json::from_str` into a `serde_json::Value`,
/// indexes the value by `name` and reads what is there with `Value::as_str`.
/// A parse failure comes back as the text that `serde_json::Error` displays.
/// Nothing is proved of this: the contract only gives the outcome its name,
/// [`json_member`], which claims that the same text and name always give
/// the same outcome.
#[verifier::external_body]
fn read_member(text: &str, name: &str) -> (r: Result<Option<String>, String>)
    ensures
        member_view(r) == json_member(text@, name@),
{
    match serde_json::from_str::<serde_json::Value>(text) {
        Ok(value) => Ok(value[name].as_str().map(|member| member.to_string())),
        Err(error) => Err(error.to_string()),
    }
}

impl ChannelId {
    /// The channel that a parsed answer names, if it names one: the value
    /// of its `id`, or the failure to parse it, and nothing where the
    /// answer was parsed and has no `id` that is a string.
    pub fn from_member(member: Result<Option<String>, String>) -> (r: Option<
        Result<ChannelId, Error>,
    >)
        ensures
            match member {
                Ok(Some(id)) => r matches Some(Ok(channel)) && channel@ == id@,
                Ok(None) => r is None,
                Err(complaint) => r matches Some(Err(e)) && e@ == ErrorView::Serde(complaint@),
            },
    {
        match member {
            Ok(Some(id)) => Some(Ok(ChannelId(id))),
            Ok(None) => None,
            Err(complaint) => Some(Err(Error::Serde(complaint))),
        }
    }

    /// The channel that the body of an answer names, if it names one.
    pub fn from_response(body: &str) -> (r: Option<Result<ChannelId, Error>>)
        ensures
            match json_member(body@, "id"@) {
                Ok(Some(id)) => r matches Some(Ok(channel)) && channel@ == id,
                Ok(None) => r is None,
                Err(complaint) => r matches Some(Err(e)) && e@ == ErrorView::Serde(complaint),
            },
    {
        ChannelId::from_member(read_member(body, "id"))
    }
}

} // verus!
