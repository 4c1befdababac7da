use mattercrypt::api::{ChannelId, Request, Token};
use mattercrypt::error::Error;
use mattercrypt::settings::Settings;

fn settings() -> Settings {
    Settings {
        api_url: "http://localhost:8065/api/v4".to_string(),
        username: "alice".to_string(),
        password: "secret".to_string(),
    }
}

#[test]
fn login_request_carries_the_credentials() {
    assert_eq!(
        Request::login(&settings()),
        Request::Login {
            uri: "http://localhost:8065/api/v4/users/login".to_string(),
            login_id: "alice".to_string(),
            password: "secret".to_string(),
        }
    );
}

#[test]
fn lookup_goes_to_the_address_as_given() {
    let token = Token("Bearer abc".to_string());
    assert_eq!(
        Request::user_by_email(&settings(), &token, "bob+crypt@example.com"),
        Request::UserByEmail {
            uri: "http://localhost:8065/api/v4/users/email/bob+crypt@example.com".to_string(),
            authorization: "Bearer abc".to_string(),
        }
    );
}

#[test]
fn channel_request_names_sender_then_recipient() {
    let token = Token("Bearer abc".to_string());
    assert_eq!(
        Request::direct_channel(&settings(), &token, "u1", "u2"),
        Request::DirectChannel {
            uri: "http://localhost:8065/api/v4/channels/direct".to_string(),
            authorization: "Bearer abc".to_string(),
            from: "u1".to_string(),
            to: "u2".to_string(),
        }
    );
}

#[test]
fn post_request_names_channel_and_message() {
    let token = Token("Bearer abc".to_string());
    let channel = ChannelId("ch".to_string());
    assert_eq!(
        Request::post(&settings(), &token, &channel, "text"),
        Request::Post {
            uri: "http://localhost:8065/api/v4/posts".to_string(),
            authorization: "Bearer abc".to_string(),
            channel_id: "ch".to_string(),
            message: "text".to_string(),
        }
    );
}

#[test]
fn token_is_the_header_after_bearer() {
    assert_eq!(
        Token::from_header(Some("abc123".to_string())),
        Ok(Token("Bearer abc123".to_string()))
    );
    assert_eq!(Token::from_header(Some(String::new())), Ok(Token("Bearer ".to_string())));
}

#[test]
fn missing_header_is_token_missing() {
    assert_eq!(Token::from_header(None), Err(Error::TokenMissing));
}

#[test]
fn channel_id_is_read_from_the_response() {
    let body = "{\"id\":\"k7x3\",\"create_at\":1580000000000,\"type\":\"D\",\"name\":\"u1__u2\"}";
    assert_eq!(ChannelId::from_response(body), Some(Ok(ChannelId("k7x3".to_string()))));
}

#[test]
fn channel_id_with_escapes_is_decoded() {
    assert_eq!(
        ChannelId::from_response("{ \"id\" : \"a\\\"b\\u0041\" }"),
        Some(Ok(ChannelId("a\"bA".to_string())))
    );
}

#[test]
fn response_without_id_names_no_channel() {
    assert_eq!(ChannelId::from_response("{\"status_code\":401}"), None);
    assert_eq!(ChannelId::from_response("{\"id\":17}"), None);
    assert_eq!(ChannelId::from_response("[\"id\"]"), None);
    assert_eq!(ChannelId::from_response("null"), None);
}

#[test]
fn response_that_is_not_json_is_a_serde_error() {
    match ChannelId::from_response("<html>Bad gateway</html>") {
        Some(Err(Error::Serde(detail))) => assert_eq!(detail, "expected value at line 1 column 1"),
        other => panic!("{:?}", other),
    }
    assert!(matches!(ChannelId::from_response(""), Some(Err(Error::Serde(_)))));
    assert!(matches!(ChannelId::from_response("{\"id\":\"c3\""), Some(Err(Error::Serde(_)))));
}

#[test]
fn parsed_member_becomes_channel_or_error() {
    assert_eq!(
        ChannelId::from_member(Ok(Some("c3".to_string()))),
        Some(Ok(ChannelId("c3".to_string())))
    );
    assert_eq!(ChannelId::from_member(Ok(None)), None);
    assert_eq!(
        ChannelId::from_member(Err("EOF while parsing".to_string())),
        Some(Err(Error::Serde("EOF while parsing".to_string())))
    );
}
