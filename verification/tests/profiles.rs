use inventory::profile::{
    decode_profile, fetch_user, profile_from, read_profile, request_for, PROFILE_ENDPOINT,
    USER_AGENT,
};
use inventory::{
    Author, AuthorMeta, FetchError, GithubAuthor, ProfileField, ProfileRequest, ProfileResponse,
};
use std::cell::RefCell;
use std::io::{Error, ErrorKind};

fn author(username: &str) -> Author {
    Author { meta: AuthorMeta { username: username.to_string(), github: None } }
}

fn alice() -> GithubAuthor {
    GithubAuthor { login: "alice".to_string(), id: 1 }
}

#[test]
fn request_names_the_user_behind_the_endpoint() {
    let request = request_for("alice");
    assert_eq!(request.url, "https://api.github.com/users/alice");
    assert_eq!(request.user_agent, "Site/1.0.0 (https://github.com/fogo-sh/fogo.sh)");
}

#[test]
fn request_takes_the_user_name_as_it_is() {
    assert_eq!(request_for("").url, PROFILE_ENDPOINT);
    assert_eq!(request_for("a b/c").url, "https://api.github.com/users/a b/c");
    assert_eq!(request_for("x").user_agent, USER_AGENT);
}

#[test]
fn profile_from_both_members() {
    assert!(matches!(profile_from(Some("alice"), Some(1)), Ok(found) if found == alice()));
}

#[test]
fn profile_without_login_names_login() {
    assert!(matches!(profile_from(None, Some(1)), Err(FetchError::Profile(ProfileField::Login))));
    assert!(matches!(profile_from(None, None), Err(FetchError::Profile(ProfileField::Login))));
}

#[test]
fn profile_without_id_names_id() {
    assert!(matches!(profile_from(Some("alice"), None), Err(FetchError::Profile(ProfileField::Id))));
}

#[test]
fn decode_reads_login_and_id() {
    assert!(matches!(decode_profile("{\"login\":\"alice\",\"id\":1}"), Ok(found) if found == alice()));
}

#[test]
fn decode_ignores_other_members_and_their_order() {
    let body = "{ \"id\": 583231, \"name\": \"The Octocat\", \"login\": \"octocat\", \"site_admin\": false }";
    let expected = GithubAuthor { login: "octocat".to_string(), id: 583231 };
    assert!(matches!(decode_profile(body), Ok(found) if found == expected));
}

#[test]
fn decode_takes_the_largest_id() {
    let body = "{\"login\":\"z\",\"id\":18446744073709551615}";
    assert!(matches!(decode_profile(body), Ok(found) if found.id == u64::MAX && found.login == "z"));
}

#[test]
fn decode_rejects_text_that_is_no_json() {
    match decode_profile("{\"login\":") {
        Err(FetchError::Json(rejection)) => assert!(rejection.is_eof()),
        _ => panic!("a cut-off text is no JSON"),
    }
    match decode_profile("<html>") {
        Err(FetchError::Json(rejection)) => {
            assert!(rejection.is_syntax());
            assert_eq!(rejection.line(), 1);
            assert_eq!(rejection.column(), 1);
        }
        _ => panic!("markup is no JSON"),
    }
    assert!(matches!(decode_profile(""), Err(FetchError::Json(_))));
}

#[test]
fn decode_rejects_the_answer_for_a_missing_user() {
    let body = "{\"message\":\"Not Found\",\"documentation_url\":\"https://docs.github.com/rest\"}";
    assert!(matches!(decode_profile(body), Err(FetchError::Profile(ProfileField::Login))));
}

#[test]
fn decode_rejects_a_login_that_is_no_string() {
    assert!(matches!(
        decode_profile("{\"login\":7,\"id\":1}"),
        Err(FetchError::Profile(ProfileField::Login))
    ));
    assert!(matches!(
        decode_profile("{\"login\":null,\"id\":1}"),
        Err(FetchError::Profile(ProfileField::Login))
    ));
}

#[test]
fn decode_rejects_an_id_that_is_no_unsigned_integer() {
    for body in [
        "{\"login\":\"alice\"}",
        "{\"login\":\"alice\",\"id\":-1}",
        "{\"login\":\"alice\",\"id\":1.5}",
        "{\"login\":\"alice\",\"id\":1.0}",
        "{\"login\":\"alice\",\"id\":1e2}",
        "{\"login\":\"alice\",\"id\":\"1\"}",
        "{\"login\":\"alice\",\"id\":18446744073709551616}",
    ] {
        assert!(matches!(decode_profile(body), Err(FetchError::Profile(ProfileField::Id))));
    }
}

#[test]
fn decode_rejects_a_document_that_is_no_object() {
    for body in ["[\"alice\", 1]", "\"alice\"", "1", "null"] {
        assert!(matches!(decode_profile(body), Err(FetchError::Profile(ProfileField::Login))));
    }
}

#[test]
fn decode_asks_for_login_before_id() {
    assert!(matches!(decode_profile("{}"), Err(FetchError::Profile(ProfileField::Login))));
}

#[test]
fn response_that_was_not_sent_is_a_network_error() {
    let response = ProfileResponse::Unsent("connection refused".to_string());
    assert!(matches!(read_profile(response), Err(FetchError::Network(m)) if m == "connection refused"));
}

#[test]
fn response_without_a_readable_body_is_an_io_error() {
    let response = ProfileResponse::Unreadable(Error::new(ErrorKind::UnexpectedEof, "cut"));
    match read_profile(response) {
        Err(FetchError::Io(failure)) => assert_eq!(failure.kind(), ErrorKind::UnexpectedEof),
        _ => panic!("an unreadable body is an I/O error"),
    }
}

#[test]
fn response_body_is_decoded_whatever_it_is() {
    let found = read_profile(ProfileResponse::Body("{\"login\":\"alice\",\"id\":1}".to_string()));
    assert!(matches!(found, Ok(profile) if profile == alice()));
    let missing = read_profile(ProfileResponse::Body("{\"message\":\"Not Found\"}".to_string()));
    assert!(matches!(missing, Err(FetchError::Profile(ProfileField::Login))));
    let broken = read_profile(ProfileResponse::Body("Service Unavailable".to_string()));
    assert!(matches!(broken, Err(FetchError::Json(_))));
}

#[test]
fn fetch_user_sends_one_request_for_the_user_name() {
    let seen: RefCell<Vec<ProfileRequest>> = RefCell::new(Vec::new());
    let fetch = |request: &ProfileRequest| {
        seen.borrow_mut().push(request.clone());
        ProfileResponse::Body("{\"login\":\"alice\",\"id\":1}".to_string())
    };
    let found = fetch_user(&author("alice"), &fetch);
    assert!(matches!(found, Ok(profile) if profile == alice()));
    let expected = ProfileRequest {
        url: "https://api.github.com/users/alice".to_string(),
        user_agent: "Site/1.0.0 (https://github.com/fogo-sh/fogo.sh)".to_string(),
    };
    assert_eq!(*seen.borrow(), vec![expected]);
}

#[test]
fn fetch_user_reports_what_the_fetch_reports() {
    let unsent = |_: &ProfileRequest| ProfileResponse::Unsent("dns".to_string());
    assert!(matches!(fetch_user(&author("bob"), &unsent), Err(FetchError::Network(m)) if m == "dns"));
    let garbled = |_: &ProfileRequest| ProfileResponse::Body("}".to_string());
    assert!(matches!(fetch_user(&author("bob"), &garbled), Err(FetchError::Json(_))));
}

#[test]
fn with_profile_sets_github_and_keeps_the_user_name() {
    let after = author("alice").with_profile(alice());
    assert_eq!(after.meta.username, "alice");
    assert_eq!(after.meta.github, Some(alice()));
    let again = after.with_profile(GithubAuthor { login: "al".to_string(), id: 2 });
    assert_eq!(again.meta.github, Some(GithubAuthor { login: "al".to_string(), id: 2 }));
}
