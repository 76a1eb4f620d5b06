//! Profiles of the remote service: what is asked of it, and what its answer holds.

use vstd::prelude::*;
use vstd::string::StringExecFns;
use crate::error::{FetchError, ProfileField};
use crate::json::{json_member, json_parse, json_text, json_unsigned, member, parse_document};
use crate::records::{Author, GithubAuthor, Profile};

verus! {

/// Where the profiles are; a user name follows it.
pub const PROFILE_ENDPOINT: &'static str = "https://api.github.com/users/";

/// How the library names itself to the service.
pub const USER_AGENT: &'static str = "Site/1.0.0 (https://github.com/fogo-sh/fogo.sh)";

/// A request as mathematics.
pub ghost struct Request {
    pub url: Seq<char>,
    pub user_agent: Seq<char>,
}

/// One GET request.
#[derive(Debug, Clone, PartialEq, Eq)]
pub struct ProfileRequest {
    pub url: String,
    pub user_agent: String,
}

impl View for ProfileRequest {
    type V = Request;

    open spec fn view(&self) -> Request {
        Request { url: self.url@, user_agent: self.user_agent@ }
    }
}

/// What came of one request.
#[derive(Debug)]
pub enum ProfileResponse {
    /// The request could not be sent; this is the client's message.
    Unsent(String),
    /// A response came, but its body could not be read.
    Unreadable(std::io::Error),
    /// The body of the response, whatever its status.
    Body(String),
}

/// The request for the profile of a user: the endpoint with the user name
/// behind it, as it is, under the fixed user agent.
pub open spec fn profile_request(username: Seq<char>) -> Request {
    Request { url: PROFILE_ENDPOINT@ + username, user_agent: USER_AGENT@ }
}

/// Builds the request for the profile of a user.
pub fn request_for(username: &str) -> (request: ProfileRequest)
    ensures
        request@ == profile_request(username@),
{
    let mut url = String::from_str(PROFILE_ENDPOINT);
    url.append(username);
    ProfileRequest { url, user_agent: String::from_str(USER_AGENT) }
}

/// The profile that two members of a document make, `login` asked for first.
pub open spec fn profile_of(login: Option<Seq<char>>, id: Option<u64>) -> Result<
    Profile,
    FetchError,
> {
    match (login, id) {
        (None, _) => Err(FetchError::Profile(ProfileField::Login)),
        (Some(_), None) => Err(FetchError::Profile(ProfileField::Id)),
        (Some(login), Some(id)) => Ok(Profile { login, id }),
    }
}

/// The string member `key` of a document, if it has one.
pub open spec fn member_text(document: serde_json::Value, key: Seq<char>) -> Option<Seq<char>> {
    match json_member(document, key) {
        Some(value) => json_text(value),
        None => None,
    }
}

/// The member `key` of a document as an unsigned integer, if it has one.
pub open spec fn member_unsigned(document: serde_json::Value, key: Seq<char>) -> Option<u64> {
    match json_member(document, key) {
        Some(value) => json_unsigned(value),
        None => None,
    }
}

/// The profile that a response body holds: the body is a JSON document with
/// a string `login` and an unsigned integer `id`. Anything else is a failure,
/// also a well-formed answer that describes no user.
pub open spec fn decoded(body: Seq<char>) -> Result<Profile, FetchError> {
    match json_parse(body) {
        Err(rejection) => Err(FetchError::Json(rejection)),
        Ok(document) => profile_of(
            member_text(document, "login"@),
            member_unsigned(document, "id"@),
        ),
    }
}

/// The profile that a response holds, or the failure that it stands for.
pub open spec fn answer(response: ProfileResponse) -> Result<Profile, FetchError> {
    match response {
        ProfileResponse::Unsent(message) => Err(FetchError::Network(message)),
        ProfileResponse::Unreadable(failure) => Err(FetchError::Io(failure)),
        ProfileResponse::Body(body) => decoded(body@),
    }
}

/// `outcome` is `expected`: the same failure, or a profile that says the same.
pub open spec fn agrees(outcome: Result<GithubAuthor, FetchError>, expected: Result<
    Profile,
    FetchError,
>) -> bool {
    match expected {
        Ok(profile) => outcome matches Ok(github) && github@ == profile,
        Err(failure) => outcome == Err::<GithubAuthor, FetchError>(failure),
    }
}

/// Makes a profile of the two members that it needs.
pub fn profile_from(login: Option<&str>, id: Option<u64>) -> (outcome: Result<
    GithubAuthor,
    FetchError,
>)
    ensures
        agrees(
            outcome,
            profile_of(
                match login {
                    Some(text) => Some(text@),
                    None => None,
                },
                id,
            ),
        ),
{
    match login {
        None => Err(FetchError::Profile(ProfileField::Login)),
        Some(text) => match id {
            None => Err(FetchError::Profile(ProfileField::Id)),
            Some(id) => Ok(GithubAuthor { login: String::from_str(text), id }),
        },
    }
}

/// Reads a response body as a profile.
pub fn decode_profile(body: &str) -> (outcome: Result<GithubAuthor, FetchError>)
    ensures
        agrees(outcome, decoded(body@)),
{
    match parse_document(body) {
        Err(rejection) => Err(FetchError::Json(rejection)),
        Ok(document) => {
            let login = match member(&document, "login") {
                Some(value) => value.as_str(),
                None => None,
            };
            let id = match member(&document, "id") {
                Some(value) => value.as_u64(),
                None => None,
            };
            profile_from(login, id)
        },
    }
}

/// Reads a response as a profile.
pub fn read_profile(response: ProfileResponse) -> (outcome: Result<GithubAuthor, FetchError>)
    ensures
        agrees(outcome, answer(response)),
{
    match response {
        ProfileResponse::Unsent(message) => Err(FetchError::Network(message)),
        ProfileResponse::Unreadable(failure) => Err(FetchError::Io(failure)),
        ProfileResponse::Body(body) => decode_profile(body.as_str()),
    }
}

/// `response` is what `fetch` may give when handed the request for the
/// profile of `username`.
pub open spec fn sent<F: Fn(&ProfileRequest) -> ProfileResponse>(
    fetch: &F,
    username: Seq<char>,
    response: ProfileResponse,
) -> bool {
    exists|request: ProfileRequest|
        request@ == profile_request(username) && #[trigger] fetch.ensures((&request,), response)
}

/// `fetch` can be handed the request for the profile of `username`.
pub open spec fn reachable<F: Fn(&ProfileRequest) -> ProfileResponse>(
    fetch: &F,
    username: Seq<char>,
) -> bool {
    forall|request: ProfileRequest|
        request@ == profile_request(username) ==> #[trigger] fetch.requires((&request,))
}

/// Fetches the profile of an author: hands `fetch` the request for the
/// author's user name, once, and reads what comes back.
pub fn fetch_user<F: Fn(&ProfileRequest) -> ProfileResponse>(author: &Author, fetch: &F) -> (outcome:
    Result<GithubAuthor, FetchError>)
    requires
        reachable(fetch, author.meta.username@),
    ensures
        exists|response: ProfileResponse| #[trigger]
            sent(fetch, author.meta.username@, response) && agrees(outcome, answer(response)),
{
    let request = request_for(author.meta.username.as_str());
    let response = fetch(&request);
    assert(sent(fetch, author.meta.username@, response));
    read_profile(response)
}

} // verus!
