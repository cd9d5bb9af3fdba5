//! The requests that the bot sends to Pylon, and what it makes of the answers.
//!
//! Nothing here talks to the network: a request is described, whoever owns the connection
//! sends it and decodes the answer, and the answer is judged here.

mod issue;
mod responses;

pub use issue::Issue;
pub use responses::{CreateIssueResponse, ErrorResponse, GetAccountResponse, SuccessResponse};

use vstd::prelude::*;
use vstd::string::*;
use crate::text::{join, joined, owned, views};

verus! {

/// Where Pylon's API is.
pub const PYLON_API_URL: &'static str = "https://api.usepylon.com";

/// A client for Pylon's API that holds the bearer token.
pub struct PylonClient {
    api_token: String,
}

/// A `POST` that creates an issue.
pub struct IssueRequest<'a> {
    /// The address to post to.
    pub url: String,
    /// The token for the `Authorization: Bearer` header.
    pub bearer_token: String,
    /// The JSON body.
    pub issue: Issue<'a>,
}

/// A `GET` that looks an account up.
pub struct AccountRequest {
    /// The address to get.
    pub url: String,
    /// The token for the `Authorization: Bearer` header.
    pub bearer_token: String,
}

/// Which envelope an answer's body holds.
#[derive(Debug, Clone, Copy, PartialEq, Eq, Structural)]
pub enum Envelope {
    /// A `SuccessResponse`.
    Success,
    /// An `ErrorResponse`.
    Error,
    /// No body worth reading: what was asked for does not exist.
    Missing,
}

/// A decoded body.
#[derive(Debug)]
pub enum Body<T> {
    /// The body of a successful answer.
    Success(SuccessResponse<T>),
    /// The body of a failed answer.
    Error(ErrorResponse),
}

/// A request that Pylon refused.
#[derive(Debug)]
pub struct PylonError {
    /// The faults that Pylon reported, joined by a comma and a space.
    pub message: String,
}

/// The envelope of the answer to an issue creation: success on status 200, an error on any
/// other status.
pub fn issue_envelope(status: u16) -> (r: Envelope)
    ensures
        r == if status == 200 {
            Envelope::Success
        } else {
            Envelope::Error
        },
{
    if status == 200 {
        Envelope::Success
    } else {
        Envelope::Error
    }
}

/// The envelope of the answer to an account lookup: success on status 200, nothing on status
/// 404, which says that there is no such account, and an error on any other status.
pub fn account_envelope(status: u16) -> (r: Envelope)
    ensures
        r == if status == 200 {
            Envelope::Success
        } else if status == 404 {
            Envelope::Missing
        } else {
            Envelope::Error
        },
{
    if status == 200 {
        Envelope::Success
    } else if status == 404 {
        Envelope::Missing
    } else {
        Envelope::Error
    }
}

/// The message of the error that stands for `errors`.
pub open spec fn error_message(errors: Seq<String>) -> Seq<char> {
    joined(views(errors), seq![',', ' '])
}

/// What a decoded answer stands for: the data of a success, or an error that lists the faults
/// of a failure.
pub fn response_result<T>(body: Body<T>) -> (r: Result<T, PylonError>)
    ensures
        match body {
            Body::Success(response) => r == Ok::<T, PylonError>(response.data),
            Body::Error(response) => r matches Err(e) && e.message@ == error_message(
                response.errors@,
            ),
        },
{
    match body {
        Body::Success(response) => Ok(response.data),
        Body::Error(response) => {
            proof {
                reveal_strlit(", ");
                assert(", "@ =~= seq![',', ' ']);
            }
            Err(PylonError { message: join(&response.errors, ", ") })
        },
    }
}

impl PylonClient {
    /// The token that goes with each request.
    pub closed spec fn token(&self) -> Seq<char> {
        self.api_token@
    }

    /// A client that authenticates with `api_token`.
    pub fn new(api_token: String) -> (r: Self)
        ensures
            r.token() == api_token@,
    {
        PylonClient { api_token }
    }

    /// The request that files an issue for `account_id`.
    pub fn create_issue<'a>(&self, title: &'a str, body_html: &'a str, account_id: &'a str) -> (r:
        IssueRequest<'a>)
        ensures
            r.url@ == PYLON_API_URL@ + "/issues"@,
            r.bearer_token@ == self.token(),
            r.issue.title@ == title@,
            r.issue.body_html@ == body_html@,
            r.issue.account_id@ == account_id@,
    {
        let mut url = owned(PYLON_API_URL);
        url.append("/issues");
        IssueRequest {
            url,
            bearer_token: self.api_token.clone(),
            issue: Issue { account_id, title, body_html },
        }
    }

    /// The request that looks up the account `account_id`.
    pub fn get_account(&self, account_id: &str) -> (r: AccountRequest)
        ensures
            r.url@ == PYLON_API_URL@ + "/accounts/"@ + account_id@,
            r.bearer_token@ == self.token(),
    {
        let mut url = owned(PYLON_API_URL);
        url.append("/accounts/");
        url.append(account_id);
        AccountRequest { url, bearer_token: self.api_token.clone() }
    }

    /// What the answer to an issue creation stands for.
    pub fn issue_created(body: Body<CreateIssueResponse>) -> (r: Result<
        CreateIssueResponse,
        PylonError,
    >)
        ensures
            match body {
                Body::Success(response) => r == Ok::<CreateIssueResponse, PylonError>(
                    response.data,
                ),
                Body::Error(response) => r matches Err(e) && e.message@ == error_message(
                    response.errors@,
                ),
            },
    {
        response_result(body)
    }

    /// What the answer to an account lookup stands for: the account, `None` where Pylon has no
    /// such account, or the error that Pylon reported.
    pub fn account_found(body: Option<Body<GetAccountResponse>>) -> (r: Result<
        Option<GetAccountResponse>,
        PylonError,
    >)
        ensures
            match body {
                None => r == Ok::<Option<GetAccountResponse>, PylonError>(None),
                Some(Body::Success(response)) => r == Ok::<Option<GetAccountResponse>, PylonError>(
                    Some(response.data),
                ),
                Some(Body::Error(response)) => r matches Err(e) && e.message@ == error_message(
                    response.errors@,
                ),
            },
    {
        match body {
            None => Ok(None),
            Some(body) => match response_result(body) {
                Ok(account) => Ok(Some(account)),
                Err(e) => Err(e),
            },
        }
    }
}

} // verus!
