//! What Pylon answers.

use vstd::prelude::*;

verus! {

/// The envelope of a successful answer.
#[derive(Debug)]
pub struct SuccessResponse<T> {
    /// What was asked for.
    pub data: T,
    /// Pylon's identifier of the request.
    pub request_id: Option<String>,
}

/// The issue that was created.
#[derive(Debug)]
pub struct CreateIssueResponse {
    /// Pylon's identifier of the issue.
    pub id: Option<String>,
    /// The issue's number.
    pub number: Option<u64>,
    /// Where the issue can be seen.
    pub link: Option<String>,
}

/// An account as Pylon knows it.
#[derive(Debug)]
pub struct GetAccountResponse {
    /// Pylon's identifier of the account.
    pub id: Option<String>,
    /// The account's name.
    pub name: Option<String>,
}

/// The envelope of a failed answer.
#[derive(Debug)]
pub struct ErrorResponse {
    /// What went wrong, one text for each fault.
    pub errors: Vec<String>,
    /// The identifier of an object that exists already, where that is the fault.
    pub exists_id: Option<String>,
    /// Pylon's identifier of the request.
    pub request_id: Option<String>,
}

} // verus!
