//! Why a search fails.

use crate::base_url::BaseUrlError;
use vstd::prelude::*;

verus! {

/// Why a search fails. The variants that hold a string hold what went wrong in words.
#[derive(Debug)]
pub enum SearchError {
    /// The query is absent or blank.
    MissingQuery,
    /// The configured base URL is refused.
    BaseUrl(BaseUrlError),
    /// No HTTP client can be had.
    Client(String),
    /// The request was not answered.
    Request(String),
    /// The answer's status is no success; this is the status.
    Status(String),
    /// The answer's body is not what it should be.
    Body(String),
}

impl SearchError {
    /// The message for the caller.
    pub open spec fn text(self) -> Seq<char> {
        match self {
            SearchError::MissingQuery => "Missing or empty required parameter: query"@,
            SearchError::BaseUrl(reason) => reason.text(),
            SearchError::Client(detail) => detail@,
            SearchError::Request(detail) => "SearXNG request failed: "@ + detail@,
            SearchError::Status(status) => "SearXNG returned non-2xx status: "@ + status@
                + " (check that the instance is running and the base_url is correct)"@,
            SearchError::Body(detail) => "Failed to parse SearXNG response: "@ + detail@,
        }
    }

    /// The message for the caller.
    pub fn message(&self) -> (r: String)
        ensures
            r@ == self.text(),
    {
        match self {
            SearchError::MissingQuery => "Missing or empty required parameter: query".to_owned(),
            SearchError::BaseUrl(reason) => reason.message().to_owned(),
            SearchError::Client(detail) => detail.as_str().to_owned(),
            SearchError::Request(detail) => {
                "SearXNG request failed: ".to_owned().concat(detail.as_str())
            },
            SearchError::Status(status) => {
                "SearXNG returned non-2xx status: ".to_owned().concat(status.as_str()).concat(
                    " (check that the instance is running and the base_url is correct)",
                )
            },
            SearchError::Body(detail) => {
                "Failed to parse SearXNG response: ".to_owned().concat(detail.as_str())
            },
        }
    }
}

// ---------------------------------------------------------------------------
// Laws
// ---------------------------------------------------------------------------

/// The message of every failure, with what went wrong told whole.
pub proof fn law_messages(detail: String, reason: BaseUrlError)
    ensures
        SearchError::MissingQuery.text() == "Missing or empty required parameter: query"@,
        SearchError::BaseUrl(reason).text() == reason.text(),
        SearchError::Client(detail).text() == detail@,
        SearchError::Request(detail).text() == "SearXNG request failed: "@ + detail@,
        SearchError::Status(detail).text() == "SearXNG returned non-2xx status: "@ + detail@
            + " (check that the instance is running and the base_url is correct)"@,
        SearchError::Body(detail).text() == "Failed to parse SearXNG response: "@ + detail@,
{
}

} // verus!
