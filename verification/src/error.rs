//! The failures that the client reports.

use vstd::prelude::*;
use crate::text::{decimal, decimal_string, name_mark, starts_with};

verus! {

#[derive(Debug)]
pub enum Error {
    /// The configuration holds no API key.
    ApiKeyRequired,
    /// Status 401: the credential was not accepted.
    InvalidAuthentication,
    /// Status 401: the API key is not a valid one.
    IncorrectApiKeyProvided,
    /// Status 401: the account belongs to no organization.
    OrganizationRequired,
    /// Status 429: too many requests.
    RateLimitExceeded,
    /// Status 429: the quota of the account is used up.
    QuotaExceeded,
    /// Status 429: the engine is overloaded.
    EngineOverload,
    /// Status 500.
    InternalServerError,
    /// The transport failed before any response arrived; the text says how.
    ReqwestError(String),
    /// A status outside the successful range that is none of the above.
    UnexpectedStatus(u16),
    /// The body of a successful response is not the expected document.
    UnexpectedResponseShape,
    /// The response to a chat request offers no choice.
    EmptyChoiceSet,
}

/// Whether a status reports success.
pub open spec fn is_success(status: u16) -> bool {
    200 <= status < 300
}

/// The failure that a status outside the successful range stands for, given
/// the message that came with it. Two statuses are shared by several
/// failures, which the start of the message tells apart.
pub open spec fn status_failure(status: u16, message: Seq<char>) -> Error {
    if status == 401 {
        if "Incorrect API key provided"@.is_prefix_of(message) {
            Error::IncorrectApiKeyProvided
        } else if "You must be a member of an organization"@.is_prefix_of(message) {
            Error::OrganizationRequired
        } else {
            Error::InvalidAuthentication
        }
    } else if status == 429 {
        if "You exceeded your current quota"@.is_prefix_of(message) {
            Error::QuotaExceeded
        } else if "The engine is currently overloaded"@.is_prefix_of(message) {
            Error::EngineOverload
        } else {
            Error::RateLimitExceeded
        }
    } else if status == 500 {
        Error::InternalServerError
    } else {
        Error::UnexpectedStatus(status)
    }
}

impl Error {
    /// The place of the failure's kind in the list of kinds.
    pub open spec fn ordinal(self) -> nat {
        match self {
            Error::ApiKeyRequired => 0,
            Error::InvalidAuthentication => 1,
            Error::IncorrectApiKeyProvided => 2,
            Error::OrganizationRequired => 3,
            Error::RateLimitExceeded => 4,
            Error::QuotaExceeded => 5,
            Error::EngineOverload => 6,
            Error::InternalServerError => 7,
            Error::ReqwestError(_) => 8,
            Error::UnexpectedStatus(_) => 9,
            Error::UnexpectedResponseShape => 10,
            Error::EmptyChoiceSet => 11,
        }
    }

    /// What `description` returns.
    pub open spec fn description_text(self) -> Seq<char> {
        match self {
            Error::ApiKeyRequired => "required api key is not specified"@,
            Error::InvalidAuthentication => "invalid authentication"@,
            Error::IncorrectApiKeyProvided => "incorrect api key provided"@,
            Error::OrganizationRequired => "membership of an organization is required"@,
            Error::RateLimitExceeded => "rate limit reached for requests"@,
            Error::QuotaExceeded => "current quota exceeded"@,
            Error::EngineOverload => "the engine is currently overloaded"@,
            Error::InternalServerError => "the server had an error while processing the request"@,
            Error::ReqwestError(detail) => "encountered error in reqwest library: "@ + detail@,
            Error::UnexpectedStatus(status) => "unexpected response status: "@ + decimal(
                status as nat,
            ),
            Error::UnexpectedResponseShape => "response does not have the expected shape"@,
            Error::EmptyChoiceSet => "response offers no choice"@,
        }
    }

    /// A sentence that says what went wrong.
    pub fn description(&self) -> (text: String)
        ensures
            text@ == self.description_text(),
    {
        match self {
            Error::ApiKeyRequired => "required api key is not specified".to_owned(),
            Error::InvalidAuthentication => "invalid authentication".to_owned(),
            Error::IncorrectApiKeyProvided => "incorrect api key provided".to_owned(),
            Error::OrganizationRequired => "membership of an organization is required".to_owned(),
            Error::RateLimitExceeded => "rate limit reached for requests".to_owned(),
            Error::QuotaExceeded => "current quota exceeded".to_owned(),
            Error::EngineOverload => "the engine is currently overloaded".to_owned(),
            Error::InternalServerError => {
                "the server had an error while processing the request".to_owned()
            },
            Error::ReqwestError(detail) => {
                let mut text = "encountered error in reqwest library: ".to_owned();
                text.append(detail.as_str());
                text
            },
            Error::UnexpectedStatus(status) => {
                let mut text = "unexpected response status: ".to_owned();
                let numeral = decimal_string(*status as u64);
                text.append(numeral.as_str());
                text
            },
            Error::UnexpectedResponseShape => {
                "response does not have the expected shape".to_owned()
            },
            Error::EmptyChoiceSet => "response offers no choice".to_owned(),
        }
    }

    /// The failure that a response status stands for, or `None` for a
    /// status that reports success.
    pub fn from_status(status: u16, message: &str) -> (failure: Option<Error>)
        ensures
            is_success(status) ==> failure is None,
            !is_success(status) ==> failure == Some(status_failure(status, message@)),
    {
        if 200 <= status && status < 300 {
            None
        } else if status == 401 {
            if starts_with(message, "Incorrect API key provided") {
                Some(Error::IncorrectApiKeyProvided)
            } else if starts_with(message, "You must be a member of an organization") {
                Some(Error::OrganizationRequired)
            } else {
                Some(Error::InvalidAuthentication)
            }
        } else if status == 429 {
            if starts_with(message, "You exceeded your current quota") {
                Some(Error::QuotaExceeded)
            } else if starts_with(message, "The engine is currently overloaded") {
                Some(Error::EngineOverload)
            } else {
                Some(Error::RateLimitExceeded)
            }
        } else if status == 500 {
            Some(Error::InternalServerError)
        } else {
            Some(Error::UnexpectedStatus(status))
        }
    }
}

/// Failures of different kinds are described in different words.
pub proof fn lemma_descriptions_differ(a: Error, b: Error)
    requires
        a.ordinal() != b.ordinal(),
    ensures
        a.description_text() != b.description_text(),
{
    assert(name_mark("required api key is not specified"@) == (33nat, 'r', 'e')) by {
        reveal_strlit("required api key is not specified");
    }
    assert(name_mark("invalid authentication"@) == (22nat, 'i', 'n')) by {
        reveal_strlit("invalid authentication");
    }
    assert(name_mark("incorrect api key provided"@) == (26nat, 'i', 'n')) by {
        reveal_strlit("incorrect api key provided");
    }
    assert(name_mark("membership of an organization is required"@) == (41nat, 'm', 'e')) by {
        reveal_strlit("membership of an organization is required");
    }
    assert(name_mark("rate limit reached for requests"@) == (31nat, 'r', 'a')) by {
        reveal_strlit("rate limit reached for requests");
    }
    assert(name_mark("current quota exceeded"@) == (22nat, 'c', 'u')) by {
        reveal_strlit("current quota exceeded");
    }
    assert(name_mark("the engine is currently overloaded"@) == (34nat, 't', 'h')) by {
        reveal_strlit("the engine is currently overloaded");
    }
    assert(name_mark("the server had an error while processing the request"@) == (
        52nat,
        't',
        'h',
    )) by {
        reveal_strlit("the server had an error while processing the request");
    }
    assert(name_mark("response does not have the expected shape"@) == (41nat, 'r', 'e')) by {
        reveal_strlit("response does not have the expected shape");
    }
    assert(name_mark("response offers no choice"@) == (25nat, 'r', 'e')) by {
        reveal_strlit("response offers no choice");
    }
    assert(name_mark("encountered error in reqwest library: "@) == (38nat, 'e', 'n')) by {
        reveal_strlit("encountered error in reqwest library: ");
    }
    assert(name_mark("unexpected response status: "@) == (28nat, 'u', 'n')) by {
        reveal_strlit("unexpected response status: ");
    }
    let x = a.description_text();
    let y = b.description_text();
    assert(name_mark(x).1 == x[0] && name_mark(x).2 == x[1]);
    assert(name_mark(y).1 == y[0] && name_mark(y).2 == y[1]);
}

} // verus!
