//! The ways a daily run can fail, and the text that reports each of them.

use vstd::prelude::*;
use crate::text::{decimal, push_padded_decimal};

verus! {

/// Every failure the library reports.
#[derive(Debug)]
pub enum HabitsError {
    /// Notion answered with a status outside 200..=299; its status and body.
    NotionApi { status: u16, body: String },
    /// No page for today was found in the Daily Tracking database.
    NoDayEntry,
    /// A Notion reply had no `results` array.
    MissingResultsArray,
    /// The HTTP request itself failed: the transport's own message, and
    /// whether it failed by timing out or while connecting.
    Http { message: String, timeout: bool, connect: bool },
    /// A Notion reply was not JSON of the expected shape.
    Json(String),
    /// The configuration could not be loaded.
    Config(String),
}

/// The text that reports `e`.
pub open spec fn error_message(e: HabitsError) -> Seq<char> {
    match e {
        HabitsError::NotionApi { status, body } =>
            "Notion API error "@ + decimal(status as nat) + ": "@ + body@,
        HabitsError::NoDayEntry =>
            "No day entry found in Notion for today. Did you create today's page?"@,
        HabitsError::MissingResultsArray => "Notion response missing 'results' array"@,
        HabitsError::Http { message, .. } => "HTTP request failed: "@ + message@,
        HabitsError::Json(message) => "JSON parse error: "@ + message@,
        HabitsError::Config(message) => "Failed to load configuration: "@ + message@,
    }
}

/// Whether a failure is transient, so that trying again may succeed: an
/// HTTP failure by timeout or while connecting.
pub open spec fn retryable(e: HabitsError) -> bool {
    match e {
        HabitsError::Http { timeout, connect, .. } => timeout || connect,
        _ => false,
    }
}

impl HabitsError {
    /// The text that reports this failure.
    pub fn message(&self) -> (r: String)
        ensures
            r@ == error_message(*self),
    {
        match self {
            HabitsError::NotionApi { status, body } => {
                let mut s = String::from_str("Notion API error ");
                push_padded_decimal(&mut s, *status as u64, 0);
                s.append(": ");
                s.append(body.as_str());
                s
            },
            HabitsError::NoDayEntry => String::from_str(
                "No day entry found in Notion for today. Did you create today's page?",
            ),
            HabitsError::MissingResultsArray => String::from_str(
                "Notion response missing 'results' array",
            ),
            HabitsError::Http { message, .. } => {
                let mut s = String::from_str("HTTP request failed: ");
                s.append(message.as_str());
                s
            },
            HabitsError::Json(message) => {
                let mut s = String::from_str("JSON parse error: ");
                s.append(message.as_str());
                s
            },
            HabitsError::Config(message) => {
                let mut s = String::from_str("Failed to load configuration: ");
                s.append(message.as_str());
                s
            },
        }
    }

    /// Whether trying the failed operation again may succeed.
    pub fn is_retryable(&self) -> (r: bool)
        ensures
            r == retryable(*self),
    {
        match self {
            HabitsError::Http { timeout, connect, .. } => *timeout || *connect,
            _ => false,
        }
    }
}

/// The status line of a Notion reply decides whether its body is an answer
/// or a failure: statuses 200..=299 give the body back.
pub fn check_response(status: u16, body: String) -> (r: Result<String, HabitsError>)
    ensures
        200 <= status <= 299 ==> r == Ok::<String, HabitsError>(body),
        !(200 <= status <= 299) ==> r == Err::<String, HabitsError>(
            HabitsError::NotionApi { status, body },
        ),
{
    if 200 <= status && status <= 299 {
        Ok(body)
    } else {
        Err(HabitsError::NotionApi { status, body })
    }
}

} // verus!
