//! The failure taxonomy of the completion client. Every failure is a value
//! returned to the caller; none ends the process.

use vstd::prelude::*;
use vstd::string::*;
use crate::strutil::{dec_u64, spec_dec};

verus! {

/// Mathematical image of an [`AIError`].
pub enum ErrView {
    NotConfigured,
    Network(Seq<char>),
    Api(Seq<char>),
    Parse(Seq<char>),
    RateLimited(u64),
}

/// What a completion call can fail with.
///
/// `NotConfigured` is returned before any network attempt; `NetworkError`
/// carries a transport diagnostic; `ApiError` carries the endpoint's status
/// or logical error text; `ParseError` carries a decoding diagnostic;
/// `RateLimited` carries the suggested wait in seconds.
#[derive(Debug, PartialEq)]
pub enum AIError {
    NotConfigured,
    NetworkError(String),
    ApiError(String),
    ParseError(String),
    RateLimited(u64),
}

impl View for AIError {
    type V = ErrView;

    open spec fn view(&self) -> ErrView {
        match self {
            AIError::NotConfigured => ErrView::NotConfigured,
            AIError::NetworkError(d) => ErrView::Network(d@),
            AIError::ApiError(d) => ErrView::Api(d@),
            AIError::ParseError(d) => ErrView::Parse(d@),
            AIError::RateLimited(s) => ErrView::RateLimited(*s),
        }
    }
}

/// The image of a completion outcome: the returned text, or the error.
pub open spec fn res_view(r: Result<String, AIError>) -> Result<Seq<char>, ErrView> {
    match r {
        Ok(s) => Ok(s@),
        Err(e) => Err(e@),
    }
}

/// The one-line description of an error, as shown to the user.
pub open spec fn spec_message(e: ErrView) -> Seq<char> {
    match e {
        ErrView::NotConfigured => "AI not configured. Set VIMGRAM_AI_KEY or run :ai setup"@,
        ErrView::Network(d) => "Network error: "@ + d,
        ErrView::Api(d) => "API error: "@ + d,
        ErrView::Parse(d) => "Parse error: "@ + d,
        ErrView::RateLimited(s) => "Rate limited. Try again in "@ + spec_dec(s as int) + "s"@,
    }
}

impl AIError {
    /// Describe the error in one line.
    pub fn message(&self) -> (s: String)
        ensures
            s@ == spec_message(self@),
    {
        match self {
            AIError::NotConfigured => String::from_str(
                "AI not configured. Set VIMGRAM_AI_KEY or run :ai setup",
            ),
            AIError::NetworkError(d) => String::from_str("Network error: ").concat(d.as_str()),
            AIError::ApiError(d) => String::from_str("API error: ").concat(d.as_str()),
            AIError::ParseError(d) => String::from_str("Parse error: ").concat(d.as_str()),
            AIError::RateLimited(s) => String::from_str("Rate limited. Try again in ").concat(
                dec_u64(*s).as_str(),
            ).concat("s"),
        }
    }
}

} // verus!
