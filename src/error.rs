//! The errors that end a resolution.
use vstd::prelude::*;
use crate::handle::BadHandleError;

verus! {

/// The error of a WebFinger document without a feed link.
#[derive(Debug, Clone, Copy, PartialEq, Eq, Structural)]
pub struct NoFeedLink;

/// Every way a resolution can fail.
#[derive(Debug)]
pub enum ApreadErrors {
    /// The handle text lacks the `id@domain` shape.
    BadHandleError(BadHandleError),
    /// The WebFinger document names no feed.
    NoFeedLink(NoFeedLink),
    /// A request failed or its body could not be decoded; the text says why.
    RequestError(String),
}

impl ApreadErrors {
    /// The message shown to the user.
    pub fn message(&self) -> (r: String)
        ensures
            self matches ApreadErrors::BadHandleError(_) ==> r@ == "Unable to read handle"@,
            self matches ApreadErrors::NoFeedLink(_) ==> r@ == "No feed link"@,
            self matches ApreadErrors::RequestError(m) ==> r@ == m@,
    {
        match self {
            ApreadErrors::BadHandleError(_) => String::from_str("Unable to read handle"),
            ApreadErrors::NoFeedLink(_) => String::from_str("No feed link"),
            ApreadErrors::RequestError(m) => m.clone(),
        }
    }
}

} // verus!
