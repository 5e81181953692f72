//! Descriptions of the GET requests the stages ask their caller to send.

use vstd::prelude::*;
use vstd::string::*;

verus! {

/// The name this client gives itself in the `user-agent` header.
pub const USER_AGENT: &'static str = "bob";

/// A GET request, described by plain values.
#[derive(Clone, Debug, PartialEq, Eq)]
pub struct Request {
    pub url: String,
    /// Value of the `user-agent` header.
    pub user_agent: String,
    /// Value of the `Accept` header, if one is sent.
    pub accept: Option<String>,
}

/// The model of a [`Request`].
pub struct RequestView {
    pub url: Seq<char>,
    pub user_agent: Seq<char>,
    pub accept: Option<Seq<char>>,
}

impl View for Request {
    type V = RequestView;

    open spec fn view(&self) -> RequestView {
        RequestView {
            url: self.url@,
            user_agent: self.user_agent@,
            accept: match self.accept {
                Some(media_type) => Some(media_type@),
                None => None,
            },
        }
    }
}

} // verus!
