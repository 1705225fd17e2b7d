//! The identity lookup: where a claimed name is asked about, and what the
//! answer of the identity service means.

use vstd::prelude::*;

verus! {

/// What the identity service sends back, once the body has been decoded:
/// either an account or the report of a failed resolution.
#[derive(Clone, PartialEq, Eq, Debug)]
pub enum MojangResponse {
    Success { id: String, name: String },
    Failure { path: String, error_message: String },
}

/// [`MojangResponse`] as contracts see it.
pub enum MojangResponseView {
    Success { id: Seq<char>, name: Seq<char> },
    Failure { path: Seq<char>, error_message: Seq<char> },
}

impl View for MojangResponse {
    type V = MojangResponseView;

    open spec fn view(&self) -> MojangResponseView {
        match *self {
            MojangResponse::Success { id, name } => MojangResponseView::Success {
                id: id@,
                name: name@,
            },
            MojangResponse::Failure { path, error_message } => MojangResponseView::Failure {
                path: path@,
                error_message: error_message@,
            },
        }
    }
}

/// The outcome of one lookup. `canonical_name` is the name as the service
/// spells it, which may differ from the claimed one in case.
#[derive(Clone, PartialEq, Eq, Debug)]
pub enum IdentityLookupResult {
    Found { account_id: String, canonical_name: String },
    NotFound,
    TransportError,
}

/// [`IdentityLookupResult`] as contracts see it.
pub enum IdentityLookupResultView {
    Found { account_id: Seq<char>, canonical_name: Seq<char> },
    NotFound,
    TransportError,
}

impl View for IdentityLookupResult {
    type V = IdentityLookupResultView;

    open spec fn view(&self) -> IdentityLookupResultView {
        match *self {
            IdentityLookupResult::Found { account_id, canonical_name } => {
                IdentityLookupResultView::Found {
                    account_id: account_id@,
                    canonical_name: canonical_name@,
                }
            },
            IdentityLookupResult::NotFound => IdentityLookupResultView::NotFound,
            IdentityLookupResult::TransportError => IdentityLookupResultView::TransportError,
        }
    }
}

/// The address under which the identity service answers for any name.
pub open spec fn profile_endpoint() -> Seq<char> {
    "https://api.mojang.com/users/profiles/minecraft/"@
}

/// The address to ask about `username`: the endpoint, then the name as it
/// was claimed.
pub open spec fn profile_url_text(username: Seq<char>) -> Seq<char> {
    profile_endpoint() + username
}

/// What a lookup came to. `None` stands for a request that failed or a body
/// that could not be decoded; a decoded failure report means that there is no
/// such account.
pub open spec fn interpreted(response: Option<MojangResponseView>) -> IdentityLookupResultView {
    match response {
        Some(MojangResponseView::Success { id, name }) => IdentityLookupResultView::Found {
            account_id: id,
            canonical_name: name,
        },
        Some(MojangResponseView::Failure { .. }) => IdentityLookupResultView::NotFound,
        None => IdentityLookupResultView::TransportError,
    }
}

/// The view of a response that may be missing.
pub open spec fn response_view(response: Option<MojangResponse>) -> Option<MojangResponseView> {
    match response {
        Some(r) => Some(r@),
        None => None,
    }
}

/// Builds the address to ask about `username`.
pub fn profile_url(username: &str) -> (url: String)
    ensures
        url@ == profile_url_text(username@),
{
    let mut url = String::from_str("https://api.mojang.com/users/profiles/minecraft/");
    url.append(username);
    url
}

/// Turns the answer of the identity service into the outcome of the lookup.
pub fn interpret(response: Option<MojangResponse>) -> (result: IdentityLookupResult)
    ensures
        result@ == interpreted(response_view(response)),
{
    match response {
        Some(MojangResponse::Success { id, name }) => IdentityLookupResult::Found {
            account_id: id,
            canonical_name: name,
        },
        Some(MojangResponse::Failure { .. }) => IdentityLookupResult::NotFound,
        None => IdentityLookupResult::TransportError,
    }
}

} // verus!
