//! The browser console: the interactive query page served to a browser, which
//! submits GraphQL operations back to the API.

use vstd::prelude::*;

verus! {

/// The console page rendered for a given query endpoint and subscription
/// endpoint: a fixed HTML document with the two endpoints embedded, depending
/// on the endpoints alone.
pub uninterp spec fn playground_html(endpoint: Seq<char>, subscription_endpoint: Seq<char>) -> Seq<
    char,
>;

/// Relies on `async_graphql::http::playground_source`: with no headers,
/// settings or title set, the page is a fixed non-empty template with the two
/// endpoints serialized into it, a function of the endpoints alone.
#[verifier::external_body]
fn render_playground(endpoint: &str, subscription_endpoint: &str) -> (page: String)
    ensures
        page@ == playground_html(endpoint@, subscription_endpoint@),
        page@.len() > 0,
{
    async_graphql::http::playground_source(
        async_graphql::http::GraphQLPlaygroundConfig::new(endpoint).subscription_endpoint(
            subscription_endpoint,
        ),
    )
}

/// The console page the API serves on its root path: queries and
/// subscriptions both submit to `/`.
pub fn playground_page() -> (page: String)
    ensures
        page@ == playground_html("/"@, "/"@),
        page@.len() > 0,
{
    render_playground("/", "/")
}

} // verus!
