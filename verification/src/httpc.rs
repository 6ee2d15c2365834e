//! The trusted bridge to `reqwest`: proxy resolution and HTTP-client
//! construction. The client built here performs the one network exchange of
//! a dispatch; issuing the request and reading the response are the caller's
//! (non-verified) side of that exchange.

use vstd::prelude::*;

verus! {

#[verifier::external_type_specification]
#[verifier::external_body]
pub struct ExProxy(reqwest::Proxy);

#[verifier::external_type_specification]
#[verifier::external_body]
pub struct ExClient(reqwest::Client);

#[verifier::external_type_specification]
#[verifier::external_body]
pub struct ExClientBuilder(reqwest::ClientBuilder);

/// Whether `reqwest::Proxy::all` accepts a proxy URL: acceptance depends on
/// the text alone.
pub uninterp spec fn proxy_accepts(url: Seq<char>) -> bool;

/// Relies on `reqwest::Proxy::all`: it parses the text as an apply-to-all-
/// schemes proxy spec, succeeding exactly on text it can parse as one; the
/// error carries the parser's diagnostic.
#[verifier::external_body]
pub(crate) fn proxy_for_all_schemes(url: &str) -> (r: Result<reqwest::Proxy, String>)
    ensures
        r is Ok <==> proxy_accepts(url@),
{
    reqwest::Proxy::all(url).map_err(|e| e.to_string())
}

/// Relies on `reqwest::Client::builder`: a fresh client builder with the
/// default configuration.
#[verifier::external_body]
pub(crate) fn new_client_builder() -> reqwest::ClientBuilder {
    reqwest::Client::builder()
}

/// Relies on `reqwest::ClientBuilder::proxy`: the builder with the proxy
/// added to its proxy list.
#[verifier::external_body]
pub(crate) fn builder_with_proxy(
    builder: reqwest::ClientBuilder,
    proxy: reqwest::Proxy,
) -> reqwest::ClientBuilder {
    builder.proxy(proxy)
}

/// Relies on `reqwest::ClientBuilder::build`: it constructs the HTTP client,
/// or fails with the underlying cause when the backend cannot be set up.
#[verifier::external_body]
pub(crate) fn build_client(builder: reqwest::ClientBuilder) -> Result<reqwest::Client, String> {
    builder.build().map_err(|e| e.to_string())
}

} // verus!
