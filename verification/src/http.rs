//! The HTTP client that carries the requests to the runtime, with the one
//! setting the node builds it with: whether it accepts a certificate that does
//! not verify (the runtime serves a self-signed one).
use vstd::prelude::*;

verus! {

/// `reqwest::Client`, the HTTP client; opaque here, only carried.
#[verifier::external_type_specification]
#[verifier::external_body]
pub struct ExHttpClient(reqwest::Client);

/// `reqwest::ClientBuilder`, the settings of a client to be built; opaque here.
#[verifier::external_type_specification]
#[verifier::external_body]
pub struct ExHttpClientBuilder(reqwest::ClientBuilder);

/// `reqwest::Error`, why a client could not be built; opaque here.
#[verifier::external_type_specification]
#[verifier::external_body]
pub struct ExHttpError(reqwest::Error);

/// The settings of an HTTP client to be built, with the certificate setting
/// they hold.
pub struct HttpClientBuilder {
    builder: reqwest::ClientBuilder,
    accepts_invalid_certs: bool,
}

/// An HTTP client, with the certificate setting it was built with.
pub struct HttpClient {
    client: reqwest::Client,
    accepts_invalid_certs: bool,
}

impl HttpClientBuilder {
    /// Whether the client to be built will accept a certificate that does not verify.
    pub closed spec fn accepts_invalid_certs(&self) -> bool {
        self.accepts_invalid_certs
    }
}

impl HttpClient {
    /// Whether the client accepts a certificate that does not verify.
    pub closed spec fn accepts_invalid_certs(&self) -> bool {
        self.accepts_invalid_certs
    }

    /// The reqwest client that sends the requests.
    pub fn reqwest_client(&self) -> &reqwest::Client {
        &self.client
    }
}

/// `reqwest::ClientBuilder::new`: reqwest's default settings, under which
/// certificates are verified (`certs_verification` starts `true`).
#[verifier::external_body]
fn builder_new() -> (b: HttpClientBuilder)
    ensures
        !b.accepts_invalid_certs(),
{
    HttpClientBuilder { builder: reqwest::ClientBuilder::new(), accepts_invalid_certs: false }
}

/// `reqwest::ClientBuilder::danger_accept_invalid_certs`: the same settings
/// with certificate verification switched off exactly when `accept` is set
/// (`certs_verification = !accept`).
#[verifier::external_body]
fn builder_accept_invalid_certs(b: HttpClientBuilder, accept: bool) -> (r: HttpClientBuilder)
    ensures
        r.accepts_invalid_certs() == accept,
{
    HttpClientBuilder {
        builder: b.builder.danger_accept_invalid_certs(accept),
        accepts_invalid_certs: accept,
    }
}

/// `reqwest::ClientBuilder::build`: a client configured with the builder's
/// certificate setting, or an error where the TLS backend or the resolver
/// cannot be set up. Which of the two comes back depends on the machine, so
/// nothing is claimed of it.
#[verifier::external_body]
fn builder_build(b: HttpClientBuilder) -> (r: Result<HttpClient, reqwest::Error>)
    ensures
        r matches Ok(c) ==> c.accepts_invalid_certs() == b.accepts_invalid_certs(),
{
    match b.builder.build() {
        Ok(client) => Ok(HttpClient { client, accepts_invalid_certs: b.accepts_invalid_certs }),
        Err(e) => Err(e),
    }
}

/// Builds an HTTP client that accepts a certificate that does not verify
/// exactly when `accept_invalid_certs` is set, with reqwest's defaults
/// otherwise; whether the build succeeds depends on the machine.
pub fn build_http_client(accept_invalid_certs: bool) -> (r: Result<HttpClient, reqwest::Error>)
    ensures
        r matches Ok(c) ==> c.accepts_invalid_certs() == accept_invalid_certs,
{
    let builder = builder_new();
    let builder = builder_accept_invalid_certs(builder, accept_invalid_certs);
    builder_build(builder)
}

} // verus!
