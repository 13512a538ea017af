//! The client's state: where the runtime's API is, the credentials, the HTTP
//! client that carries the requests, and the token a login hands out.
use vstd::prelude::*;

use crate::error::PlcError;
use crate::http::{build_http_client, HttpClient};

verus! {

/// A client for the runtime's REST API.
pub struct PlcClient {
    /// The HTTP client that carries the requests.
    pub reqwest_http_client: HttpClient,
    /// The base URL of the runtime's API; endpoint paths are appended to it.
    pub base_api_url: String,
    pub auth_username: String,
    pub auth_password: String,
    /// The token of the last successful login, if any.
    pub jwt_token: Option<String>,
}

/// The text of the authorization header that carries `token`.
pub open spec fn bearer(token: Seq<char>) -> Seq<char> {
    "Bearer "@ + token
}

impl PlcClient {
    /// A client for the API at `api_url` with the given credentials, not yet
    /// logged in, whose HTTP client accepts the runtime's self-signed
    /// certificate. Where that HTTP client cannot be built, the error is
    /// `ClientSetup` with the description of why.
    pub fn new(api_url: &str, username: &str, password: &str) -> (r: Result<PlcClient, PlcError>)
        ensures
            r matches Ok(c) ==> {
                &&& c.reqwest_http_client.accepts_invalid_certs()
                &&& c.base_api_url@ == api_url@
                &&& c.auth_username@ == username@
                &&& c.auth_password@ == password@
                &&& c.jwt_token is None
            },
            r matches Err(e) ==> e is ClientSetup,
    {
        let built = build_http_client(true);
        PlcClient::client_from(built, api_url, username, password)
    }

    /// A client from the outcome of building its HTTP client: a built HTTP
    /// client gives a client with the given settings and no token, whatever
    /// the settings are; a failed build gives `ClientSetup` with the build
    /// error's description (its `Display` text).
    pub fn client_from(
        built: Result<HttpClient, reqwest::Error>,
        api_url: &str,
        username: &str,
        password: &str,
    ) -> (r: Result<PlcClient, PlcError>)
        ensures
            r is Ok <==> built is Ok,
            r matches Ok(c) ==> {
                &&& c.reqwest_http_client == built->Ok_0
                &&& c.base_api_url@ == api_url@
                &&& c.auth_username@ == username@
                &&& c.auth_password@ == password@
                &&& c.jwt_token is None
            },
            built is Err ==> (r matches Err(PlcError::ClientSetup(s))
                && vstd::string::to_string_from_display_ensures::<reqwest::Error>(
                &built->Err_0,
                s,
            )),
    {
        match built {
            Ok(http) => Ok(
                PlcClient {
                    reqwest_http_client: http,
                    base_api_url: api_url.to_owned(),
                    auth_username: username.to_owned(),
                    auth_password: password.to_owned(),
                    jwt_token: None,
                },
            ),
            Err(e) => Err(PlcError::ClientSetup(e.to_string())),
        }
    }

    /// The full URL of the endpoint at `path`: the base URL followed by the path.
    pub fn url(&self, path: &str) -> (r: String)
        ensures
            r@ == self.base_api_url@ + path@,
    {
        let mut r = self.base_api_url.clone();
        r.append(path);
        r
    }

    /// The authorization header for the requests after a login.
    pub fn auth_header(&self) -> (r: String)
        requires
            self.jwt_token is Some,
        ensures
            r@ == bearer(self.jwt_token->0@),
            r@ == "Bearer "@ + self.jwt_token->0@,
    {
        let token = self.jwt_token.as_ref().expect("JWT token not set");
        let mut r = String::from_str("Bearer ");
        r.append(token.as_str());
        r
    }
}

/// The header is `Bearer `, a space, and then the entire token, whatever its
/// length: cutting the seven leading characters off gives the token back.
pub proof fn lemma_bearer_carries_whole_token(token: Seq<char>)
    ensures
        bearer(token).len() == token.len() + 7,
        bearer(token).take(7) == "Bearer "@,
        bearer(token).skip(7) == token,
{
    reveal_strlit("Bearer ");
    assert("Bearer "@.len() == 7);
    assert(bearer(token).take(7) =~= "Bearer "@);
    assert(bearer(token).skip(7) =~= token);
}

} // verus!
