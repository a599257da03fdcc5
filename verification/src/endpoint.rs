//! The addresses of the remote service, and the connection that turns them
//! into requests.

use vstd::prelude::*;
use crate::text::{decimal, decimal_string};
use crate::transport::{get_request, post_request, Request};

verus! {

/// The root of one version of the API: the base address, `/v` and the
/// version number.
pub open spec fn api_root(base: Seq<char>, version: u8) -> Seq<char> {
    base + "/v"@ + decimal(version as nat)
}

/// Where chat requests go.
pub open spec fn chat_completions_url(base: Seq<char>, version: u8) -> Seq<char> {
    api_root(base, version) + "/chat/completions"@
}

/// Where completion requests go.
pub open spec fn completions_url(base: Seq<char>, version: u8) -> Seq<char> {
    api_root(base, version) + "/completions"@
}

/// Where the list of models is read.
pub open spec fn models_url(base: Seq<char>, version: u8) -> Seq<char> {
    api_root(base, version) + "/models"@
}

/// Where the model `id` is read.
pub open spec fn model_url(base: Seq<char>, version: u8, id: Seq<char>) -> Seq<char> {
    api_root(base, version) + "/models/"@ + id
}

/// Where the service is reached and how a request is authorized: the base
/// address, the version of the API and the value of the authorization
/// header. A connection is fixed when it is made.
#[derive(Debug)]
pub struct Connection {
    api_endpoint: String,
    api_version: u8,
    api_auth_header: String,
}

impl Clone for Connection {
    fn clone(&self) -> (copy: Self)
        ensures
            copy == *self,
    {
        Connection {
            api_endpoint: self.api_endpoint.clone(),
            api_version: self.api_version,
            api_auth_header: self.api_auth_header.clone(),
        }
    }
}

impl Default for Connection {
    /// The connection to nowhere: no address, version 0 and no credential.
    fn default() -> (connection: Self)
        ensures
            connection.endpoint() == Seq::<char>::empty(),
            connection.version() == 0,
            connection.authorization() == Seq::<char>::empty(),
    {
        Connection { api_endpoint: String::new(), api_version: 0, api_auth_header: String::new() }
    }
}

impl Connection {
    /// The base address of the service.
    pub closed spec fn endpoint(&self) -> Seq<char> {
        self.api_endpoint@
    }

    /// The version of the API.
    pub closed spec fn version(&self) -> u8 {
        self.api_version
    }

    /// The value of the authorization header.
    pub closed spec fn authorization(&self) -> Seq<char> {
        self.api_auth_header@
    }

    pub(crate) fn new(api_endpoint: &str, api_version: u8, api_auth_header: &str) -> (connection:
        Self)
        ensures
            connection.endpoint() == api_endpoint@,
            connection.version() == api_version,
            connection.authorization() == api_auth_header@,
    {
        Connection {
            api_endpoint: api_endpoint.to_owned(),
            api_version,
            api_auth_header: api_auth_header.to_owned(),
        }
    }

    fn root(&self) -> (url: String)
        ensures
            url@ == api_root(self.endpoint(), self.version()),
    {
        let mut url = self.api_endpoint.clone();
        url.append("/v");
        let numeral = decimal_string(self.api_version as u64);
        url.append(numeral.as_str());
        url
    }

    /// The request that submits the JSON text `body` as one turn of a chat.
    pub fn chat_completions(&self, body: String) -> (request: Request)
        ensures
            request@ == post_request(
                chat_completions_url(self.endpoint(), self.version()),
                self.authorization(),
                body@,
            ),
    {
        let mut url = self.root();
        url.append("/chat/completions");
        Request::post(url, self.api_auth_header.as_str(), body)
    }

    /// The request that submits the JSON text `body` for completion.
    pub fn completions(&self, body: String) -> (request: Request)
        ensures
            request@ == post_request(
                completions_url(self.endpoint(), self.version()),
                self.authorization(),
                body@,
            ),
    {
        let mut url = self.root();
        url.append("/completions");
        Request::post(url, self.api_auth_header.as_str(), body)
    }

    /// The request that reads the list of models.
    pub fn models(&self) -> (request: Request)
        ensures
            request@ == get_request(
                models_url(self.endpoint(), self.version()),
                self.authorization(),
            ),
    {
        let mut url = self.root();
        url.append("/models");
        Request::get(url, self.api_auth_header.as_str())
    }

    /// The request that reads the model `id`.
    pub fn model(&self, id: &str) -> (request: Request)
        ensures
            request@ == get_request(
                model_url(self.endpoint(), self.version(), id@),
                self.authorization(),
            ),
    {
        let mut url = self.root();
        url.append("/models/");
        url.append(id);
        Request::get(url, self.api_auth_header.as_str())
    }
}

} // verus!
