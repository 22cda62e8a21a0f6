use vstd::prelude::*;
use vstd::string::StringExecFns;

verus! {

#[verifier::external_type_specification]
#[verifier::external_body]
pub struct ExClient(reqwest::Client);

/// Relies on `reqwest::Client::new`, which builds a client with default settings
/// (it panics only where the machine offers no TLS backend or resolver settings).
pub assume_specification[ reqwest::Client::new ]() -> reqwest::Client;

/// Relies on `reqwest::Client::clone`, a handle to the same connection pool.
pub assume_specification[ <reqwest::Client as Clone>::clone ](c: &reqwest::Client) -> reqwest::Client;

/// Holds what is needed to call the upstream API.
pub struct ApiClient {
    api_key: String,
    api_base_url: String,
    client: reqwest::Client,
}

impl Clone for ApiClient {
    fn clone(&self) -> (r: ApiClient)
        ensures
            r.key() == self.key(),
            r.base_url() == self.base_url(),
    {
        ApiClient {
            api_key: self.api_key.clone(),
            api_base_url: self.api_base_url.clone(),
            client: self.client.clone(),
        }
    }
}

impl ApiClient {
    pub closed spec fn key(&self) -> Seq<char> {
        self.api_key@
    }

    pub closed spec fn base_url(&self) -> Seq<char> {
        self.api_base_url@
    }

    pub fn new(api_base_url: String, api_key: String) -> (r: ApiClient)
        ensures
            r.base_url() == api_base_url@,
            r.key() == api_key@,
    {
        ApiClient { api_base_url, api_key, client: reqwest::Client::new() }
    }

    /// The address of `path` under the base URL: the two joined as they stand.
    pub fn url_for(&self, path: &str) -> (r: String)
        ensures
            r@ == self.base_url() + path@,
    {
        self.api_base_url.clone().concat(path)
    }

    /// The value of the `Authorization` header sent upstream: `Bearer ` and the key.
    pub fn bearer_value(&self) -> (r: String)
        ensures
            r@ == "Bearer "@ + self.key(),
    {
        String::from_str("Bearer ").concat(self.api_key.as_str())
    }

    pub fn http_client(&self) -> (r: &reqwest::Client)
    {
        &self.client
    }
}

} // verus!
