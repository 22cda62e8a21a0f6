use vstd::prelude::*;
use vstd::string::StringExecFns;

verus! {

/// The settings of the proxy.
pub struct AppConfig {
    /// The secret that clients must present, and that is sent upstream.
    pub openai_api_key: String,
    pub host: String,
    pub port: usize,
    pub openai_api_base_url: String,
}

impl Clone for AppConfig {
    fn clone(&self) -> (r: AppConfig)
        ensures
            r.openai_api_key@ == self.openai_api_key@,
            r.host@ == self.host@,
            r.port == self.port,
            r.openai_api_base_url@ == self.openai_api_base_url@,
    {
        AppConfig {
            openai_api_key: self.openai_api_key.clone(),
            host: self.host.clone(),
            port: self.port,
            openai_api_base_url: self.openai_api_base_url.clone(),
        }
    }
}

impl Default for AppConfig {
    /// No secret, `127.0.0.1:3000`, and the public upstream.
    fn default() -> (r: AppConfig)
        ensures
            r.openai_api_key@ == Seq::<char>::empty(),
            r.host@ == "127.0.0.1"@,
            r.port == 3000,
            r.openai_api_base_url@ == "https://api.openai.com/v1/"@,
    {
        AppConfig {
            openai_api_key: String::new(),
            host: String::from_str("127.0.0.1"),
            port: 3000,
            openai_api_base_url: String::from_str("https://api.openai.com/v1/"),
        }
    }
}

} // verus!
