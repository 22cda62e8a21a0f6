use vstd::prelude::*;
use vstd::string::StringExecFns;

use crate::api_client::ApiClient;
use crate::config::AppConfig;

verus! {

/// What every request handler shares: the upstream client and the settings.
pub struct AppState {
    pub client: ApiClient,
    pub config: AppConfig,
}

impl Clone for AppState {
    fn clone(&self) -> (r: AppState)
        ensures
            r.client.key() == self.client.key(),
            r.client.base_url() == self.client.base_url(),
            r.config.openai_api_key@ == self.config.openai_api_key@,
            r.config.host@ == self.config.host@,
            r.config.port == self.config.port,
            r.config.openai_api_base_url@ == self.config.openai_api_base_url@,
    {
        AppState {
            client: self.client.clone(),
            config: self.config.clone(),
        }
    }
}

} // verus!
