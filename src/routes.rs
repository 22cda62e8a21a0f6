use vstd::prelude::*;
use vstd::string::StringExecFns;

use crate::config::AppConfig;

verus! {

/// The address of the upstream model listing: the base URL followed by `/models`.
pub fn models_url(config: &AppConfig) -> (r: String)
    ensures
        r@ == config.openai_api_base_url@ + "/models"@,
{
    config.openai_api_base_url.clone().concat("/models")
}

/// The value of the `Authorization` header sent upstream: `Bearer ` and the key.
pub fn upstream_bearer(config: &AppConfig) -> (r: String)
    ensures
        r@ == "Bearer "@ + config.openai_api_key@,
{
    String::from_str("Bearer ").concat(config.openai_api_key.as_str())
}

} // verus!
