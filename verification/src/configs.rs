use vstd::prelude::*;
use vstd::string::StringExecFns;

verus! {

/// Settings for the HTTP listener that receives webhook requests.
pub struct IngestorConfig {
    pub host: String,
}

/// Settings for the account under which outbound messages are published.
pub struct GoogleConfig {
    pub application_credentials: String,
}

/// Address the listener binds to when none is configured.
pub fn default_host() -> (r: String)
    ensures
        r@ == "0.0.0.0:8080"@,
{
    String::from_str("0.0.0.0:8080")
}

} // verus!
