use vstd::prelude::*;

verus! {

/// The settings and usage counters of the butler, as stored in its configuration file.
#[derive(Clone, Debug, PartialEq)]
pub struct ButlerConfig {
    pub user_name: String,
    pub ai_name: String,
    pub vibe: String,
    pub tokens_used: usize,
    pub token_limit: usize,
    pub requests_made: usize,
    pub request_limit: usize,
    pub api_url: String,
}

/// The token allowance of a new configuration.
pub open spec fn spec_default_token_limit() -> nat {
    4_000_000
}

/// The request allowance of a new configuration.
pub open spec fn spec_default_request_limit() -> nat {
    1_500
}

/// The endpoint of a new configuration; `{}` stands where the key goes.
pub open spec fn spec_default_api_url() -> Seq<char> {
    "https://generativelanguage.googleapis.com/v1beta/models/gemini-2.5-flash:generateContent?key={}"@
}

/// The token allowance that a configuration gets when its file names none.
pub fn default_token_limit() -> (limit: usize)
    ensures
        limit == spec_default_token_limit(),
{
    4_000_000
}

/// The request allowance that a configuration gets when its file names none.
pub fn default_request_limit() -> (limit: usize)
    ensures
        limit == spec_default_request_limit(),
{
    1_500
}

/// The endpoint that a configuration gets when its file names none.
pub fn default_api_url() -> (url: String)
    ensures
        url@ == spec_default_api_url(),
{
    String::from_str(
        "https://generativelanguage.googleapis.com/v1beta/models/gemini-2.5-flash:generateContent?key={}",
    )
}

impl ButlerConfig {
    /// The configuration that onboarding writes: the three answers, no usage yet,
    /// and the default allowances and endpoint.
    pub fn new(user_name: String, ai_name: String, vibe: String) -> (config: ButlerConfig)
        ensures
            config.user_name == user_name,
            config.ai_name == ai_name,
            config.vibe == vibe,
            config.tokens_used == 0,
            config.token_limit == spec_default_token_limit(),
            config.requests_made == 0,
            config.request_limit == spec_default_request_limit(),
            config.api_url@ == spec_default_api_url(),
    {
        ButlerConfig {
            user_name,
            ai_name,
            vibe,
            tokens_used: 0,
            token_limit: default_token_limit(),
            requests_made: 0,
            request_limit: default_request_limit(),
            api_url: default_api_url(),
        }
    }

    /// Whether the token allowance is spent.
    pub open spec fn tokens_exhausted(&self) -> bool {
        self.tokens_used >= self.token_limit
    }

    /// Whether the request allowance is spent.
    pub open spec fn requests_exhausted(&self) -> bool {
        self.requests_made >= self.request_limit
    }
}

} // verus!
