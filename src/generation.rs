//! The decisions of the client of the haiku generation service.
//!
//! The network call itself is made by the caller: this module says where the
//! request goes, how it is authenticated and what it carries, and turns the
//! status and decoded body of the single reply into a draft or an error.
use vstd::prelude::*;

use crate::config::{lookup_var, read_text, ConfigError};
use crate::errors::{ApiError, UpstreamError};
use crate::haikus::InputHaiku;
use crate::prompts::Prompt;

verus! {

/// The generation service's reply: a haiku and whether it is funny.
#[derive(Debug)]
pub struct HaikuResponse {
    pub haiku: String,
    pub is_funny: bool,
}

/// Where and how to reach the generation service.
#[derive(Debug)]
pub struct DeepseekClient {
    pub url: String,
    pub api_key: String,
}

/// The parts of one generation request that do not depend on floating
/// point: the address, the authorization header value, the prompt text and
/// the token budget.
#[derive(Debug)]
pub struct GenerationRequest {
    pub endpoint: String,
    pub authorization: String,
    pub prompt: String,
    pub max_tokens: i32,
}

/// A status of the 2xx class.
pub open spec fn is_success(status: u16) -> bool {
    200 <= status <= 299
}

/// What a single reply with `status`, whose body decoded to `body` (or did
/// not decode, `None`), gives.
pub open spec fn reply_outcome(status: u16, body: Option<HaikuResponse>) -> Result<
    HaikuResponse,
    ApiError,
> {
    if !is_success(status) {
        Err(ApiError::Upstream(UpstreamError::Status(status)))
    } else {
        match body {
            Some(b) => Ok(b),
            None => Err(ApiError::Upstream(UpstreamError::Malformed)),
        }
    }
}

impl DeepseekClient {
    /// Reads the service address (`DEEPSEEK_API_URL`) and the bearer
    /// credential (`DEEPSEEK_API_KEY`) from `vars`, the process environment;
    /// the first one that is missing gives the error.
    pub fn from_vars(vars: &Vec<(String, String)>) -> (r: Result<DeepseekClient, ConfigError>)
        ensures
            match (lookup_var(vars@, "DEEPSEEK_API_URL"@), lookup_var(vars@, "DEEPSEEK_API_KEY"@)) {
                (Some(u), Some(k)) => r matches Ok(c) && c.url@ == u && c.api_key@ == k,
                (None, _) => r matches Err(ConfigError::MissingEnvVar(n)) && n@
                    == "DEEPSEEK_API_URL"@,
                (Some(_), None) => r matches Err(ConfigError::MissingEnvVar(n)) && n@
                    == "DEEPSEEK_API_KEY"@,
            },
    {
        let url = read_text(vars, "DEEPSEEK_API_URL")?;
        let api_key = read_text(vars, "DEEPSEEK_API_KEY")?;
        Ok(DeepseekClient { url, api_key })
    }

    /// The address that generation requests are posted to.
    pub open spec fn endpoint_of(&self) -> Seq<char> {
        self.url@ + "/generate"@
    }

    /// The value of the authorization header: a bearer credential.
    pub open spec fn authorization_of(&self) -> Seq<char> {
        "Bearer "@ + self.api_key@
    }

    pub fn endpoint(&self) -> (r: String)
        ensures
            r@ == self.endpoint_of(),
    {
        let mut r = self.url.clone();
        r.append("/generate");
        r
    }

    pub fn authorization(&self) -> (r: String)
        ensures
            r@ == self.authorization_of(),
    {
        let mut r = String::from_str("Bearer ");
        r.append(self.api_key.as_str());
        r
    }

    /// The request that asks for a haiku on `prompt`'s content.
    pub fn request_for(&self, prompt: &Prompt, max_tokens: i32) -> (r: GenerationRequest)
        ensures
            r.endpoint@ == self.endpoint_of(),
            r.authorization@ == self.authorization_of(),
            r.prompt@ == prompt.data.content@,
            r.max_tokens == max_tokens,
    {
        GenerationRequest {
            endpoint: self.endpoint(),
            authorization: self.authorization(),
            prompt: prompt.data.content.clone(),
            max_tokens,
        }
    }

    /// Settles a generation from the one reply received: a status outside
    /// the 2xx class fails with that status; a success whose body did not
    /// decode fails as malformed; otherwise the decoded reply is the draft.
    pub fn settle(status: u16, body: Option<HaikuResponse>) -> (r: Result<HaikuResponse, ApiError>)
        ensures
            r == reply_outcome(status, body),
    {
        if status < 200 || status > 299 {
            return Err(ApiError::Upstream(UpstreamError::Status(status)));
        }
        match body {
            Some(b) => Ok(b),
            None => Err(ApiError::Upstream(UpstreamError::Malformed)),
        }
    }
}

impl HaikuResponse {
    /// The draft as the input of a haiku create; storing it is a separate step.
    pub fn into_input(self) -> (r: InputHaiku)
        ensures
            r.content == self.haiku,
            r.is_funny == self.is_funny,
    {
        InputHaiku { content: self.haiku, is_funny: self.is_funny }
    }
}

/// A reply with a status outside the 2xx class fails with that status,
/// whatever its body; a success whose body did not decode fails as malformed.
pub proof fn law_reply_status(status: u16, body: Option<HaikuResponse>)
    ensures
        !is_success(status) ==> reply_outcome(status, body) == Err::<HaikuResponse, ApiError>(
            ApiError::Upstream(UpstreamError::Status(status)),
        ),
        is_success(status) && body is None ==> reply_outcome(status, body) == Err::<
            HaikuResponse,
            ApiError,
        >(ApiError::Upstream(UpstreamError::Malformed)),
        is_success(status) && body is Some ==> reply_outcome(status, body) == Ok::<
            HaikuResponse,
            ApiError,
        >(body->Some_0),
{
}

} // verus!
