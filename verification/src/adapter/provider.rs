//! Model providers: which client a configuration asks for, and the model
//! each kind of task uses.

use vstd::prelude::*;

use crate::config::{Config, LlmConfig};
use crate::error::DevnpcError;
use crate::text::{lowercase_of, str_eq, to_lowercase};

verus! {

/// The providers a configuration can name.
#[derive(Debug, Clone, Copy, PartialEq, Eq, Structural)]
pub enum Provider {
    DeepSeek,
    OpenAi,
    Anthropic,
    Gemini,
}

/// The provider a lowercased name selects.
pub open spec fn provider_spec(lower: Seq<char>) -> Option<Provider> {
    if lower == "deepseek"@ {
        Some(Provider::DeepSeek)
    } else if lower == "openai"@ {
        Some(Provider::OpenAi)
    } else if lower == "anthropic"@ {
        Some(Provider::Anthropic)
    } else if lower == "gemini"@ {
        Some(Provider::Gemini)
    } else {
        None
    }
}

/// The message for a provider that is not supported.
pub open spec fn unsupported_msg(provider: Seq<char>) -> Seq<char> {
    "不支持的模型提供商: '"@ + provider + "' (可选: deepseek, openai, anthropic, gemini)"@
}

/// The provider of a configuration, its name matched ignoring case.
pub fn create_model(config: &LlmConfig) -> (r: Result<Provider, DevnpcError>)
    ensures
        match provider_spec(lowercase_of(config.provider@)) {
            Some(p) => r == Ok::<Provider, DevnpcError>(p),
            None => r matches Err(DevnpcError::Config(m)) && m@ == unsupported_msg(config.provider@),
        },
{
    let lower = to_lowercase(config.provider.as_str());
    let l = lower.as_str();
    if str_eq(l, "deepseek") {
        Ok(Provider::DeepSeek)
    } else if str_eq(l, "openai") {
        Ok(Provider::OpenAi)
    } else if str_eq(l, "anthropic") {
        Ok(Provider::Anthropic)
    } else if str_eq(l, "gemini") {
        Ok(Provider::Gemini)
    } else {
        let mut m = String::from_str("不支持的模型提供商: '");
        m.append(config.provider.as_str());
        m.append("' (可选: deepseek, openai, anthropic, gemini)");
        Err(DevnpcError::Config(m))
    }
}

/// The endpoint with another model, when one is named.
pub open spec fn with_model(llm: LlmConfig, model: Seq<char>) -> (Seq<char>, Seq<char>, Seq<char>, Seq<char>) {
    (llm.api_key@, llm.base_url@, if model.len() == 0 { llm.model@ } else { model }, llm.provider@)
}

pub open spec fn endpoint(llm: LlmConfig) -> (Seq<char>, Seq<char>, Seq<char>, Seq<char>) {
    (llm.api_key@, llm.base_url@, llm.model@, llm.provider@)
}

fn routed(llm: &LlmConfig, model: &String) -> (r: LlmConfig)
    ensures
        endpoint(r) == with_model(*llm, model@),
{
    LlmConfig {
        api_key: llm.api_key.clone(),
        base_url: llm.base_url.clone(),
        model: if model.as_str().is_empty() {
            llm.model.clone()
        } else {
            model.clone()
        },
        provider: llm.provider.clone(),
    }
}

/// The endpoint for simple tasks (reading, searching): the routed simple
/// model, or the main one when none is routed.
pub fn create_simple_model(config: &Config) -> (r: Result<(Provider, LlmConfig), DevnpcError>)
    ensures
        match provider_spec(lowercase_of(config.llm.provider@)) {
            Some(p) => r matches Ok((q, c)) && q == p && endpoint(c) == with_model(
                config.llm,
                config.model_routing.simple_model@,
            ),
            None => r matches Err(DevnpcError::Config(m)) && m@ == unsupported_msg(config.llm.provider@),
        },
{
    let c = routed(&config.llm, &config.model_routing.simple_model);
    match create_model(&c) {
        Ok(p) => Ok((p, c)),
        Err(e) => Err(e),
    }
}

/// The endpoint for complex tasks (changing code, fixing, reasoning): the
/// routed complex model, or the main one when none is routed.
pub fn create_complex_model(config: &Config) -> (r: Result<(Provider, LlmConfig), DevnpcError>)
    ensures
        match provider_spec(lowercase_of(config.llm.provider@)) {
            Some(p) => r matches Ok((q, c)) && q == p && endpoint(c) == with_model(
                config.llm,
                config.model_routing.complex_model@,
            ),
            None => r matches Err(DevnpcError::Config(m)) && m@ == unsupported_msg(config.llm.provider@),
        },
{
    let c = routed(&config.llm, &config.model_routing.complex_model);
    match create_model(&c) {
        Ok(p) => Ok((p, c)),
        Err(e) => Err(e),
    }
}

} // verus!
