//! The configuration read at start-up, and the checks it must pass before
//! the assistant starts.
use vstd::prelude::*;
use vstd::string::*;
use crate::providers::openai::{
    binary64_finite_in_zero_to_two, law_temperature_allowed_is_float_range, temperature_allowed,
    OpenAiCompatibleProviderConfig, Temperature,
};
use crate::text::{blank, is_blank};

verus! {

/// Why the configuration could not be loaded.
#[derive(Debug)]
pub enum ConfigError {
    /// The home directory, where the configuration lives, is unknown.
    HomeDirUnavailable,
    /// The configuration file could not be read; `source` tells why.
    ReadFile { path: String, source: String },
    /// The file is not valid TOML for the configuration; the text tells why.
    InvalidToml(String),
    /// A setting has a value that is not allowed.
    Validation(String),
}

/// The whole configuration.
#[derive(Debug, Clone)]
pub struct AppConfig {
    pub provider: ProviderSection,
}

/// The `[provider]` section.
#[derive(Debug, Clone)]
pub struct ProviderSection {
    pub openai_compatible: OpenAiCompatibleProviderConfig,
}

/// The text of the error for an empty base URL.
pub open spec fn blank_base_url_text() -> Seq<char> {
    "provider.openai_compatible.base_url must not be empty"@
}

/// The text of the error for an empty model name.
pub open spec fn blank_model_text() -> Seq<char> {
    "provider.openai_compatible.model must not be empty"@
}

/// The text of the error for a temperature that is not a finite number in
/// `0.0..=2.0`.
pub open spec fn temperature_out_of_range_text(t: Temperature) -> Seq<char> {
    "provider.openai_compatible.temperature is out of range: "@ + t.text@
}

/// The text of the error for a maximum token count of zero.
pub open spec fn zero_max_tokens_text() -> Seq<char> {
    "provider.openai_compatible.max_tokens must be greater than 0"@
}

/// Whether the provider settings pass every check.
pub open spec fn provider_settings_valid(c: OpenAiCompatibleProviderConfig) -> bool {
    &&& !blank(c.base_url@)
    &&& !blank(c.model@)
    &&& c.temperature matches Some(t) ==> temperature_allowed(t.bits)
    &&& c.max_tokens != Some(0u64)
}

/// The settings pass exactly when the base URL and the model are not blank,
/// the temperature, if set, is a finite number in `0.0..=2.0`, and the
/// maximum token count, if set, is not zero.
pub proof fn law_settings_valid_means(c: OpenAiCompatibleProviderConfig)
    ensures
        provider_settings_valid(c) <==> {
            &&& !blank(c.base_url@)
            &&& !blank(c.model@)
            &&& c.temperature matches Some(t) ==> binary64_finite_in_zero_to_two(t.bits)
            &&& c.max_tokens matches Some(n) ==> n > 0
        },
{
    if let Some(t) = c.temperature {
        law_temperature_allowed_is_float_range(t.bits);
    }
}

impl AppConfig {
    /// Checks the settings, in this order: the base URL and the model must
    /// not be empty or white space only, the temperature (if set) must be a
    /// finite number in `0.0..=2.0`, the maximum token count (if set) must
    /// not be zero. The first check that fails gives the error.
    pub fn validate(&self) -> (r: Result<(), ConfigError>)
        ensures
            r is Ok <==> provider_settings_valid(self.provider.openai_compatible),
            ({
                let c = self.provider.openai_compatible;
                &&& blank(c.base_url@) ==> (r matches Err(ConfigError::Validation(m)) && m@
                    == blank_base_url_text())
                &&& !blank(c.base_url@) && blank(c.model@) ==> (r matches Err(
                    ConfigError::Validation(m),
                ) && m@ == blank_model_text())
                &&& !blank(c.base_url@) && !blank(c.model@) && (c.temperature matches Some(t)
                    && !temperature_allowed(t.bits)) ==> (r matches Err(ConfigError::Validation(m))
                    && m@ == temperature_out_of_range_text(c.temperature->0))
                &&& !blank(c.base_url@) && !blank(c.model@) && (c.temperature matches Some(t)
                    ==> temperature_allowed(t.bits)) && c.max_tokens == Some(0u64) ==> (r matches Err(
                    ConfigError::Validation(m),
                ) && m@ == zero_max_tokens_text())
            }),
    {
        let c = &self.provider.openai_compatible;
        if is_blank(c.base_url.as_str()) {
            return Err(
                ConfigError::Validation(
                    String::from_str("provider.openai_compatible.base_url must not be empty"),
                ),
            );
        }
        if is_blank(c.model.as_str()) {
            return Err(
                ConfigError::Validation(
                    String::from_str("provider.openai_compatible.model must not be empty"),
                ),
            );
        }
        if let Some(t) = &c.temperature {
            if !t.is_allowed() {
                return Err(
                    ConfigError::Validation(
                        String::from_str(
                            "provider.openai_compatible.temperature is out of range: ",
                        ).concat(t.text.as_str()),
                    ),
                );
            }
        }
        if let Some(max_tokens) = c.max_tokens {
            if max_tokens == 0 {
                return Err(
                    ConfigError::Validation(
                        String::from_str(
                            "provider.openai_compatible.max_tokens must be greater than 0",
                        ),
                    ),
                );
            }
        }
        Ok(())
    }
}

} // verus!
