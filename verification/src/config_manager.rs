//! The application's configuration value and the pure rules over it:
//! provider-dependent URL and key selection, and the key check performed
//! when a configuration is loaded. Reading configuration files and the
//! environment happens at the process edge, which fills this struct and
//! hands it in.

use vstd::prelude::*;

use crate::error::{config_err, AppError};
use crate::text::{dec_digits, string_of, to_dec_chars};

verus! {

/// The supported completion providers.
#[derive(Debug, Clone, Copy, PartialEq, Eq, Structural)]
pub enum Provider {
    OpenAI,
    OpenRouter,
}

impl Default for Provider {
    /// The provider assumed when none is configured.
    fn default() -> (p: Provider)
        ensures
            p == Provider::OpenAI,
    {
        Provider::OpenAI
    }
}

/// Configuration of the terminal client.
#[derive(Debug, Clone)]
pub struct Config {
    /// Provider to use.
    pub provider: Provider,
    /// Model for completions through OpenRouter.
    pub openrouter_model: String,
    /// Model for completions through OpenAI.
    pub openai_model: String,
    /// Maximum number of tokens in a completion.
    pub max_tokens: usize,
    /// OpenRouter API key.
    pub openrouter_api_key: String,
    /// OpenRouter base URL.
    pub openrouter_base_url: String,
    /// OpenAI API key.
    pub openai_api_key: String,
    /// Full OpenAI completions endpoint URL.
    pub openai_api_url: String,
    /// Whether personalization is enabled.
    pub enable_personalization: bool,
    /// Whether input-line history is persisted.
    pub store_history: bool,
    /// Path of the history file.
    pub history_file: String,
    /// Log level name.
    pub log_level: String,
}

/// The display rendering of a configuration: one labeled line per
/// setting, the provider's API key shown only as present or absent, and
/// the connection settings of the selected provider alone.
pub open spec fn describe_text(c: Config) -> Seq<char> {
    "Provider: "@ + (match c.provider {
        Provider::OpenAI => "OpenAI"@,
        Provider::OpenRouter => "OpenRouter"@,
    }) + "\n"@ + "Model: "@ + (match c.provider {
        Provider::OpenAI => c.openai_model@,
        Provider::OpenRouter => c.openrouter_model@,
    }) + "\n"@ + "Max Tokens: "@ + dec_digits(c.max_tokens as nat) + "\n"@ + (match c.provider {
        Provider::OpenAI => "API URL: "@ + c.openai_api_url@ + "\n"@ + "OpenAI API Key: "@ + (
        if c.openai_api_key@.len() == 0 {
            "Not set"@
        } else {
            "[REDACTED]"@
        }) + "\n"@,
        Provider::OpenRouter => "API URL: "@ + c.openrouter_base_url@ + "/chat/completions"@
            + "\n"@ + "OpenRouter Site URL: "@ + "example.com"@ + "\n"@
            + "OpenRouter Site Name: "@ + "CommanderChris"@ + "\n"@ + "OpenRouter API Key: "@ + (
        if c.openrouter_api_key@.len() == 0 {
            "Not set"@
        } else {
            "[REDACTED]"@
        }) + "\n"@,
    }) + "Personalization: "@ + (if c.enable_personalization {
        "Enabled"@
    } else {
        "Disabled"@
    }) + "\n"@ + "History Storage: "@ + (if c.store_history {
        "Enabled"@
    } else {
        "Disabled"@
    }) + "\n"@ + "History File: \""@ + c.history_file@ + "\"\n"@ + "Log Level: "@
        + c.log_level@ + "\n"@
}

impl Default for Config {
    /// The built-in defaults: OpenRouter with its free default model. API
    /// keys start empty; the process edge fills them from the environment
    /// or a configuration file before the configuration is validated.
    fn default() -> (c: Config)
        ensures
            c.provider == Provider::OpenRouter,
            c.openrouter_model@ == "deepseek/deepseek-r1:free"@,
            c.openai_model@ == "gpt-3.5-turbo"@,
            c.max_tokens == 1000,
            c.openrouter_api_key@ == Seq::<char>::empty(),
            c.openrouter_base_url@ == "https://openrouter.ai/api/v1"@,
            c.openai_api_key@ == Seq::<char>::empty(),
            c.openai_api_url@ == "https://api.openai.com/v1/chat/completions"@,
            c.enable_personalization,
            c.store_history,
            c.history_file@ == ".chris/history"@,
            c.log_level@ == "info"@,
    {
        Config {
            provider: Provider::OpenRouter,
            openrouter_model: "deepseek/deepseek-r1:free".to_owned(),
            openai_model: "gpt-3.5-turbo".to_owned(),
            max_tokens: 1000,
            openrouter_api_key: String::new(),
            openrouter_base_url: "https://openrouter.ai/api/v1".to_owned(),
            openai_api_key: String::new(),
            openai_api_url: "https://api.openai.com/v1/chat/completions".to_owned(),
            enable_personalization: true,
            store_history: true,
            history_file: ".chris/history".to_owned(),
            log_level: "info".to_owned(),
        }
    }
}

impl Config {
    /// The completions URL for the selected provider: OpenAI's URL is
    /// configured in full, OpenRouter's is its base URL with the
    /// completions path appended.
    pub fn get_api_url(&self) -> (r: String)
        ensures
            self.provider == Provider::OpenAI ==> r@ == self.openai_api_url@,
            self.provider == Provider::OpenRouter ==> r@ == self.openrouter_base_url@
                + "/chat/completions"@,
    {
        match self.provider {
            Provider::OpenAI => self.openai_api_url.clone(),
            Provider::OpenRouter => self.openrouter_base_url.clone().concat("/chat/completions"),
        }
    }

    /// The API key for the selected provider.
    pub fn get_api_key(&self) -> (r: String)
        ensures
            self.provider == Provider::OpenAI ==> r@ == self.openai_api_key@,
            self.provider == Provider::OpenRouter ==> r@ == self.openrouter_api_key@,
    {
        match self.provider {
            Provider::OpenAI => self.openai_api_key.clone(),
            Provider::OpenRouter => self.openrouter_api_key.clone(),
        }
    }

    /// The fixed site URL sent to OpenRouter.
    pub fn get_site_url(&self) -> (r: String)
        ensures
            r@ == "example.com"@,
    {
        "example.com".to_owned()
    }

    /// The fixed site name sent to OpenRouter.
    pub fn get_site_name(&self) -> (r: String)
        ensures
            r@ == "CommanderChris"@,
    {
        "CommanderChris".to_owned()
    }

    /// Changes the model of the selected provider, leaving everything
    /// else as it was.
    pub fn set_model(&mut self, model: String)
        ensures
            old(self).provider == Provider::OpenAI ==> *final(self) == (Config {
                openai_model: model,
                ..*old(self)
            }),
            old(self).provider == Provider::OpenRouter ==> *final(self) == (Config {
                openrouter_model: model,
                ..*old(self)
            }),
    {
        match self.provider {
            Provider::OpenAI => {
                self.openai_model = model;
            },
            Provider::OpenRouter => {
                self.openrouter_model = model;
            },
        }
    }

    /// Renders the configuration for display, with the provider's API key
    /// redacted and only provider-relevant connection settings shown.
    #[verifier::rlimit(100)]
    pub fn describe(&self) -> (r: String)
        ensures
            r@ == describe_text(*self),
    {
        let mut out = String::new();
        out.append("Provider: ");
        match self.provider {
            Provider::OpenAI => out.append("OpenAI"),
            Provider::OpenRouter => out.append("OpenRouter"),
        }
        out.append("\n");
        out.append("Model: ");
        match self.provider {
            Provider::OpenAI => out.append(self.openai_model.as_str()),
            Provider::OpenRouter => out.append(self.openrouter_model.as_str()),
        }
        out.append("\n");
        out.append("Max Tokens: ");
        let tokens = string_of(to_dec_chars(self.max_tokens));
        out.append(tokens.as_str());
        out.append("\n");
        match self.provider {
            Provider::OpenAI => {
                out.append("API URL: ");
                out.append(self.openai_api_url.as_str());
                out.append("\n");
                out.append("OpenAI API Key: ");
                if self.openai_api_key.as_str().is_empty() {
                    out.append("Not set");
                } else {
                    out.append("[REDACTED]");
                }
                out.append("\n");
            },
            Provider::OpenRouter => {
                out.append("API URL: ");
                let url = self.get_api_url();
                out.append(url.as_str());
                out.append("\n");
                out.append("OpenRouter Site URL: ");
                let site_url = self.get_site_url();
                out.append(site_url.as_str());
                out.append("\n");
                out.append("OpenRouter Site Name: ");
                let site_name = self.get_site_name();
                out.append(site_name.as_str());
                out.append("\n");
                out.append("OpenRouter API Key: ");
                if self.openrouter_api_key.as_str().is_empty() {
                    out.append("Not set");
                } else {
                    out.append("[REDACTED]");
                }
                out.append("\n");
            },
        }
        out.append("Personalization: ");
        if self.enable_personalization {
            out.append("Enabled");
        } else {
            out.append("Disabled");
        }
        out.append("\n");
        out.append("History Storage: ");
        if self.store_history {
            out.append("Enabled");
        } else {
            out.append("Disabled");
        }
        out.append("\n");
        out.append("History File: \"");
        out.append(self.history_file.as_str());
        out.append("\"\n");
        out.append("Log Level: ");
        out.append(self.log_level.as_str());
        out.append("\n");
        proof {
            assert(out@ =~= describe_text(*self));
        }
        out
    }

    /// The provider-specific key check performed after loading: a
    /// configuration is accepted iff the selected provider's API key is
    /// non-empty; otherwise the configuration error names the missing key.
    pub fn validate(&self) -> (r: Result<(), AppError>)
        ensures
            self.provider == Provider::OpenAI ==> (r is Ok <==> self.openai_api_key@.len() > 0),
            self.provider == Provider::OpenRouter ==> (r is Ok
                <==> self.openrouter_api_key@.len() > 0),
            self.provider == Provider::OpenAI && self.openai_api_key@.len() == 0 ==> (
            r matches Err(AppError::Config(m)) && m@
                == "OpenAI API key is required. Set it in the config file or use the OPENAI_API_KEY environment variable."@),
            self.provider == Provider::OpenRouter && self.openrouter_api_key@.len() == 0 ==> (
            r matches Err(AppError::Config(m)) && m@
                == "OpenRouter API key is required. Set it in the config file or use the OPENROUTER_API_KEY environment variable."@),
    {
        match self.provider {
            Provider::OpenAI => {
                if self.openai_api_key.as_str().is_empty() {
                    Err(
                        config_err(
                            "OpenAI API key is required. Set it in the config file or use the OPENAI_API_KEY environment variable.",
                        ),
                    )
                } else {
                    Ok(())
                }
            },
            Provider::OpenRouter => {
                if self.openrouter_api_key.as_str().is_empty() {
                    Err(
                        config_err(
                            "OpenRouter API key is required. Set it in the config file or use the OPENROUTER_API_KEY environment variable.",
                        ),
                    )
                } else {
                    Ok(())
                }
            },
        }
    }
}

} // verus!
