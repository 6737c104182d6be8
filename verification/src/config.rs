//! Configuration and its defaults.

use vstd::prelude::*;
use vstd::string::*;

verus! {

/// The settings of the OpenAI backend.
#[derive(Clone, Debug, PartialEq, Eq)]
pub struct OpenAIConfig {
    pub model: String,
    pub base_url: Option<String>,
}

/// The settings of the reasoning backend.
#[derive(Clone, Debug, PartialEq, Eq)]
pub struct LLMConfig {
    pub default_provider: String,
    pub openai: OpenAIConfig,
}

/// The settings of the executor.
#[derive(Clone, Debug, PartialEq, Eq)]
pub struct ShellConfig {
    pub max_execution_time: u64,
    pub workdir: Option<String>,
}

/// The whole configuration.
#[derive(Clone, Debug, PartialEq, Eq)]
pub struct Config {
    pub llm: LLMConfig,
    pub shell: ShellConfig,
}

impl Config {
    /// Whether this is the default configuration: the OpenAI provider with model `gpt-4`
    /// at its default address, and commands that may run 300 seconds in the current
    /// directory.
    pub open spec fn is_default(&self) -> bool {
        &&& self.llm.default_provider@ == "openai"@
        &&& self.llm.openai.model@ == "gpt-4"@
        &&& self.llm.openai.base_url is None
        &&& self.shell.max_execution_time == 300
        &&& self.shell.workdir is None
    }

    /// Loads the configuration: the defaults.
    pub fn load() -> (r: Result<Config, String>)
        ensures
            r matches Ok(config) && config.is_default(),
    {
        Ok(Config::default())
    }
}

impl Default for Config {
    fn default() -> (r: Config)
        ensures
            r.is_default(),
    {
        Config {
            llm: LLMConfig {
                default_provider: String::from_str("openai"),
                openai: OpenAIConfig { model: String::from_str("gpt-4"), base_url: None },
            },
            shell: ShellConfig { max_execution_time: 300, workdir: None },
        }
    }
}

} // verus!
