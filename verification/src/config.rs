use vstd::prelude::*;

verus! {

/// Application configuration, as read by the surrounding program from the
/// user's config file and handed to the session at construction time.
#[derive(Debug, Clone)]
pub struct Config {
    /// Ollama API URL
    pub ollama_url: String,
    /// Default model to use
    pub default_model: Option<String>,
    /// Default system prompt
    pub system_prompt: Option<String>,
    /// Copy result to clipboard automatically
    pub auto_copy: bool,
    /// Show GPU stats panel
    pub show_gpu_stats: bool,
}

/// The server address used when the config file names none.
pub fn default_ollama_url() -> (url: String)
    ensures
        url@ == "http://127.0.0.1:11434"@,
{
    "http://127.0.0.1:11434".to_owned()
}

/// Whether the GPU panel is shown when the config file does not say.
pub fn default_show_gpu_stats() -> (b: bool)
    ensures
        b == true,
{
    true
}

impl Default for Config {
    fn default() -> (c: Config)
        ensures
            c.ollama_url@ == "http://127.0.0.1:11434"@,
            c.default_model is None,
            c.system_prompt is None,
            c.auto_copy == false,
            c.show_gpu_stats == true,
    {
        Config {
            ollama_url: default_ollama_url(),
            default_model: None,
            system_prompt: None,
            auto_copy: false,
            show_gpu_stats: true,
        }
    }
}

} // verus!
