//! The settings that the client keeps between runs.

use crate::text::{copy_text, or_empty, text_view};
use vstd::prelude::*;

verus! {

/// The name of the file that holds the settings.
pub const CONFIG_FILENAME: &'static str = "lucius_config.toml";

/// The settings: where the model server is, which model was chosen, and
/// where the broker is.
#[derive(Debug, Clone)]
pub struct Config {
    pub ollama_url: Option<String>,
    pub selected_model: Option<String>,
    pub mcp_redis_host: Option<String>,
}

/// What a [`Config`] stands for.
pub struct ConfigView {
    pub ollama_url: Option<Seq<char>>,
    pub selected_model: Option<Seq<char>>,
    pub mcp_redis_host: Option<Seq<char>>,
}

impl View for Config {
    type V = ConfigView;

    open spec fn view(&self) -> ConfigView {
        ConfigView {
            ollama_url: text_view(self.ollama_url),
            selected_model: text_view(self.selected_model),
            mcp_redis_host: text_view(self.mcp_redis_host),
        }
    }
}

impl Default for Config {
    /// Nothing is set.
    fn default() -> (c: Config)
        ensures
            c@ == (ConfigView { ollama_url: None, selected_model: None, mcp_redis_host: None }),
    {
        Config { ollama_url: None, selected_model: None, mcp_redis_host: None }
    }
}

impl Config {
    /// A copy of the settings.
    pub fn duplicate(&self) -> (c: Config)
        ensures
            c@ == self@,
    {
        Config {
            ollama_url: copy_text(&self.ollama_url),
            selected_model: copy_text(&self.selected_model),
            mcp_redis_host: copy_text(&self.mcp_redis_host),
        }
    }

    /// The address of the model server, or the empty text where none is set.
    pub fn url(&self) -> (url: String)
        ensures
            url@ == or_empty(self@.ollama_url),
    {
        match &self.ollama_url {
            Some(url) => url.clone(),
            None => String::new(),
        }
    }

    /// The chosen model, or the empty text where none is chosen.
    pub fn model(&self) -> (model: String)
        ensures
            model@ == or_empty(self@.selected_model),
    {
        match &self.selected_model {
            Some(model) => model.clone(),
            None => String::new(),
        }
    }
}

} // verus!
