//! The settings a session is opened with.

use vstd::prelude::*;

use crate::ddg::DDGChatModel;

verus! {

/// The chat service to talk to.
#[derive(Clone, Copy, Debug, PartialEq, Eq, Structural)]
pub enum ModelType {
    Duckduckgo,
}

impl Default for ModelType {
    fn default() -> (r: Self)
        ensures
            r == ModelType::Duckduckgo,
    {
        ModelType::Duckduckgo
    }
}

/// The user's settings.
pub struct Config {
    pub model: ModelType,
    /// The model to ask for; the service's default one when unset.
    pub ddg_chat_model: Option<DDGChatModel>,
}

impl Default for Config {
    fn default() -> (r: Self)
        ensures
            r.model == ModelType::Duckduckgo,
            r.ddg_chat_model is None,
    {
        Config { model: ModelType::default(), ddg_chat_model: None }
    }
}

impl Config {
    /// The model a session is opened with: the one set, else the default one.
    pub fn chat_model(self) -> (r: DDGChatModel)
        ensures
            match self.ddg_chat_model {
                Some(m) => r == m,
                None => r is GPT4oMini,
            },
    {
        match self.ddg_chat_model {
            Some(m) => m,
            None => DDGChatModel::default(),
        }
    }
}

} // verus!
