use vstd::prelude::*;

verus! {

/// The coordinates of the embedding/completion collaborator. The network
/// calls themselves live outside the library; this type only carries what
/// they need.
pub struct LlmClient {
    pub api_base: String,
    pub api_key: String,
    pub embedding_model: String,
    pub chat_model: String,
}

impl Clone for LlmClient {
    fn clone(&self) -> (r: Self)
        ensures
            r == *self,
    {
        LlmClient {
            api_base: self.api_base.clone(),
            api_key: self.api_key.clone(),
            embedding_model: self.embedding_model.clone(),
            chat_model: self.chat_model.clone(),
        }
    }
}

impl LlmClient {
    pub fn new(
        api_base: String,
        api_key: String,
        embedding_model: String,
        chat_model: String,
    ) -> (r: Self)
        ensures
            r.api_base == api_base,
            r.api_key == api_key,
            r.embedding_model == embedding_model,
            r.chat_model == chat_model,
    {
        LlmClient { api_base, api_key, embedding_model, chat_model }
    }
}

} // verus!
