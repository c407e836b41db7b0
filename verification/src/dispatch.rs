//! The glyph dispatcher: it turns what the user types into completion
//! requests for a llama server.
use vstd::prelude::*;

verus! {

/// How many tokens a completion request asks the server to predict.
pub const PREDICTED_TOKENS: usize = 128;

/// A line that the user typed.
pub struct Cli {
    pub input: String,
}

/// A completion request for a llama server.
pub struct LlamaServerRequest {
    pub prompt: String,
    pub n_predict: usize,
}

/// The dispatcher's settings.
pub struct GlyphDispatch {
    pub system_prompt: String,
    pub target_url: String,
}

impl GlyphDispatch {
    /// A dispatcher for the server at `target_url`, with the default system
    /// prompt.
    pub fn new(target_url: String) -> (dispatch: Self)
        ensures
            dispatch.system_prompt@ == "You are a helpful assistant"@,
            dispatch.target_url == target_url,
    {
        Self { system_prompt: String::from_str("You are a helpful assistant"), target_url }
    }

    /// The request for what the user typed: the line is the prompt, and
    /// `PREDICTED_TOKENS` tokens are asked for.
    pub fn completion_request(&self, input: Cli) -> (request: LlamaServerRequest)
        ensures
            request.prompt == input.input,
            request.n_predict == PREDICTED_TOKENS,
    {
        LlamaServerRequest { prompt: input.input, n_predict: PREDICTED_TOKENS }
    }

    /// Where completion requests go: the target URL with `completion` after it.
    pub fn completion_url(&self) -> (url: String)
        ensures
            url@ == self.target_url@ + "completion"@,
    {
        self.target_url.clone().concat("completion")
    }
}

} // verus!
