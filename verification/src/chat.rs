use vstd::prelude::*;
use vstd::string::StringExecFns;

verus! {

/// One message of a conversation, as the chat endpoint takes and returns it.
#[derive(Debug, Clone)]
pub struct ChatMessage {
    pub role: String,
    pub content: String,
}

/// One entry of the on-screen conversation history.
#[derive(Debug, Clone)]
pub struct ChatEntry {
    pub role: String,
    pub content: String,
}

/// A model as the server lists it.
#[derive(Debug, Clone)]
pub struct Model {
    pub name: String,
    pub size: u64,
    pub digest: String,
    pub details: Option<ModelDetails>,
}

#[derive(Debug, Clone)]
pub struct ModelDetails {
    pub parameter_size: Option<String>,
    pub quantization_level: Option<String>,
}

/// One decoded record of the streaming chat response: an optional message
/// delta and the final-record flag.
#[derive(Debug, Clone)]
pub struct ChatResponse {
    pub message: Option<ChatMessage>,
    pub done: bool,
}

/// What can go wrong during one exchange with the server.
#[derive(Debug, Clone)]
pub enum ChatError {
    /// Network failure, or a failing status the server explains in the text.
    Transport(String),
    /// The server at the given address is unreachable or unhealthy.
    NotRunning(String),
    /// The server reports the named model as absent.
    ModelNotFound(String),
}

/// The display text of an error, one line per variant.
pub open spec fn error_text(e: ChatError) -> Seq<char> {
    match e {
        ChatError::Transport(d) => "HTTP error: "@ + d@,
        ChatError::NotRunning(u) => "Ollama not running at "@ + u@,
        ChatError::ModelNotFound(m) => "Model not found: "@ + m@,
    }
}

impl ChatError {
    /// The error as text for the status line.
    pub fn message(&self) -> (s: String)
        ensures
            s@ == error_text(*self),
    {
        match self {
            ChatError::Transport(d) => {
                let mut s = "HTTP error: ".to_owned();
                s.append(d.as_str());
                s
            },
            ChatError::NotRunning(u) => {
                let mut s = "Ollama not running at ".to_owned();
                s.append(u.as_str());
                s
            },
            ChatError::ModelNotFound(m) => {
                let mut s = "Model not found: ".to_owned();
                s.append(m.as_str());
                s
            },
        }
    }
}

/// The names of the listed models, in server-reported order.
pub fn model_names(models: &Vec<Model>) -> (names: Vec<String>)
    ensures
        names@.len() == models@.len(),
        forall|i: int| 0 <= i < models@.len() ==> names@[i]@ == models@[i].name@,
{
    let mut names: Vec<String> = Vec::new();
    let mut k: usize = 0;
    while k < models.len()
        invariant
            k <= models@.len(),
            names@.len() == k,
            forall|i: int| 0 <= i < k ==> names@[i]@ == models@[i].name@,
        decreases models@.len() - k,
    {
        names.push(models[k].name.clone());
        k = k + 1;
    }
    names
}

} // verus!
