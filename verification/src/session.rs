use vstd::prelude::*;
use vstd::string::StringExecFns;
use crate::chat::ChatEntry;
use crate::chat::ChatError;
use crate::chat::ChatMessage;
use crate::chat::error_text;
use crate::config::Config;
use crate::exchange::build_messages;
use crate::exchange::entries_model;
use crate::exchange::msgs_model;
use crate::exchange::opt_text;
use crate::exchange::system_prefix;
use crate::text::dec_str;
use crate::text::trim;
use crate::text::trimmed;
use crate::text::usize_to_dec;

verus! {

/// The connection state of the session.
#[derive(Debug, Clone, Copy, PartialEq, Eq, Structural)]
pub enum SessionState {
    Disconnected,
    Connected,
    Generating,
}

/// Whether some listed name reads as `name`.
pub open spec fn contains_name(v: Seq<String>, name: Seq<char>) -> bool {
    exists|i: int| 0 <= i < v.len() && #[trigger] v[i]@ == name
}

/// The views of a list of model names.
pub open spec fn names_model(v: Seq<String>) -> Seq<Seq<char>> {
    v.map_values(|s: String| s@)
}

/// What the selected model becomes after a refresh: the configured default
/// when the listing has it, else the first listed model, else none.
pub open spec fn reconcile_spec(available: Seq<Seq<char>>, configured: Option<Seq<char>>) -> Option<
    Seq<char>,
> {
    if configured matches Some(d) && available.contains(d) {
        Some(configured->0)
    } else if available.len() > 0 {
        Some(available[0])
    } else {
        None
    }
}

fn vec_contains(v: &Vec<String>, name: &String) -> (b: bool)
    ensures
        b == contains_name(v@, name@),
{
    let mut j: usize = 0;
    while j < v.len()
        invariant
            j <= v@.len(),
            forall|i: int| 0 <= i < j ==> #[trigger] v@[i]@ != name@,
        decreases v@.len() - j,
    {
        let candidate: &String = &v[j];
        if candidate.eq(name) {
            return true;
        }
        j = j + 1;
    }
    false
}

/// Derive a valid selection from a fresh listing and a configured default.
pub fn reconcile(available: &Vec<String>, configured_default: &Option<String>) -> (r: Option<
    String,
>)
    ensures
        opt_text(r) == reconcile_spec(names_model(available@), opt_text(*configured_default)),
        r matches Some(m) ==> contains_name(available@, m@),
{
    proof {
        assert(forall|i: int|
            0 <= i < available@.len() ==> #[trigger] names_model(available@)[i]
                == available@[i]@);
    }
    match configured_default {
        Some(d) => {
            if vec_contains(available, d) {
                let ghost w = choose|i: int|
                    0 <= i < available@.len() && #[trigger] available@[i]@ == d@;
                proof {
                    assert(names_model(available@)[w] == d@);
                    assert(names_model(available@).contains(d@));
                }
                return Some(d.clone());
            }
            proof {
                if names_model(available@).contains(d@) {
                    let w = choose|i: int|
                        0 <= i < names_model(available@).len() && #[trigger] names_model(
                            available@,
                        )[i] == d@;
                    assert(available@[w]@ == d@);
                }
            }
        },
        None => {},
    }
    if available.len() > 0 {
        let first = available[0].clone();
        Some(first)
    } else {
        None
    }
}

/// The request an accepted submission asks the transport to issue.
pub struct ChatRequestData {
    pub model: String,
    pub messages: Vec<ChatMessage>,
}

/// The single chat session: connection state, the model registry, the
/// conversation history, and the status line, advanced by the events the
/// surrounding program feeds it.
pub struct Session {
    pub state: SessionState,
    pub status_message: String,
    pub available_models: Vec<String>,
    pub selected_model: Option<String>,
    pub history: Vec<ChatEntry>,
    pub default_model: Option<String>,
    pub system_prompt: Option<String>,
}

impl Session {
    /// The registry invariant: a selected model is one of the available.
    pub open spec fn wf(self) -> bool {
        self.selected_model matches Some(m) ==> contains_name(self.available_models@, m@)
    }

    /// A fresh session, configured but not yet connected.
    pub fn new(config: &Config) -> (s: Session)
        ensures
            s.state == SessionState::Disconnected,
            s.status_message@ == "Connecting to Ollama..."@,
            s.available_models@.len() == 0,
            s.selected_model is None,
            s.history@.len() == 0,
            opt_text(s.default_model) == opt_text(config.default_model),
            opt_text(s.system_prompt) == opt_text(config.system_prompt),
            s.wf(),
    {
        let default_model = match &config.default_model {
            Some(d) => Some(d.clone()),
            None => None,
        };
        let system_prompt = match &config.system_prompt {
            Some(p) => Some(p.clone()),
            None => None,
        };
        Session {
            state: SessionState::Disconnected,
            status_message: "Connecting to Ollama...".to_owned(),
            available_models: Vec::new(),
            selected_model: None,
            history: Vec::new(),
            default_model,
            system_prompt,
        }
    }

    /// Record the health probe's verdict. The session is connected exactly
    /// when the probe succeeded, and a fresh model listing is wanted then.
    pub fn connection_checked(&mut self, ok: bool) -> (load_models: bool)
        ensures
            load_models == ok,
            ok ==> final(self).state == SessionState::Connected && final(self).status_message@
                == "Connected to Ollama"@,
            !ok ==> final(self).state == SessionState::Disconnected && final(self).status_message@ == "Ollama not running"@,
            final(self).available_models == old(self).available_models,
            final(self).selected_model == old(self).selected_model,
            final(self).history == old(self).history,
            final(self).default_model == old(self).default_model,
            final(self).system_prompt == old(self).system_prompt,
            old(self).wf() ==> final(self).wf(),
    {
        if ok {
            self.state = SessionState::Connected;
            self.status_message = "Connected to Ollama".to_owned();
        } else {
            self.state = SessionState::Disconnected;
            self.status_message = "Ollama not running".to_owned();
        }
        ok
    }

    /// Accept or reject a user submission. It is accepted exactly when the
    /// trimmed input is non-empty, no generation is in flight, and a model
    /// is selected; only then does the history grow by the user turn, the
    /// state move to generating, and a request come back, carrying the
    /// system prompt (when configured), the prior history, and the new user
    /// turn, in that order. A rejection changes nothing but, when a model
    /// was missing, the status line.
    pub fn submit(&mut self, input: &str) -> (req: Option<ChatRequestData>)
        ensures
            (req is Some) == (trimmed(input@).len() > 0 && old(self).state
                != SessionState::Generating && old(self).selected_model is Some),
            final(self).available_models == old(self).available_models,
            final(self).selected_model == old(self).selected_model,
            final(self).default_model == old(self).default_model,
            final(self).system_prompt == old(self).system_prompt,
            old(self).wf() ==> final(self).wf(),
            req is None ==> final(self).state == old(self).state && final(self).history == old(self).history,
            req is None ==> final(self).status_message@ == (if trimmed(input@).len() == 0 || old(self).state == SessionState::Generating {
                old(self).status_message@
            } else {
                "No model selected"@
            }),
            req matches Some(r) ==> ({
                &&& final(self).state == SessionState::Generating
                &&& final(self).status_message@ == "Generating..."@
                &&& final(self).history@.len() == old(self).history@.len() + 1
                &&& final(self).history@.take(old(self).history@.len() as int) == old(self).history@
                &&& final(self).history@.last().role@ == "user"@
                &&& final(self).history@.last().content@ == trimmed(input@)
                &&& old(self).selected_model matches Some(m) && r.model@ == m@
                &&& msgs_model(r.messages@) == system_prefix(opt_text(old(self).system_prompt))
                    + entries_model(final(self).history@)
                &&& r.messages@.len() == old(self).history@.len() + 1 + (if old(self).system_prompt is Some {
                    1int
                } else {
                    0int
                })
            }),
    {
        let t = trim(input);
        if t.as_str().is_empty() {
            return None;
        }
        if self.state == SessionState::Generating {
            return None;
        }
        let model = match &self.selected_model {
            Some(m) => m.clone(),
            None => {
                self.status_message = "No model selected".to_owned();
                return None;
            },
        };
        let ghost h0 = self.history@;
        self.history.push(ChatEntry { role: "user".to_owned(), content: t });
        self.state = SessionState::Generating;
        self.status_message = "Generating...".to_owned();
        let messages = build_messages(&self.system_prompt, &self.history);
        proof {
            assert(self.history@.take(h0.len() as int) =~= h0);
        }
        Some(ChatRequestData { model, messages })
    }

    /// Record the resolution of the one in-flight exchange: the session is
    /// connected again; a successful, non-empty assistant message joins the
    /// history, an empty one is discarded, and a failure only colours the
    /// status line.
    pub fn response_complete(&mut self, result: Result<String, ChatError>)
        ensures
            final(self).state == SessionState::Connected,
            final(self).available_models == old(self).available_models,
            final(self).selected_model == old(self).selected_model,
            final(self).default_model == old(self).default_model,
            final(self).system_prompt == old(self).system_prompt,
            old(self).wf() ==> final(self).wf(),
            result matches Ok(content) ==> ({
                &&& content@.len() > 0 ==> ({
                    &&& final(self).history@.len() == old(self).history@.len() + 1
                    &&& final(self).history@.take(old(self).history@.len() as int) == old(
                        self,
                    ).history@
                    &&& final(self).history@.last().role@ == "assistant"@
                    &&& final(self).history@.last().content@ == content@
                })
                &&& content@.len() == 0 ==> final(self).history == old(self).history
                &&& final(self).status_message@ == "Ready"@
            }),
            result matches Err(e) ==> final(self).history == old(self).history && final(self).status_message@ == "Error: "@ + error_text(e),
    {
        self.state = SessionState::Connected;
        match result {
            Ok(content) => {
                let ghost h0 = self.history@;
                if !content.as_str().is_empty() {
                    self.history.push(
                        ChatEntry { role: "assistant".to_owned(), content: content },
                    );
                    proof {
                        assert(self.history@.take(h0.len() as int) =~= h0);
                    }
                }
                self.status_message = "Ready".to_owned();
            },
            Err(e) => {
                let mut s = "Error: ".to_owned();
                let detail = e.message();
                s.append(detail.as_str());
                self.status_message = s;
            },
        }
    }

    /// Take in a fresh model listing, replacing the available set whole. A
    /// still-listed selection is preserved, any other is re-derived from
    /// the configured default and the listing; the status line counts the
    /// models. A failed listing leaves the registry untouched and only
    /// reports.
    pub fn models_loaded(&mut self, result: Result<Vec<String>, String>)
        ensures
            final(self).state == old(self).state,
            final(self).history == old(self).history,
            final(self).default_model == old(self).default_model,
            final(self).system_prompt == old(self).system_prompt,
            result matches Err(msg) ==> ({
                &&& final(self).available_models == old(self).available_models
                &&& final(self).selected_model == old(self).selected_model
                &&& final(self).status_message@ == "Failed to load models: "@ + msg@
                &&& old(self).wf() ==> final(self).wf()
            }),
            result matches Ok(models) ==> ({
                &&& final(self).available_models@ == models@
                &&& (if old(self).selected_model matches Some(m) && contains_name(models@, m@) {
                    final(self).selected_model == old(self).selected_model
                } else {
                    opt_text(final(self).selected_model) == reconcile_spec(
                        names_model(models@),
                        opt_text(old(self).default_model),
                    )
                })
                &&& final(self).status_message@ == (if models@.len() == 0 {
                    "No models found. Run: ollama pull <model>"@
                } else {
                    dec_str(models@.len() as nat) + " models available"@
                })
                &&& final(self).wf()
            }),
    {
        match result {
            Ok(models) => {
                self.available_models = models;
                let keep = match &self.selected_model {
                    Some(m) => vec_contains(&self.available_models, m),
                    None => false,
                };
                if !keep {
                    self.selected_model = reconcile(&self.available_models, &self.default_model);
                }
                if self.available_models.len() == 0 {
                    self.status_message = "No models found. Run: ollama pull <model>".to_owned();
                } else {
                    let mut s = usize_to_dec(self.available_models.len());
                    s.append(" models available");
                    self.status_message = s;
                }
            },
            Err(msg) => {
                let mut s = "Failed to load models: ".to_owned();
                s.append(msg.as_str());
                self.status_message = s;
            },
        }
    }

    /// Change the selection by user action; a name not currently listed is
    /// ignored.
    pub fn select_model(&mut self, name: String)
        ensures
            contains_name(old(self).available_models@, name@) ==> (final(self).selected_model
                matches Some(m) && m@ == name@),
            !contains_name(old(self).available_models@, name@) ==> final(self).selected_model
                == old(self).selected_model,
            final(self).state == old(self).state,
            final(self).status_message == old(self).status_message,
            final(self).available_models == old(self).available_models,
            final(self).history == old(self).history,
            final(self).default_model == old(self).default_model,
            final(self).system_prompt == old(self).system_prompt,
            old(self).wf() ==> final(self).wf(),
    {
        if vec_contains(&self.available_models, &name) {
            self.selected_model = Some(name);
        }
    }

    /// Drop the whole conversation by user action.
    pub fn clear_history(&mut self)
        ensures
            final(self).history@.len() == 0,
            final(self).status_message@ == "Chat cleared"@,
            final(self).state == old(self).state,
            final(self).available_models == old(self).available_models,
            final(self).selected_model == old(self).selected_model,
            final(self).default_model == old(self).default_model,
            final(self).system_prompt == old(self).system_prompt,
            old(self).wf() ==> final(self).wf(),
    {
        self.history = Vec::new();
        self.status_message = "Chat cleared".to_owned();
    }
}

} // verus!
