use vstd::prelude::*;
use crate::chat::ChatMessage;
use crate::chat::ChatResponse;

verus! {

/// The ghost shape of one decoded record: the optional message delta as a
/// (role, content) pair, and the final-record flag.
pub type RecModel = (Option<(Seq<char>, Seq<char>)>, bool);

/// Whether a record is marked final.
pub open spec fn rec_done(r: RecModel) -> bool {
    r.1
}

/// The delta text a record carries; empty when it carries no message.
pub open spec fn delta_content(r: RecModel) -> Seq<char> {
    match r.0 {
        Some(d) => d.1,
        None => Seq::empty(),
    }
}

pub open spec fn resp_model(r: ChatResponse) -> RecModel {
    (
        match r.message {
            Some(m) => Some((m.role@, m.content@)),
            None => None,
        },
        r.done,
    )
}

pub open spec fn opt_resp_model(r: Option<ChatResponse>) -> Option<RecModel> {
    match r {
        Some(x) => Some(resp_model(x)),
        None => None,
    }
}

/// What the JSON parser makes of one line of the streaming body: nothing
/// when the line is not a record, otherwise the delta and the done flag.
/// The result depends on the line's characters alone.
pub uninterp spec fn record_of_line(line: Seq<char>) -> Option<(Option<(Seq<char>, Seq<char>)>, bool)>;

/// Relies on serde_json::from_str and serde_json::Value's accessors: a line
/// is a record exactly when it is JSON whose "done" field is a boolean and
/// whose optional, possibly null "message" field carries string "role" and
/// "content" fields; unknown fields are ignored. The outcome is a function
/// of the line's characters alone, which `record_of_line` names.
#[verifier::external_body]
pub(crate) fn parse_record_line(line: &str) -> (r: Option<ChatResponse>)
    ensures
        opt_resp_model(r) == record_of_line(line@),
{
    let v: serde_json::Value = serde_json::from_str(line).ok()?;
    let done = v.get("done")?.as_bool()?;
    let message = match v.get("message") {
        Some(m) if !m.is_null() => Some(ChatMessage {
            role: m.get("role")?.as_str()?.to_string(),
            content: m.get("content")?.as_str()?.to_string(),
        }),
        _ => None,
    };
    Some(ChatResponse { message, done })
}

} // verus!
