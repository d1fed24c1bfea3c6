use vstd::prelude::*;
use vstd::string::StringExecFns;
use crate::chat::ChatEntry;
use crate::chat::ChatError;
use crate::chat::ChatMessage;
use crate::decoder::DecoderModel;
use crate::decoder::StreamDecoder;
use crate::decoder::feed;
use crate::decoder::init_decoder;
use crate::decoder::recs_model;
use crate::text::contains_seq;
use crate::text::contains_str;
use crate::text::dec_str;
use crate::text::usize_to_dec;
use crate::wire::RecModel;
use crate::wire::delta_content;
use crate::wire::rec_done;

verus! {

/// The text all deltas of a record run contribute, in order.
pub open spec fn content_of(rs: Seq<RecModel>) -> Seq<char>
    decreases rs.len(),
{
    if rs.len() == 0 {
        Seq::empty()
    } else {
        content_of(rs.drop_last()) + delta_content(rs.last())
    }
}

/// The per-token events a record run raises: one for each non-empty delta.
pub open spec fn events_of(rs: Seq<RecModel>) -> Seq<Seq<char>>
    decreases rs.len(),
{
    if rs.len() == 0 {
        Seq::empty()
    } else if delta_content(rs.last()).len() > 0 {
        events_of(rs.drop_last()).push(delta_content(rs.last()))
    } else {
        events_of(rs.drop_last())
    }
}

/// Whether some record of the run is marked final.
pub open spec fn any_done(rs: Seq<RecModel>) -> bool
    decreases rs.len(),
{
    if rs.len() == 0 {
        false
    } else {
        any_done(rs.drop_last()) || rec_done(rs.last())
    }
}

/// The views of a vector of event strings.
pub open spec fn str_views(v: Seq<String>) -> Seq<Seq<char>> {
    v.map_values(|s: String| s@)
}

proof fn lemma_any_done_concat(a: Seq<RecModel>, b: Seq<RecModel>)
    ensures
        any_done(a + b) == (any_done(a) || any_done(b)),
    decreases b.len(),
{
    if b.len() == 0 {
        assert(a + b =~= a);
    } else {
        assert((a + b).drop_last() =~= a + b.drop_last());
        assert((a + b).last() == b.last());
        lemma_any_done_concat(a, b.drop_last());
    }
}

/// The decoder's verdict is exactly the record run's: it has seen a final
/// record just when one was emitted.
pub proof fn lemma_feed_done(s: DecoderModel, t: Seq<char>)
    ensures
        feed(s, t).0.done == (s.done || any_done(feed(s, t).1)),
    decreases t.len(),
{
    if t.len() == 0 {
    } else {
        let head = crate::decoder::feed_char(s, t.first());
        lemma_feed_done(head.0, t.drop_first());
        lemma_any_done_concat(head.1, feed(head.0, t.drop_first()).1);
        if !s.done && t.first() == '\n' {
            let rs = crate::decoder::line_records(s.buf);
            if rs.len() > 0 {
                assert(rs =~= seq![rs[0]]);
                assert(rs.drop_last() =~= Seq::<RecModel>::empty());
                assert(!any_done(Seq::<RecModel>::empty()));
                assert(rs.last() == rs[0]);
                assert(any_done(rs) == rec_done(rs[0]));
            }
        }
    }
}

proof fn lemma_content_of_push(rs: Seq<RecModel>, r: RecModel)
    ensures
        content_of(rs.push(r)) == content_of(rs) + delta_content(r),
        any_done(rs.push(r)) == (any_done(rs) || rec_done(r)),
        events_of(rs.push(r)) == (if delta_content(r).len() > 0 {
            events_of(rs).push(delta_content(r))
        } else {
            events_of(rs)
        }),
{
    assert(rs.push(r).drop_last() =~= rs);
    assert(rs.push(r).last() == r);
}

/// The ghost state of one running exchange.
#[verifier::ext_equal]
pub struct ExchangeModel {
    pub dec: DecoderModel,
    pub content: Seq<char>,
    pub finished: bool,
}

/// One chat exchange in flight: decodes the response body chunk by chunk,
/// raises one event per token, and accumulates the assistant text.
pub struct Exchange {
    dec: StreamDecoder,
    content: String,
    finished: bool,
}

impl View for Exchange {
    type V = ExchangeModel;

    closed spec fn view(&self) -> ExchangeModel {
        ExchangeModel { dec: self.dec@, content: self.content@, finished: self.finished }
    }
}

impl Exchange {
    /// The exchange never outlives its decoder's verdict.
    pub open spec fn wf(&self) -> bool {
        self@.finished == self@.dec.done
    }

    pub fn new() -> (ex: Exchange)
        ensures
            ex@.dec == init_decoder(),
            ex@.content == Seq::<char>::empty(),
            ex@.finished == false,
            ex.wf(),
    {
        Exchange { dec: StreamDecoder::new(), content: String::new(), finished: false }
    }

    /// Whether a final record has arrived and the exchange is complete.
    pub fn is_finished(&self) -> (b: bool)
        ensures
            b == self@.finished,
    {
        self.finished
    }

    /// Feed one chunk of the response body. Returns the events its records
    /// raise, in server order; their text is also appended to the pending
    /// content.
    pub fn push_chunk(&mut self, chunk: &str) -> (events: Vec<String>)
        requires
            old(self).wf(),
        ensures
            final(self).wf(),
            final(self)@.dec == feed(old(self)@.dec, chunk@).0,
            final(self)@.content == old(self)@.content + content_of(
                feed(old(self)@.dec, chunk@).1,
            ),
            final(self)@.finished == (old(self)@.finished || any_done(
                feed(old(self)@.dec, chunk@).1,
            )),
            str_views(events@) == events_of(feed(old(self)@.dec, chunk@).1),
    {
        let ghost c0 = self@.content;
        let ghost f0 = self@.finished;
        let recs = self.dec.push_chunk(chunk);
        let ghost rs = recs_model(recs@);
        let mut events: Vec<String> = Vec::new();
        let mut j: usize = 0;
        proof {
            assert(rs.take(0) =~= Seq::<RecModel>::empty());
        }
        while j < recs.len()
            invariant
                j <= recs@.len(),
                rs == recs_model(recs@),
                self@.dec == feed(old(self)@.dec, chunk@).0,
                rs == feed(old(self)@.dec, chunk@).1,
                self@.content == c0 + content_of(rs.take(j as int)),
                self@.finished == (f0 || any_done(rs.take(j as int))),
                str_views(events@) == events_of(rs.take(j as int)),
            decreases recs@.len() - j,
        {
            proof {
                assert(rs.take(j as int).push(rs[j as int]) =~= rs.take(j + 1));
                lemma_content_of_push(rs.take(j as int), rs[j as int]);
            }
            let r = &recs[j];
            match &r.message {
                Some(m) => {
                    self.content.append(m.content.as_str());
                    if !m.content.as_str().is_empty() {
                        let ghost old_events = events@;
                        events.push(m.content.clone());
                        proof {
                            assert(str_views(events@) =~= str_views(old_events).push(m.content@));
                        }
                    }
                },
                None => {
                    proof {
                        assert(self@.content =~= c0 + content_of(rs.take(j + 1)));
                    }
                },
            }
            if r.done {
                self.finished = true;
            }
            j = j + 1;
        }
        proof {
            assert(rs.take(recs@.len() as int) =~= rs);
            lemma_feed_done(old(self)@.dec, chunk@);
        }
        events
    }

    /// Resolve the exchange once the response body has ended. A buffered
    /// last line is decoded as if newline-terminated, and any events it
    /// raises come back too. With a final record seen, the result is the
    /// assistant message built from all accumulated deltas — empty content
    /// included; without one, the stream broke early and the result is a
    /// transport error, never a silent success.
    pub fn finish(self) -> (r: (Vec<String>, Result<ChatMessage, ChatError>))
        requires
            self.wf(),
        ensures
            ({
                let flush = feed(self@.dec, seq!['\n']);
                let complete = self@.finished || any_done(flush.1);
                let full = self@.content + content_of(flush.1);
                &&& str_views(r.0@) == events_of(flush.1)
                &&& complete ==> (r.1 matches Ok(m) && m.role@ == "assistant"@ && m.content@
                    == full)
                &&& !complete ==> (r.1 matches Err(e) && e matches ChatError::Transport(d) && d@
                    == "response ended before a final record"@)
            }),
    {
        let mut ex = self;
        let events = ex.push_chunk("\n");
        proof {
            reveal_strlit("\n");
            assert("\n"@ =~= seq!['\n']);
        }
        if ex.finished {
            let msg = ChatMessage { role: "assistant".to_owned(), content: ex.content };
            (events, Ok(msg))
        } else {
            let detail = "response ended before a final record".to_owned();
            (events, Err(ChatError::Transport(detail)))
        }
    }
}

/// The views of an outgoing message list, (role, content) pair by pair.
pub open spec fn msgs_model(v: Seq<ChatMessage>) -> Seq<(Seq<char>, Seq<char>)> {
    v.map_values(|m: ChatMessage| (m.role@, m.content@))
}

/// The views of the conversation history, (role, content) pair by pair.
pub open spec fn entries_model(v: Seq<ChatEntry>) -> Seq<(Seq<char>, Seq<char>)> {
    v.map_values(|e: ChatEntry| (e.role@, e.content@))
}

/// The message the configured system prompt contributes, if any.
pub open spec fn system_prefix(prompt: Option<Seq<char>>) -> Seq<(Seq<char>, Seq<char>)> {
    match prompt {
        Some(p) => seq![("system"@, p)],
        None => Seq::empty(),
    }
}

/// The view of an optional text.
pub open spec fn opt_text(o: Option<String>) -> Option<Seq<char>> {
    match o {
        Some(s) => Some(s@),
        None => None,
    }
}

/// The outgoing message list of one exchange: the system prompt when one is
/// configured, then the conversation history in order — which ends with the
/// just-appended user turn.
pub fn build_messages(system_prompt: &Option<String>, history: &Vec<ChatEntry>) -> (msgs: Vec<
    ChatMessage,
>)
    ensures
        msgs_model(msgs@) == system_prefix(opt_text(*system_prompt)) + entries_model(history@),
        msgs@.len() == history@.len() + (if system_prompt is Some {
            1int
        } else {
            0int
        }),
{
    let ghost prefix = system_prefix(opt_text(*system_prompt));
    let mut msgs: Vec<ChatMessage> = Vec::new();
    match system_prompt {
        Some(p) => {
            msgs.push(ChatMessage { role: "system".to_owned(), content: p.clone() });
            proof {
                assert(msgs_model(msgs@) =~= prefix);
            }
        },
        None => {
            proof {
                assert(msgs_model(msgs@) =~= prefix);
            }
        },
    }
    let mut k: usize = 0;
    proof {
        assert(entries_model(history@.take(0)) =~= Seq::<(Seq<char>, Seq<char>)>::empty());
        assert(msgs_model(msgs@) =~= prefix + entries_model(history@.take(0)));
    }
    while k < history.len()
        invariant
            k <= history@.len(),
            msgs@.len() == k + (if system_prompt is Some {
                1int
            } else {
                0int
            }),
            prefix == system_prefix(opt_text(*system_prompt)),
            msgs_model(msgs@) == prefix + entries_model(history@.take(k as int)),
        decreases history@.len() - k,
    {
        let e = &history[k];
        let ghost old_msgs = msgs@;
        msgs.push(ChatMessage { role: e.role.clone(), content: e.content.clone() });
        proof {
            assert(history@.take(k as int).push(history@[k as int]) =~= history@.take(k + 1));
            assert(entries_model(history@.take(k + 1)) =~= entries_model(history@.take(k as int))
                .push((e.role@, e.content@)));
            assert(msgs_model(msgs@) =~= msgs_model(old_msgs).push((e.role@, e.content@)));
            assert(msgs_model(msgs@) =~= prefix + entries_model(history@.take(k + 1)));
        }
        k = k + 1;
    }
    proof {
        assert(history@.take(history@.len() as int) =~= history@);
    }
    msgs
}

/// Sort a failing chat response into the error taxonomy: a body that speaks
/// of a missing model names the model the caller asked for; anything else
/// carries the status and the body text.
pub fn classify_http_failure(status: u16, body: &str, model: &str) -> (e: ChatError)
    ensures
        (contains_seq(body@, "model"@) && contains_seq(body@, "not found"@)) ==> (e
            matches ChatError::ModelNotFound(m) && m@ == model@),
        !(contains_seq(body@, "model"@) && contains_seq(body@, "not found"@)) ==> (e
            matches ChatError::Transport(d) && d@ == "HTTP "@ + dec_str(status as nat) + ": "@
            + body@),
{
    if contains_str(body, "model") && contains_str(body, "not found") {
        ChatError::ModelNotFound(model.to_owned())
    } else {
        let mut d = "HTTP ".to_owned();
        let num = usize_to_dec(status as usize);
        d.append(num.as_str());
        d.append(": ");
        d.append(body);
        ChatError::Transport(d)
    }
}

} // verus!
