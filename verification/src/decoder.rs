use vstd::prelude::*;
use vstd::string::StrSliceExecFns;
use vstd::string::StringExecFns;
use crate::chat::ChatResponse;
use crate::text::is_blank;
use crate::text::blank;
use crate::wire::RecModel;
use crate::wire::record_of_line;
use crate::wire::rec_done;
use crate::wire::resp_model;
use crate::wire::parse_record_line;

verus! {

/// The ghost state of the decoder: the held-back partial line and whether a
/// final record has been seen.
#[verifier::ext_equal]
pub struct DecoderModel {
    pub buf: Seq<char>,
    pub done: bool,
}

/// A fresh decoder: nothing buffered, no final record yet.
pub open spec fn init_decoder() -> DecoderModel {
    DecoderModel { buf: Seq::empty(), done: false }
}

/// What one complete line contributes: nothing when it is blank or fails to
/// parse, otherwise its one record.
pub open spec fn line_records(line: Seq<char>) -> Seq<RecModel> {
    if is_blank(line) {
        Seq::empty()
    } else {
        match record_of_line(line) {
            Some(r) => seq![r],
            None => Seq::empty(),
        }
    }
}

/// One character of stream text: a newline completes the buffered line; any
/// other character extends it; after a final record everything is ignored.
pub open spec fn feed_char(s: DecoderModel, c: char) -> (DecoderModel, Seq<RecModel>) {
    if s.done {
        (s, Seq::empty())
    } else if c == '\n' {
        let rs = line_records(s.buf);
        (DecoderModel { buf: Seq::empty(), done: rs.len() > 0 && rec_done(rs[0]) }, rs)
    } else {
        (DecoderModel { buf: s.buf.push(c), done: false }, Seq::empty())
    }
}

/// The decoder run over a stretch of stream text, character by character.
pub open spec fn feed(s: DecoderModel, t: Seq<char>) -> (DecoderModel, Seq<RecModel>)
    decreases t.len(),
{
    if t.len() == 0 {
        (s, Seq::empty())
    } else {
        let head = feed_char(s, t.first());
        let rest = feed(head.0, t.drop_first());
        (rest.0, head.1 + rest.1)
    }
}

/// Feeding text in two pieces is feeding it whole: the decoder ends in the
/// same state and yields the same records. In particular, a line split
/// across two chunks decodes exactly as the same line delivered in one.
pub proof fn lemma_feed_concat(s: DecoderModel, a: Seq<char>, b: Seq<char>)
    ensures
        feed(s, a + b).0 == feed(feed(s, a).0, b).0,
        feed(s, a + b).1 == feed(s, a).1 + feed(feed(s, a).0, b).1,
    decreases a.len(),
{
    if a.len() == 0 {
        assert(a + b =~= b);
        assert(feed(s, a).1 + feed(feed(s, a).0, b).1 =~= feed(s, b).1);
    } else {
        let head = feed_char(s, a.first());
        assert((a + b).first() == a.first());
        assert((a + b).drop_first() =~= a.drop_first() + b);
        lemma_feed_concat(head.0, a.drop_first(), b);
        assert(feed(s, a + b).1 =~= feed(s, a).1 + feed(feed(s, a).0, b).1);
    }
}

/// Feeding a single further character.
pub proof fn lemma_feed_snoc(s: DecoderModel, t: Seq<char>, c: char)
    ensures
        feed(s, t.push(c)).0 == feed_char(feed(s, t).0, c).0,
        feed(s, t.push(c)).1 == feed(s, t).1 + feed_char(feed(s, t).0, c).1,
{
    lemma_feed_concat(s, t, seq![c]);
    assert(t.push(c) =~= t + seq![c]);
    let s1 = feed(s, t).0;
    reveal_with_fuel(feed, 2);
    assert(seq![c].first() == c);
    assert(seq![c].drop_first() =~= Seq::<char>::empty());
    assert(feed(s1, seq![c]).1 =~= feed_char(s1, c).1);
}

/// The stream text joined back together from its chunks.
pub open spec fn concat_chunks(chunks: Seq<Seq<char>>) -> Seq<char>
    decreases chunks.len(),
{
    if chunks.len() == 0 {
        Seq::empty()
    } else {
        chunks.first() + concat_chunks(chunks.drop_first())
    }
}

/// The decoder run over a sequence of chunks, one after the other.
pub open spec fn feed_chunks(s: DecoderModel, chunks: Seq<Seq<char>>) -> (
    DecoderModel,
    Seq<RecModel>,
)
    decreases chunks.len(),
{
    if chunks.len() == 0 {
        (s, Seq::empty())
    } else {
        let head = feed(s, chunks.first());
        let rest = feed_chunks(head.0, chunks.drop_first());
        (rest.0, head.1 + rest.1)
    }
}

/// Chunk boundaries are irrelevant: however the stream text is cut into
/// chunks, the decoder ends in the same state and produces the same records
/// as on the whole text delivered at once.
pub proof fn lemma_chunking_independent(s: DecoderModel, chunks: Seq<Seq<char>>)
    ensures
        feed_chunks(s, chunks).0 == feed(s, concat_chunks(chunks)).0,
        feed_chunks(s, chunks).1 == feed(s, concat_chunks(chunks)).1,
    decreases chunks.len(),
{
    if chunks.len() == 0 {
        assert(feed_chunks(s, chunks).1 =~= feed(s, concat_chunks(chunks)).1);
    } else {
        let head = feed(s, chunks.first());
        lemma_chunking_independent(head.0, chunks.drop_first());
        lemma_feed_concat(s, chunks.first(), concat_chunks(chunks.drop_first()));
        assert(feed_chunks(s, chunks).1 =~= feed(s, concat_chunks(chunks)).1);
    }
}

/// The records a vector of decoded responses stands for.
pub open spec fn recs_model(v: Seq<ChatResponse>) -> Seq<RecModel> {
    v.map_values(|r: ChatResponse| resp_model(r))
}

/// Turns the chunks of the response body into protocol records: text is
/// split on line boundaries, a trailing partial line is held back for the
/// next chunk, blank lines and lines that are no record are dropped, and a
/// final record ends the sequence.
pub struct StreamDecoder {
    buf: String,
    done: bool,
}

impl View for StreamDecoder {
    type V = DecoderModel;

    closed spec fn view(&self) -> DecoderModel {
        DecoderModel { buf: self.buf@, done: self.done }
    }
}

impl StreamDecoder {
    pub fn new() -> (d: StreamDecoder)
        ensures
            d@ == init_decoder(),
    {
        let d = StreamDecoder { buf: String::new(), done: false };
        proof {
            assert(d@ =~= init_decoder());
        }
        d
    }

    /// Whether a final record has been decoded.
    pub fn is_done(&self) -> (b: bool)
        ensures
            b == self@.done,
    {
        self.done
    }

    /// Feed one chunk of response text; the records it completes come back
    /// in order.
    pub fn push_chunk(&mut self, chunk: &str) -> (recs: Vec<ChatResponse>)
        ensures
            final(self)@ == feed(old(self)@, chunk@).0,
            recs_model(recs@) == feed(old(self)@, chunk@).1,
    {
        let ghost s0 = self@;
        let n = chunk.unicode_len();
        let mut recs: Vec<ChatResponse> = Vec::new();
        let mut i: usize = 0;
        while i < n
            invariant
                i <= n,
                n == chunk@.len(),
                self@ == feed(s0, chunk@.take(i as int)).0,
                recs_model(recs@) == feed(s0, chunk@.take(i as int)).1,
            decreases n - i,
        {
            proof {
                lemma_feed_snoc(s0, chunk@.take(i as int), chunk@[i as int]);
                assert(chunk@.take(i as int).push(chunk@[i as int]) =~= chunk@.take(i + 1));
            }
            let ghost mid = feed(s0, chunk@.take(i as int));
            let c = chunk.get_char(i);
            if self.done {
                proof {
                    assert(recs_model(recs@) =~= mid.1 + feed_char(mid.0, c as char).1);
                }
            } else if c == '\n' {
                if !blank(self.buf.as_str()) {
                    match parse_record_line(self.buf.as_str()) {
                        Some(r) => {
                            if r.done {
                                self.done = true;
                            }
                            let ghost old_recs = recs@;
                            recs.push(r);
                            proof {
                                assert(line_records(mid.0.buf) =~= seq![resp_model(r)]);
                                assert(recs_model(recs@) =~= recs_model(old_recs).push(
                                    resp_model(r),
                                ));
                                assert(recs_model(recs@) =~= mid.1 + feed_char(mid.0, c).1);
                            }
                        },
                        None => {
                            proof {
                                assert(line_records(mid.0.buf) =~= Seq::<RecModel>::empty());
                                assert(recs_model(recs@) =~= mid.1 + feed_char(mid.0, c).1);
                            }
                        },
                    }
                } else {
                    proof {
                        assert(line_records(mid.0.buf) =~= Seq::<RecModel>::empty());
                        assert(recs_model(recs@) =~= mid.1 + feed_char(mid.0, c).1);
                    }
                }
                self.buf = String::new();
                proof {
                    assert(self@ =~= feed_char(mid.0, c).0);
                }
            } else {
                let piece = chunk.substring_char(i, i + 1);
                self.buf.append(piece);
                proof {
                    assert(chunk@.subrange(i as int, i + 1) =~= seq![chunk@[i as int]]);
                    assert(self@.buf =~= mid.0.buf.push(c));
                    assert(self@ =~= feed_char(mid.0, c).0);
                    assert(recs_model(recs@) =~= mid.1 + feed_char(mid.0, c).1);
                }
            }
            i = i + 1;
        }
        proof {
            assert(chunk@.take(n as int) =~= chunk@);
        }
        recs
    }
}

} // verus!
