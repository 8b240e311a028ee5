//! Consuming a streaming completion response.
//!
//! The transport hands back a lazy sequence of chunks, each carrying the
//! texts of zero or more parallel choices, and possibly per-chunk errors.
//! The deliverable of a completion exchange is the ordered sequence of those
//! fragments, never a batched final value. A per-chunk error is surfaced but
//! does not stop later chunks from being consumed.

use vstd::prelude::*;
use crate::codec::string_views;
use crate::errors::ChatError;
use crate::transport;
use async_openai::error::OpenAIError;
use async_openai::types::completions::CreateCompletionResponse;

verus! {

/// One event of a completion stream, reduced to plain values: either the
/// candidate texts of one chunk, or a per-chunk transport fault.
pub enum StreamEvent {
    /// The texts of the choices of one chunk, in the order they arrived.
    Fragments(Vec<String>),
    /// One chunk reported an error; the stream itself continues.
    TransportFault(String),
}

/// What consuming a whole stream delivers.
pub struct StreamOutcome {
    /// Every fragment of every successful chunk, in arrival order.
    pub fragments: Vec<String>,
    /// The message of every per-chunk fault, in arrival order. Faults are
    /// reported, never silently dropped.
    pub faults: Vec<String>,
}

/// The fragments one event contributes.
pub open spec fn event_fragments(e: StreamEvent) -> Seq<Seq<char>> {
    match e {
        StreamEvent::Fragments(v) => string_views(v@),
        StreamEvent::TransportFault(_) => Seq::empty(),
    }
}

/// The fault messages one event contributes.
pub open spec fn event_faults(e: StreamEvent) -> Seq<Seq<char>> {
    match e {
        StreamEvent::Fragments(_) => Seq::empty(),
        StreamEvent::TransportFault(m) => seq![m@],
    }
}

/// All fragments a sequence of stream events delivers, in order.
pub open spec fn spec_fragments(events: Seq<StreamEvent>) -> Seq<Seq<char>>
    decreases events.len(),
{
    if events.len() == 0 {
        Seq::empty()
    } else {
        event_fragments(events[0]) + spec_fragments(events.drop_first())
    }
}

/// All fault messages a sequence of stream events reports, in order.
pub open spec fn spec_faults(events: Seq<StreamEvent>) -> Seq<Seq<char>>
    decreases events.len(),
{
    if events.len() == 0 {
        Seq::empty()
    } else {
        event_faults(events[0]) + spec_faults(events.drop_first())
    }
}

proof fn lemma_fragments_concat(a: Seq<StreamEvent>, b: Seq<StreamEvent>)
    ensures
        spec_fragments(a + b) == spec_fragments(a) + spec_fragments(b),
        spec_faults(a + b) == spec_faults(a) + spec_faults(b),
    decreases a.len(),
{
    if a.len() == 0 {
        assert(a + b =~= b);
        assert(spec_fragments(a) =~= Seq::<Seq<char>>::empty());
        assert(spec_faults(a) =~= Seq::<Seq<char>>::empty());
        assert(spec_fragments(a + b) =~= spec_fragments(a) + spec_fragments(b));
        assert(spec_faults(a + b) =~= spec_faults(a) + spec_faults(b));
    } else {
        assert((a + b)[0] == a[0]);
        assert((a + b).drop_first() =~= a.drop_first() + b);
        lemma_fragments_concat(a.drop_first(), b);
        assert(spec_fragments(a + b) =~= spec_fragments(a) + spec_fragments(b));
        assert(spec_faults(a + b) =~= spec_faults(a) + spec_faults(b));
    }
}

/// A transport fault in the middle of a stream stops no later fragment: the
/// delivered fragments are exactly those of the surrounding events, and the
/// fault itself is reported in place, not dropped.
pub proof fn lemma_fault_does_not_stop_stream(
    before: Seq<StreamEvent>,
    message: String,
    after: Seq<StreamEvent>,
)
    ensures
        spec_fragments(before + seq![StreamEvent::TransportFault(message)] + after)
            == spec_fragments(before) + spec_fragments(after),
        spec_faults(before + seq![StreamEvent::TransportFault(message)] + after)
            == spec_faults(before) + seq![message@] + spec_faults(after),
{
    let mid = seq![StreamEvent::TransportFault(message)];
    assert(mid.drop_first() =~= Seq::<StreamEvent>::empty());
    assert(spec_fragments(Seq::<StreamEvent>::empty()) == Seq::<Seq<char>>::empty());
    assert(spec_faults(Seq::<StreamEvent>::empty()) == Seq::<Seq<char>>::empty());
    assert(spec_fragments(mid) =~= Seq::<Seq<char>>::empty());
    assert(spec_faults(mid) =~= seq![message@]);
    lemma_fragments_concat(before, mid);
    lemma_fragments_concat(before + mid, after);
    assert(spec_fragments(before + mid + after) =~= spec_fragments(before) + spec_fragments(
        after,
    ));
    assert(spec_faults(before + mid + after) =~= spec_faults(before) + seq![message@]
        + spec_faults(after));
}

/// Abandoning a stream after its first `n` events delivers exactly the
/// fragments of those events: a prefix of what the full stream would have
/// delivered, and nothing more.
pub proof fn lemma_cancellation_delivers_prefix(events: Seq<StreamEvent>, n: int)
    requires
        0 <= n <= events.len(),
    ensures
        spec_fragments(events) == spec_fragments(events.take(n)) + spec_fragments(events.skip(n)),
        spec_fragments(events.take(n)).is_prefix_of(spec_fragments(events)),
{
    assert(events.take(n) + events.skip(n) =~= events);
    lemma_fragments_concat(events.take(n), events.skip(n));
    let a = spec_fragments(events.take(n));
    let b = spec_fragments(events.skip(n));
    assert((a + b).take(a.len() as int) =~= a);
}

proof fn lemma_stream_push(events: Seq<StreamEvent>, e: StreamEvent)
    ensures
        spec_fragments(events.push(e)) == spec_fragments(events) + event_fragments(e),
        spec_faults(events.push(e)) == spec_faults(events) + event_faults(e),
{
    assert(events.push(e) =~= events + seq![e]);
    lemma_fragments_concat(events, seq![e]);
    assert(seq![e].drop_first() =~= Seq::<StreamEvent>::empty());
    assert(spec_fragments(Seq::<StreamEvent>::empty()) == Seq::<Seq<char>>::empty());
    assert(spec_faults(Seq::<StreamEvent>::empty()) == Seq::<Seq<char>>::empty());
    assert(spec_fragments(seq![e]) =~= event_fragments(e));
    assert(spec_faults(seq![e]) =~= event_faults(e));
}

/// Classifies one item of the transport stream. A successful chunk becomes
/// exactly its candidate texts, in order; an erroneous one becomes a
/// reported fault carrying the error's text, and consumption of the stream
/// goes on with the next item either way.
pub fn process_stream_item(item: Result<CreateCompletionResponse, OpenAIError>) -> (ev: StreamEvent)
    ensures
        item is Ok <==> ev is Fragments,
        item is Err <==> ev is TransportFault,
        item matches Ok(resp) ==> (ev matches StreamEvent::Fragments(v) && string_views(v@)
            == transport::texts_of(resp)),
        item matches Err(e) ==> (ev matches StreamEvent::TransportFault(m) && m@
            == transport::error_text_of(e)),
{
    match item {
        Ok(response) => StreamEvent::Fragments(transport::chunk_texts(&response)),
        Err(error) => StreamEvent::TransportFault(transport::openai_error_text(&error)),
    }
}

/// Folds a finished stream into its outcome: every fragment of every
/// successful chunk and every fault message, each in arrival order.
pub fn collect_output(events: &Vec<StreamEvent>) -> (out: StreamOutcome)
    ensures
        string_views(out.fragments@) == spec_fragments(events@),
        string_views(out.faults@) == spec_faults(events@),
{
    let mut fragments: Vec<String> = Vec::new();
    let mut faults: Vec<String> = Vec::new();
    proof {
        assert(string_views(fragments@) =~= spec_fragments(events@.take(0)));
        assert(string_views(faults@) =~= spec_faults(events@.take(0)));
    }
    let mut i: usize = 0;
    while i < events.len()
        invariant
            i <= events.len(),
            string_views(fragments@) == spec_fragments(events@.take(i as int)),
            string_views(faults@) == spec_faults(events@.take(i as int)),
        decreases events.len() - i,
    {
        proof {
            lemma_stream_push(events@.take(i as int), events@[i as int]);
            assert(events@.take(i as int + 1) =~= events@.take(i as int).push(events@[i as int]));
        }
        match &events[i] {
            StreamEvent::Fragments(texts) => {
                let ghost frag_before = fragments@;
                let mut j: usize = 0;
                proof {
                    assert(string_views(texts@.take(0)) =~= Seq::<Seq<char>>::empty());
                    assert(string_views(frag_before) + string_views(texts@.take(0))
                        =~= string_views(frag_before));
                }
                while j < texts.len()
                    invariant
                        j <= texts.len(),
                        string_views(fragments@) == string_views(frag_before) + string_views(
                            texts@.take(j as int),
                        ),
                    decreases texts.len() - j,
                {
                    let ghost frag_prev = fragments@;
                    fragments.push(texts[j].clone());
                    proof {
                        assert(string_views(fragments@) =~= string_views(frag_prev).push(
                            texts@[j as int]@,
                        ));
                        assert(texts@.take(j as int + 1) =~= texts@.take(j as int).push(
                            texts@[j as int],
                        ));
                        assert(string_views(texts@.take(j as int + 1)) =~= string_views(
                            texts@.take(j as int),
                        ).push(texts@[j as int]@));
                        assert(string_views(fragments@) =~= string_views(frag_before)
                            + string_views(texts@.take(j as int + 1)));
                    }
                    j = j + 1;
                }
                proof {
                    assert(texts@.take(texts@.len() as int) =~= texts@);
                    assert(string_views(fragments@) =~= spec_fragments(events@.take(i as int + 1)));
                    assert(string_views(faults@) =~= spec_faults(events@.take(i as int + 1)));
                }
            },
            StreamEvent::TransportFault(message) => {
                let ghost faults_before = faults@;
                faults.push(message.clone());
                proof {
                    assert(string_views(faults@) =~= string_views(faults_before).push(message@));
                    assert(string_views(fragments@) =~= spec_fragments(events@.take(i as int + 1)));
                    assert(string_views(faults@) =~= spec_faults(events@.take(i as int + 1)));
                }
            },
        }
        i = i + 1;
    }
    proof {
        assert(events@.take(events@.len() as int) =~= events@);
    }
    StreamOutcome { fragments, faults }
}

/// Turns the way the stream ended into the result of the exchange: `Ok` when
/// the stream was exhausted normally, a `StreamTerminationError` carrying the
/// reported reason when it ended abnormally.
pub fn finish_stream(termination: Option<String>) -> (r: Result<(), ChatError>)
    ensures
        termination is None <==> r is Ok,
        termination matches Some(m) ==> (r matches Err(e) && e matches
            ChatError::StreamTerminationError(mm) && mm == m),
{
    match termination {
        None => Ok(()),
        Some(message) => Err(ChatError::StreamTerminationError(message)),
    }
}

} // verus!
