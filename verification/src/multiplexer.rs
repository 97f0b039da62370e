//! Stream multiplexing: the worker's two output channels are drained as raw
//! byte chunks, decoded permissively, and forwarded as tagged diagnostic
//! events. Decoding never fails, and events on one channel keep the order
//! in which their chunks arrived; no order is promised across the two
//! channels.

use vstd::prelude::*;
use vstd::string::StringExecFns;

verus! {

/// Which of the worker's two output channels a chunk arrived on.
#[derive(Clone, Copy, PartialEq, Eq, Structural, Debug)]
pub enum StreamKind {
    Stdout,
    Stderr,
}

/// A raw chunk as read from one channel.
pub struct Chunk {
    pub stream: StreamKind,
    pub bytes: Vec<u8>,
}

/// A decoded diagnostic event, tagged by its origin channel.
pub struct LogEvent {
    pub stream: StreamKind,
    pub text: String,
}

/// What std's lossy UTF-8 decoding returns for a byte sequence.
pub uninterp spec fn lossy_decoded(bytes: Seq<u8>) -> Seq<char>;

/// Relies on String::from_utf8_lossy: decodes permissively, substituting
/// the replacement character for invalid sequences, so decoding never
/// fails; the result depends on the bytes alone.
#[verifier::external_body]
fn decode_lossy(bytes: &Vec<u8>) -> (text: String)
    ensures
        text@ == lossy_decoded(bytes@),
{
    String::from_utf8_lossy(bytes.as_slice()).into_owned()
}

/// Whether `e` is the event the multiplexer forwards for a chunk of these
/// bytes on this channel.
pub open spec fn event_for(stream: StreamKind, bytes: Seq<u8>, e: LogEvent) -> bool {
    &&& e.stream == stream
    &&& e.text@ == lossy_decoded(bytes)
}

/// Turns one chunk into its tagged, decoded event. Total: every chunk,
/// whatever its bytes hold, yields an event — this stage cannot fail.
pub fn decode_chunk(stream: StreamKind, bytes: &Vec<u8>) -> (e: LogEvent)
    ensures
        event_for(stream, bytes@, e),
{
    LogEvent { stream, text: decode_lossy(bytes) }
}

/// Whether `events` is, chunk for chunk and in arrival order, what the
/// multiplexer forwards for `chunks`.
pub open spec fn multiplexed(chunks: Seq<Chunk>, events: Seq<LogEvent>) -> bool {
    &&& events.len() == chunks.len()
    &&& forall|i: int|
        0 <= i < chunks.len() ==> event_for(
            chunks[i].stream,
            chunks[i].bytes@,
            #[trigger] events[i],
        )
}

/// Forwards a whole recorded session: every chunk becomes one tagged,
/// decoded event, in arrival order.
pub fn multiplex(chunks: &Vec<Chunk>) -> (events: Vec<LogEvent>)
    ensures
        multiplexed(chunks@, events@),
{
    let mut events: Vec<LogEvent> = Vec::new();
    let mut i: usize = 0;
    while i < chunks.len()
        invariant
            i <= chunks.len(),
            events@.len() == i,
            forall|j: int|
                0 <= j < i ==> event_for(
                    chunks@[j].stream,
                    chunks@[j].bytes@,
                    #[trigger] events@[j],
                ),
        decreases chunks.len() - i,
    {
        let chunk = &chunks[i];
        let e = decode_chunk(chunk.stream, &chunk.bytes);
        events.push(e);
        i = i + 1;
    }
    events
}

/// The long-lived forwarding task, one instance per spawned worker: chunks
/// from the worker's two channels are handed in one at a time, for as long
/// as the channels stay open, and each is forwarded at once as a tagged,
/// decoded event. The histories of what arrived and what was forwarded are
/// kept in ghost state, tied by the `multiplexed` invariant.
pub struct Multiplexer {
    received: Ghost<Seq<Chunk>>,
    forwarded: Ghost<Seq<LogEvent>>,
}

impl Multiplexer {
    /// Every chunk received so far, in arrival order.
    pub closed spec fn chunks(&self) -> Seq<Chunk> {
        self.received@
    }

    /// Every event forwarded so far, in forwarding order.
    pub closed spec fn events(&self) -> Seq<LogEvent> {
        self.forwarded@
    }

    /// The task's invariant: what was forwarded is, chunk for chunk, the
    /// decoding of what was received.
    pub open spec fn wf(&self) -> bool {
        multiplexed(self.chunks(), self.events())
    }

    /// A fresh forwarding task with nothing received yet.
    pub fn new() -> (m: Multiplexer)
        ensures
            m.wf(),
            m.chunks() =~= Seq::<Chunk>::empty(),
            m.events() =~= Seq::<LogEvent>::empty(),
    {
        Multiplexer { received: Ghost(Seq::empty()), forwarded: Ghost(Seq::empty()) }
    }

    /// Receives one chunk and forwards its event. Total: whatever the bytes
    /// hold, an event comes back and the invariant is kept — this stage
    /// cannot fail, so the task keeps operating after any chunk.
    pub fn forward(&mut self, stream: StreamKind, bytes: &Vec<u8>) -> (e: LogEvent)
        requires
            old(self).wf(),
        ensures
            final(self).wf(),
            event_for(stream, bytes@, e),
            final(self).chunks() == old(self).chunks().push(Chunk { stream, bytes: *bytes }),
            final(self).events() == old(self).events().push(e),
    {
        let e = decode_chunk(stream, bytes);
        proof {
            self.received@ = self.received@.push(Chunk { stream, bytes: *bytes });
            self.forwarded@ = self.forwarded@.push(
                LogEvent { stream: e.stream, text: e.text },
            );
        }
        e
    }
}

/// The chunks that arrived on one channel, in arrival order, as their raw
/// bytes.
pub open spec fn stream_bytes(chunks: Seq<Chunk>, s: StreamKind) -> Seq<Seq<u8>>
    decreases chunks.len(),
{
    if chunks.len() == 0 {
        Seq::empty()
    } else if chunks.first().stream == s {
        seq![chunks.first().bytes@] + stream_bytes(chunks.drop_first(), s)
    } else {
        stream_bytes(chunks.drop_first(), s)
    }
}

/// The events forwarded for one channel, in forwarding order, as their
/// decoded texts.
pub open spec fn stream_texts(events: Seq<LogEvent>, s: StreamKind) -> Seq<Seq<char>>
    decreases events.len(),
{
    if events.len() == 0 {
        Seq::empty()
    } else if events.first().stream == s {
        seq![events.first().text@] + stream_texts(events.drop_first(), s)
    } else {
        stream_texts(events.drop_first(), s)
    }
}

/// Per-channel order law: when `events` is what the multiplexer forwards
/// for `chunks`, then for each channel the i-th event forwarded on that
/// channel is the decoding of the i-th chunk that arrived on it — emission
/// order within a channel is preserved. Nothing is stated about the
/// interleaving across the two channels.
pub proof fn lemma_per_stream_order(chunks: Seq<Chunk>, events: Seq<LogEvent>, s: StreamKind)
    requires
        multiplexed(chunks, events),
    ensures
        stream_texts(events, s).len() == stream_bytes(chunks, s).len(),
        forall|i: int|
            0 <= i < stream_bytes(chunks, s).len() ==> #[trigger] stream_texts(events, s)[i]
                == lossy_decoded(stream_bytes(chunks, s)[i]),
    decreases chunks.len(),
{
    if chunks.len() == 0 {
    } else {
        let ctail = chunks.drop_first();
        let etail = events.drop_first();
        assert forall|i: int|
            0 <= i < ctail.len() implies event_for(
            ctail[i].stream,
            ctail[i].bytes@,
            #[trigger] etail[i],
        ) by {
            assert(event_for(chunks[i + 1].stream, chunks[i + 1].bytes@, events[i + 1]));
        }
        lemma_per_stream_order(ctail, etail, s);
        assert(event_for(chunks[0].stream, chunks[0].bytes@, events[0]));
        if chunks.first().stream == s {
            assert(events.first().stream == s);
            assert forall|i: int|
                0 <= i < stream_bytes(chunks, s).len() implies #[trigger] stream_texts(events, s)[i]
                == lossy_decoded(stream_bytes(chunks, s)[i]) by {
                if i == 0 {
                    assert(stream_texts(events, s)[0] == events.first().text@);
                    assert(stream_bytes(chunks, s)[0] == chunks.first().bytes@);
                } else {
                    assert(stream_texts(events, s)[i] == stream_texts(etail, s)[i - 1]);
                    assert(stream_bytes(chunks, s)[i] == stream_bytes(ctail, s)[i - 1]);
                }
            }
        } else {
            assert(events.first().stream != s);
        }
    }
}

/// What the sink prefixes a line with, per channel, distinguishing the
/// worker's standard output from its standard error.
pub open spec fn spec_prefix(s: StreamKind) -> Seq<char> {
    match s {
        StreamKind::Stdout => "[PY]: "@,
        StreamKind::Stderr => "[PY ERR]: "@,
    }
}

/// The sink prefix for one channel.
pub fn sink_prefix(s: StreamKind) -> (prefix: &'static str)
    ensures
        prefix@ == spec_prefix(s),
{
    match s {
        StreamKind::Stdout => "[PY]: ",
        StreamKind::Stderr => "[PY ERR]: ",
    }
}

/// The full line handed to the diagnostic sink for one event: the
/// channel's prefix followed by the decoded text.
pub fn render_line(e: &LogEvent) -> (line: String)
    ensures
        line@ == spec_prefix(e.stream) + e.text@,
{
    let mut line = sink_prefix(e.stream).to_owned();
    line.append(e.text.as_str());
    line
}

} // verus!
