//! Incremental decoder for server-sent-event streams.
//!
//! The decoder consumes a growing byte buffer fed by a streaming response
//! body and extracts one `"data: {json}\n"` frame per call.  Lines that do
//! not start with the `"data: "` prefix are discarded; a line whose JSON
//! payload is merely truncated (because the value spans several physical
//! lines or the rest of it has not arrived yet) is kept in the buffer until
//! more bytes arrive.

use vstd::prelude::*;

verus! {

/// Byte value of the line delimiter `'\n'`.
pub const NL: u8 = 10;

/// The six bytes of the literal prefix `"data: "`.
pub open spec fn data_prefix() -> Seq<u8> {
    seq![100u8, 97u8, 116u8, 97u8, 58u8, 32u8]
}

/// True when `s` begins with the `"data: "` prefix.
pub open spec fn starts_with_data(s: Seq<u8>) -> bool {
    s.len() >= 6 && s.subrange(0, 6) == data_prefix()
}

/// Whether `s` holds a `'\n'` byte anywhere.
pub open spec fn contains_nl(s: Seq<u8>) -> bool {
    exists|i: int| 0 <= i < s.len() && s[i] == NL
}

/// Index of the first `'\n'` in `s`; equals `s.len()` when there is none.
pub open spec fn first_nl(s: Seq<u8>) -> int
    decreases s.len(),
{
    if s.len() == 0 {
        0
    } else if s[0] == NL {
        0
    } else {
        1 + first_nl(s.subrange(1, s.len() as int))
    }
}

/// `first_nl` returns the index of the first `'\n'`, or the length when
/// there is none.
pub proof fn lemma_first_nl(s: Seq<u8>)
    ensures
        0 <= first_nl(s) <= s.len(),
        first_nl(s) < s.len() ==> s[first_nl(s)] == NL,
        forall|k: int| 0 <= k < first_nl(s) ==> s[k] != NL,
        contains_nl(s) <==> first_nl(s) < s.len(),
    decreases s.len(),
{
    if s.len() == 0 {
    } else if s[0] == NL {
    } else {
        let t = s.subrange(1, s.len() as int);
        lemma_first_nl(t);
        assert(forall|k: int| 0 <= k < t.len() ==> t[k] == s[k + 1]);
        assert forall|k: int| 0 <= k < first_nl(s) implies s[k] != NL by {
            if k >= 1 {
                assert(t[k - 1] == s[k]);
                assert(t[k - 1] != NL);
            }
        };
        if contains_nl(s) {
            let i = choose|i: int| 0 <= i < s.len() && s[i] == NL;
            assert(t[i - 1] == NL);
            assert(contains_nl(t));
        }
        if contains_nl(t) {
            let j = choose|j: int| 0 <= j < t.len() && t[j] == NL;
            assert(s[j + 1] == NL);
            assert(contains_nl(s));
        }
    }
}

/// A position that holds `'\n'` and has none before it is the first one.
pub proof fn lemma_first_nl_is(s: Seq<u8>, i: int)
    requires
        0 <= i < s.len(),
        s[i] == NL,
        forall|k: int| 0 <= k < i ==> s[k] != NL,
    ensures
        first_nl(s) == i,
{
    lemma_first_nl(s);
    assert(contains_nl(s));
    let f = first_nl(s);
    if f < i {
        assert(s[f] == NL);
    }
    if f > i {
        assert(s[i] != NL);
    }
}

/// Whether a byte sequence parses as one complete JSON value under the
/// JSON library this crate delegates to.  Stated, never defined: only the
/// trusted wrapper below speaks about it.
pub uninterp spec fn json_parses(s: Seq<u8>) -> bool;

/// Whether the JSON library rejects the byte sequence solely because the
/// input ends in the middle of a value (its "unexpected end of input"
/// class of errors).  Stated, never defined, like [`json_parses`].
pub uninterp spec fn json_truncated(s: Seq<u8>) -> bool;

/// Outcome of handing a byte slice to the JSON parser.
pub enum JsonCheck {
    /// The bytes are one complete, well-formed JSON value.
    Complete,
    /// The bytes are a proper prefix of a JSON value: the parser ran out
    /// of input before the value closed.
    Truncated,
    /// The bytes are malformed for a reason other than truncation; the
    /// string is the parser's description of the fault.
    Malformed(String),
}

/// Relies on `serde_json::from_slice::<serde_json::Value>` and
/// `serde_json::Error::is_eof`.  For fixed input bytes the parser is
/// deterministic, so whether the bytes form a complete value, end too
/// early, or are malformed is a function of the bytes alone; those three
/// outcomes are named by `json_parses` and `json_truncated`.
#[verifier::external_body]
fn classify_json(bytes: &Vec<u8>) -> (r: JsonCheck)
    ensures
        r is Complete <==> json_parses(bytes@),
        r is Truncated <==> (!json_parses(bytes@) && json_truncated(bytes@)),
        r is Malformed <==> (!json_parses(bytes@) && !json_truncated(bytes@)),
{
    match serde_json::from_slice::<serde_json::Value>(bytes) {
        Ok(_) => JsonCheck::Complete,
        Err(e) => {
            if e.is_eof() {
                JsonCheck::Truncated
            } else {
                JsonCheck::Malformed(e.to_string())
            }
        },
    }
}

/// A complete `"data: "` frame whose payload is invalid JSON.
#[derive(Clone, Debug, PartialEq)]
pub struct DecodeError {
    /// Description of the parse fault, taken from the JSON library.
    pub message: String,
}

/// Result of one attempt to extract a frame from the front of the buffer.
#[derive(Clone, Debug, PartialEq)]
pub enum DecodeOutcome {
    /// A complete `"data: "` frame was consumed; the payload bytes after
    /// the prefix are returned and are one well-formed JSON value.
    Produced(Vec<u8>),
    /// No event is available yet: the buffer is empty, holds only a
    /// partial line, or a non-data line was skipped.  Callers feed more
    /// bytes or call again.
    NeedMoreData,
    /// A complete frame carried malformed JSON; the frame was consumed so
    /// that decoding can continue behind it.
    Error(DecodeError),
}

/// What one decode step does to a buffer holding `b`: which outcome kind
/// it reports and what remains in the buffer.  This is the mathematical
/// model that `SseDecoder::decode` is proved to follow.
pub enum StepKind {
    /// Nothing can be done until more bytes arrive; the buffer is kept.
    Stuck,
    /// A complete data frame (or a parseable unterminated data line) was
    /// consumed and its payload reported.
    Emit,
    /// A complete non-data line was discarded.
    Skip,
    /// A newline-terminated data line whose payload is a truncated JSON
    /// value: the delimiter is dropped so the value can continue on the
    /// next physical line, and nothing is reported.
    Rejoin,
    /// A complete data frame carried malformed JSON and was consumed.
    Fail,
}

/// The outcome kind of one decode step on buffer `b`.
pub open spec fn step_kind(b: Seq<u8>) -> StepKind {
    if b.len() == 0 {
        StepKind::Stuck
    } else if contains_nl(b) {
        let line = b.subrange(0, first_nl(b));
        if starts_with_data(line) {
            let payload = b.subrange(6, first_nl(b));
            if json_parses(payload) {
                StepKind::Emit
            } else if json_truncated(payload) {
                StepKind::Rejoin
            } else {
                StepKind::Fail
            }
        } else {
            StepKind::Skip
        }
    } else {
        if starts_with_data(b) {
            let payload = b.subrange(6, b.len() as int);
            if json_parses(payload) {
                StepKind::Emit
            } else if json_truncated(payload) {
                StepKind::Stuck
            } else {
                StepKind::Fail
            }
        } else {
            StepKind::Stuck
        }
    }
}

/// The buffer contents after one decode step on `b`.
pub open spec fn step_buf(b: Seq<u8>) -> Seq<u8> {
    if b.len() == 0 {
        b
    } else if contains_nl(b) {
        let line = b.subrange(0, first_nl(b));
        let rest = b.subrange(first_nl(b) + 1, b.len() as int);
        if starts_with_data(line) {
            let payload = b.subrange(6, first_nl(b));
            if json_parses(payload) {
                rest
            } else if json_truncated(payload) {
                line + rest
            } else {
                rest
            }
        } else {
            rest
        }
    } else {
        if starts_with_data(b) {
            let payload = b.subrange(6, b.len() as int);
            if json_parses(payload) {
                Seq::empty()
            } else if json_truncated(payload) {
                b
            } else {
                Seq::empty()
            }
        } else {
            b
        }
    }
}

/// The payload reported by a step on `b`; meaningful when the step emits.
pub open spec fn step_payload(b: Seq<u8>) -> Seq<u8> {
    if contains_nl(b) {
        b.subrange(6, first_nl(b))
    } else {
        b.subrange(6, b.len() as int)
    }
}

/// Every step that is not stuck strictly shrinks the buffer, so repeated
/// decoding of a fixed buffer terminates.
pub proof fn lemma_step_shrinks(b: Seq<u8>)
    ensures
        !(step_kind(b) is Stuck) ==> step_buf(b).len() < b.len(),
        step_kind(b) is Stuck ==> step_buf(b) == b,
{
    lemma_first_nl(b);
}

/// Find the first newline in the buffer.
fn find_newline(v: &Vec<u8>) -> (r: Option<usize>)
    ensures
        match r {
            Some(i) => contains_nl(v@) && i == first_nl(v@) && i < v@.len(),
            None => !contains_nl(v@) && first_nl(v@) == v@.len(),
        },
{
    let n = v.len();
    let mut i: usize = 0;
    while i < n
        invariant
            i <= n,
            n == v.len(),
            forall|k: int| 0 <= k < i ==> v@[k] != NL,
        decreases n - i,
    {
        if v[i] == NL {
            proof {
                lemma_first_nl_is(v@, i as int);
            }
            return Some(i);
        }
        i = i + 1;
    }
    proof {
        lemma_first_nl(v@);
        assert(!contains_nl(v@));
    }
    None
}

/// The byte at position `i` of the `"data: "` prefix.
fn prefix_byte(i: usize) -> (r: u8)
    requires
        i < 6,
    ensures
        r == data_prefix()[i as int],
{
    if i == 0 {
        100
    } else if i == 1 {
        97
    } else if i == 2 {
        116
    } else if i == 3 {
        97
    } else if i == 4 {
        58
    } else {
        32
    }
}

/// Whether the first `end` bytes of `v` begin with the `"data: "` prefix.
fn has_data_prefix(v: &Vec<u8>, end: usize) -> (r: bool)
    requires
        end <= v.len(),
    ensures
        r == starts_with_data(v@.subrange(0, end as int)),
{
    let ghost line = v@.subrange(0, end as int);
    if end < 6 {
        return false;
    }
    let mut i: usize = 0;
    while i < 6
        invariant
            i <= 6,
            6 <= end <= v.len(),
            line == v@.subrange(0, end as int),
            forall|k: int| 0 <= k < i ==> v@[k] == data_prefix()[k],
        decreases 6 - i,
    {
        if v[i] != prefix_byte(i) {
            proof {
                assert(line.subrange(0, 6)[i as int] == v@[i as int]);
            }
            return false;
        }
        i = i + 1;
    }
    proof {
        assert(line.subrange(0, 6) =~= data_prefix());
    }
    true
}

/// Copy `v[start..end]` into a fresh vector.
fn copy_range(v: &Vec<u8>, start: usize, end: usize) -> (r: Vec<u8>)
    requires
        start <= end <= v.len(),
    ensures
        r@ == v@.subrange(start as int, end as int),
{
    let mut r: Vec<u8> = Vec::new();
    let mut i: usize = start;
    proof {
        assert(r@ =~= v@.subrange(start as int, start as int));
    }
    while i < end
        invariant
            start <= i <= end <= v.len(),
            r@ == v@.subrange(start as int, i as int),
        decreases end - i,
    {
        r.push(v[i]);
        i = i + 1;
        proof {
            assert(r@ =~= v@.subrange(start as int, i as int));
        }
    }
    r
}

/// What repeated decoding of a fixed buffer yields: the payloads produced
/// in order, the number of malformed frames consumed, and the bytes left
/// when no further step can make progress.
pub open spec fn drain(b: Seq<u8>) -> (Seq<Seq<u8>>, nat, Seq<u8>)
    decreases b.len(),
{
    if step_kind(b) is Stuck {
        (Seq::<Seq<u8>>::empty(), 0 as nat, b)
    } else {
        proof {
            lemma_step_shrinks(b);
        }
        let tail = drain(step_buf(b));
        if step_kind(b) is Emit {
            (seq![step_payload(b)] + tail.0, tail.1, tail.2)
        } else if step_kind(b) is Fail {
            (tail.0, tail.1 + 1, tail.2)
        } else {
            tail
        }
    }
}

/// The views of a sequence of byte vectors.
pub open spec fn views_of(vs: Seq<Vec<u8>>) -> Seq<Seq<u8>> {
    vs.map_values(|v: Vec<u8>| v@)
}

/// The incremental decoder.  It owns the buffer of bytes received so far;
/// `feed` appends a chunk from the stream and `decode` extracts at most
/// one frame from the front.
#[derive(Debug)]
pub struct SseDecoder {
    buf: Vec<u8>,
}

impl View for SseDecoder {
    type V = Seq<u8>;

    /// The unconsumed bytes currently buffered.
    closed spec fn view(&self) -> Seq<u8> {
        self.buf@
    }
}

impl Default for SseDecoder {
    /// Same as [`SseDecoder::new`]: a decoder with an empty buffer.
    fn default() -> (r: SseDecoder)
        ensures
            r@ == Seq::<u8>::empty(),
    {
        SseDecoder::new()
    }
}

impl SseDecoder {
    /// Create a decoder with an empty buffer.
    pub fn new() -> (r: SseDecoder)
        ensures
            r@ == Seq::<u8>::empty(),
    {
        SseDecoder { buf: Vec::new() }
    }

    /// How many bytes are buffered and not yet consumed.
    pub fn buffered_len(&self) -> (r: usize)
        ensures
            r == self@.len(),
    {
        self.buf.len()
    }

    /// Append a chunk of stream bytes to the tail of the buffer.
    pub fn feed(&mut self, chunk: &Vec<u8>)
        ensures
            final(self)@ == old(self)@ + chunk@,
    {
        let n = chunk.len();
        let mut i: usize = 0;
        while i < n
            invariant
                i <= n,
                n == chunk.len(),
                self.buf@ == old(self).buf@ + chunk@.subrange(0, i as int),
            decreases n - i,
        {
            self.buf.push(chunk[i]);
            i = i + 1;
            proof {
                assert(self.buf@ =~= old(self).buf@ + chunk@.subrange(0, i as int));
            }
        }
        proof {
            assert(chunk@.subrange(0, n as int) =~= chunk@);
        }
    }

    /// Try to extract one frame from the front of the buffer.
    ///
    /// The buffer moves to `step_buf` of its old contents and the outcome's
    /// constructor is fixed by `step_kind`, so for given buffer contents the
    /// result is fully determined (only the text inside a `DecodeError` is
    /// left open).  In particular: an empty buffer, a partial line, and a
    /// skipped non-data line all report `NeedMoreData`; a produced payload
    /// is exactly the bytes between `"data: "` and the delimiter and is
    /// well-formed JSON; a malformed complete frame is consumed and
    /// reported as an error exactly once.
    ///
    /// Two policy points the contract fixes deliberately.  A data line
    /// whose payload is a truncated JSON value keeps its bytes but loses
    /// the delimiter, so a value that legitimately spans physical lines
    /// is reassembled and retried once more bytes arrive.  And a data
    /// line that is malformed beyond repair is consumed even when its
    /// delimiter has not arrived yet - no extension of a malformed
    /// payload can become valid, and keeping it would make every later
    /// call fail on the same bytes.
    pub fn decode(&mut self) -> (r: DecodeOutcome)
        ensures
            final(self)@ == step_buf(old(self)@),
            match r {
                DecodeOutcome::Produced(p) => step_kind(old(self)@) is Emit && p@
                    == step_payload(old(self)@) && json_parses(p@),
                DecodeOutcome::NeedMoreData => step_kind(old(self)@) is Stuck || step_kind(
                    old(self)@,
                ) is Skip || step_kind(old(self)@) is Rejoin,
                DecodeOutcome::Error(_) => step_kind(old(self)@) is Fail,
            },
    {
        let ghost b0 = self.buf@;
        proof {
            lemma_first_nl(b0);
        }
        if self.buf.len() == 0 {
            return DecodeOutcome::NeedMoreData;
        }
        match find_newline(&self.buf) {
            Some(pos) => {
                let ghost line = b0.subrange(0, pos as int);
                let ghost rest = b0.subrange(pos as int + 1, b0.len() as int);
                if has_data_prefix(&self.buf, pos) {
                    let payload = copy_range(&self.buf, 6, pos);
                    match classify_json(&payload) {
                        JsonCheck::Complete => {
                            let rest_vec = copy_range(&self.buf, pos + 1, self.buf.len());
                            self.buf = rest_vec;
                            DecodeOutcome::Produced(payload)
                        },
                        JsonCheck::Truncated => {
                            self.buf.remove(pos);
                            proof {
                                assert(self.buf@ =~= line + rest);
                            }
                            DecodeOutcome::NeedMoreData
                        },
                        JsonCheck::Malformed(message) => {
                            let rest_vec = copy_range(&self.buf, pos + 1, self.buf.len());
                            self.buf = rest_vec;
                            DecodeOutcome::Error(DecodeError { message })
                        },
                    }
                } else {
                    let rest_vec = copy_range(&self.buf, pos + 1, self.buf.len());
                    self.buf = rest_vec;
                    DecodeOutcome::NeedMoreData
                }
            },
            None => {
                if has_data_prefix(&self.buf, self.buf.len()) {
                    proof {
                        assert(b0.subrange(0, b0.len() as int) =~= b0);
                    }
                    let payload = copy_range(&self.buf, 6, self.buf.len());
                    match classify_json(&payload) {
                        JsonCheck::Complete => {
                            self.buf = Vec::new();
                            DecodeOutcome::Produced(payload)
                        },
                        JsonCheck::Truncated => DecodeOutcome::NeedMoreData,
                        JsonCheck::Malformed(message) => {
                            self.buf = Vec::new();
                            DecodeOutcome::Error(DecodeError { message })
                        },
                    }
                } else {
                    proof {
                        assert(b0.subrange(0, b0.len() as int) =~= b0);
                    }
                    DecodeOutcome::NeedMoreData
                }
            },
        }
    }

    /// Decode repeatedly until no step can make progress, collecting every
    /// produced payload in order and counting malformed frames.
    pub fn decode_all(&mut self) -> (r: (Vec<Vec<u8>>, usize))
        ensures
            views_of(r.0@) == drain(old(self)@).0,
            r.1 as nat == drain(old(self)@).1,
            final(self)@ == drain(old(self)@).2,
    {
        let ghost b0 = self.buf@;
        let n0 = self.buf.len();
        let mut events: Vec<Vec<u8>> = Vec::new();
        let mut faults: usize = 0;
        proof {
            assert(views_of(events@) =~= Seq::<Seq<u8>>::empty());
        }
        loop
            invariant
                drain(b0).0 == views_of(events@) + drain(self.buf@).0,
                drain(b0).1 == faults as nat + drain(self.buf@).1,
                drain(b0).2 == drain(self.buf@).2,
                faults as int + self.buf@.len() <= n0 as int,
            ensures
                step_kind(self.buf@) is Stuck,
            decreases self.buf@.len(),
        {
            let pre_len = self.buf.len();
            let ghost bpre = self.buf@;
            proof {
                lemma_step_shrinks(bpre);
            }
            match self.decode() {
                DecodeOutcome::Produced(p) => {
                    proof {
                        assert(views_of(events@.push(p)) =~= views_of(events@).push(p@));
                        assert(views_of(events@) + drain(bpre).0 =~= (views_of(events@).push(p@))
                            + drain(step_buf(bpre)).0);
                    }
                    events.push(p);
                },
                DecodeOutcome::NeedMoreData => {
                    if self.buf.len() == pre_len {
                        proof {
                            assert(step_kind(bpre) is Stuck);
                        }
                        break;
                    }
                },
                DecodeOutcome::Error(_) => {
                    faults = faults + 1;
                },
            }
        }
        proof {
            assert(drain(self.buf@).0 =~= Seq::<Seq<u8>>::empty());
            assert(views_of(events@) + drain(self.buf@).0 =~= views_of(events@));
        }
        (events, faults)
    }
}

/// One signal from a ready-made event-source transport, reduced to plain
/// data.
#[derive(Clone, Debug, PartialEq)]
pub enum StreamSignal {
    /// The connection opened or sent a keep-alive.
    Opened,
    /// A message arrived; the string is its data field.
    Message(String),
    /// The stream ended normally.
    Ended,
    /// The transport failed; the string describes the failure.
    Failed(String),
}

/// What a consumer does with one transport signal.
#[derive(Clone, Debug, PartialEq)]
pub enum SignalAction {
    /// Nothing to emit; keep listening.
    Skip,
    /// Hand the message's payload to the JSON layer.
    EmitPayload(String),
    /// Stop listening; the stream is over.
    Stop,
    /// Surface the transport failure.
    Fail(String),
}

/// The decision an event-source consumer makes for each signal: an open
/// is a keep-alive, a message carries one event's payload, a normal end
/// closes the stream silently, and a transport failure is surfaced.
pub fn eventsource_step(signal: StreamSignal) -> (r: SignalAction)
    ensures
        match signal {
            StreamSignal::Opened => r == SignalAction::Skip,
            StreamSignal::Message(m) => r == SignalAction::EmitPayload(m),
            StreamSignal::Ended => r == SignalAction::Stop,
            StreamSignal::Failed(e) => r == SignalAction::Fail(e),
        },
{
    match signal {
        StreamSignal::Opened => SignalAction::Skip,
        StreamSignal::Message(m) => SignalAction::EmitPayload(m),
        StreamSignal::Ended => SignalAction::Stop,
        StreamSignal::Failed(e) => SignalAction::Fail(e),
    }
}

} // verus!

