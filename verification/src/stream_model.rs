//! Model of a whole event stream and the guarantees the decoder gives
//! over it.
//!
//! [`crate::event_source::SseDecoder::decode`] is specified step by step:
//! each call follows `step_kind` / `step_buf`, and `drain` describes
//! decoding a fixed buffer to exhaustion.  This module lifts those
//! single-buffer facts to whole streams: a stream that is a concatenation
//! of well-formed `"data: {json}\n"` frames yields exactly its payloads,
//! in order, no matter how the bytes are cut into chunks; non-data lines
//! are skipped silently; a truncated payload is awaited rather than
//! dropped; a malformed complete frame costs exactly one error and is
//! consumed.
//!
//! `run_events(b, chunks)` is, by the contracts of `feed` and
//! `decode_all`, exactly what a decoder whose buffer holds `b` emits when
//! each chunk is fed in turn and the decoder is drained after every
//! feed - so the theorems here are statements about the executable
//! decoder, not about a shadow of it.

use vstd::prelude::*;

use crate::event_source::NL;
use crate::event_source::contains_nl;
use crate::event_source::data_prefix;
use crate::event_source::drain;
use crate::event_source::first_nl;
use crate::event_source::json_parses;
use crate::event_source::json_truncated;
use crate::event_source::lemma_first_nl;
use crate::event_source::lemma_first_nl_is;
use crate::event_source::starts_with_data;
use crate::event_source::step_buf;
use crate::event_source::step_kind;
use crate::event_source::step_payload;
use crate::event_source::StepKind;

verus! {

/// The wire form of one data frame carrying payload `j`.
pub open spec fn frame_of(j: Seq<u8>) -> Seq<u8> {
    data_prefix() + j + seq![NL]
}

/// The concatenation of the frames of all payloads, in order.
pub open spec fn frames_of(js: Seq<Seq<u8>>) -> Seq<u8>
    decreases js.len(),
{
    if js.len() == 0 {
        Seq::empty()
    } else {
        frame_of(js[0]) + frames_of(js.skip(1))
    }
}

/// The concatenation of a sequence of chunks.
pub open spec fn concat_all(cs: Seq<Seq<u8>>) -> Seq<u8>
    decreases cs.len(),
{
    if cs.len() == 0 {
        Seq::empty()
    } else {
        cs[0] + concat_all(cs.skip(1))
    }
}

/// A payload that one well-formed single-line frame can carry: one
/// complete JSON value without a newline byte, none of whose proper
/// prefixes the parser accepts, and all of whose proper prefixes it
/// classifies as truncated rather than malformed.
pub open spec fn wf_payload(j: Seq<u8>) -> bool {
    &&& json_parses(j)
    &&& forall|k: int| 0 <= k < j.len() ==> j[k] != NL
    &&& forall|k: int| 0 <= k < j.len() ==> !json_parses(#[trigger] j.subrange(0, k))
        && json_truncated(#[trigger] j.subrange(0, k))
}

/// Every payload of the sequence is well formed.
pub open spec fn wf_payloads(js: Seq<Seq<u8>>) -> bool {
    forall|i: int| 0 <= i < js.len() ==> wf_payload(#[trigger] js[i])
}

/// How many leading frames have been fully determined once `t` bytes of
/// `frames_of(js)` have arrived: a frame counts as soon as every byte
/// before its trailing delimiter is in, because a parseable unterminated
/// data line is emitted without waiting for the delimiter.
pub open spec fn covered(js: Seq<Seq<u8>>, t: int) -> int
    decreases js.len(),
{
    if js.len() == 0 {
        0
    } else if t >= 6 + js[0].len() {
        1 + covered(js.skip(1), t - (7 + js[0].len()))
    } else {
        0
    }
}

/// The bytes still buffered after feeding the first `t` bytes of
/// `frames_of(js)` and draining.
pub open spec fn resid(js: Seq<Seq<u8>>, t: int) -> Seq<u8>
    decreases js.len(),
{
    if js.len() == 0 {
        Seq::empty()
    } else if t == 6 + js[0].len() {
        Seq::empty()
    } else if t > 6 + js[0].len() {
        resid(js.skip(1), t - (7 + js[0].len()))
    } else {
        frame_of(js[0]).subrange(0, t)
    }
}

/// Whether the next stream byte owed after feeding `t` bytes is the
/// delimiter of a frame whose payload was already emitted early.
pub open spec fn awaiting_nl(js: Seq<Seq<u8>>, t: int) -> bool
    decreases js.len(),
{
    if js.len() == 0 {
        false
    } else if t == 6 + js[0].len() {
        true
    } else if t > 6 + js[0].len() {
        awaiting_nl(js.skip(1), t - (7 + js[0].len()))
    } else {
        false
    }
}

/// Shape facts about one frame: its length, where its only delimiter
/// sits, and how its pieces read back out of it.
proof fn lemma_frame_bytes(j: Seq<u8>)
    requires
        forall|k: int| 0 <= k < j.len() ==> j[k] != NL,
    ensures
        frame_of(j).len() == 7 + j.len(),
        forall|k: int| 0 <= k < 6 + j.len() ==> frame_of(j)[k] != NL,
        frame_of(j)[6 + j.len() as int] == NL,
        starts_with_data(frame_of(j)),
        frame_of(j).subrange(6, 6 + j.len() as int) == j,
        frame_of(j).subrange(0, 6) == data_prefix(),
{
    let fr = frame_of(j);
    assert(data_prefix().len() == 6);
    assert(forall|k: int| 0 <= k < 6 ==> data_prefix()[k] != NL);
    assert(fr.subrange(6, 6 + j.len() as int) =~= j);
    assert(fr.subrange(0, 6) =~= data_prefix());
}

/// `wf_payloads` carries over to any tail of the list.
proof fn lemma_wf_skip(js: Seq<Seq<u8>>, n: int)
    requires
        wf_payloads(js),
        0 <= n <= js.len(),
    ensures
        wf_payloads(js.skip(n)),
{
    assert forall|i: int| 0 <= i < js.skip(n).len() implies wf_payload(#[trigger] js.skip(n)[i]) by {
        assert(js.skip(n)[i] == js[i + n]);
    }
}

/// The byte offset inside the first uncovered frame after feeding `t`
/// bytes; meaningful when no delimiter is owed.
pub open spec fn local_pos(js: Seq<Seq<u8>>, t: int) -> int
    decreases js.len(),
{
    if js.len() == 0 {
        t
    } else if t >= 6 + js[0].len() {
        local_pos(js.skip(1), t - (7 + js[0].len()))
    } else {
        t
    }
}

/// `covered` counts between zero and all of the payloads.
proof fn lemma_covered_bounds(js: Seq<Seq<u8>>, t: int)
    ensures
        0 <= covered(js, t) <= js.len(),
    decreases js.len(),
{
    if js.len() > 0 && t >= 6 + js[0].len() {
        lemma_covered_bounds(js.skip(1), t - (7 + js[0].len()));
    }
}

/// Draining any prefix of a well-formed frame stream emits exactly the
/// payloads of the frames whose pre-delimiter bytes have all arrived,
/// reports no fault, and leaves `resid` buffered.
pub proof fn lemma_drain_prefix(js: Seq<Seq<u8>>, t: int)
    requires
        wf_payloads(js),
        0 <= t <= frames_of(js).len(),
    ensures
        0 <= covered(js, t) <= js.len(),
        drain(frames_of(js).subrange(0, t)).0 == js.subrange(0, covered(js, t)),
        drain(frames_of(js).subrange(0, t)).1 == 0,
        drain(frames_of(js).subrange(0, t)).2 == resid(js, t),
    decreases js.len(),
{
    let p = frames_of(js).subrange(0, t);
    if js.len() == 0 {
        assert(p =~= Seq::<u8>::empty());
        assert(step_kind(p) is Stuck);
        assert(js.subrange(0, 0) =~= Seq::<Seq<u8>>::empty());
    } else {
        let j = js[0];
        assert(wf_payload(j));
        lemma_frame_bytes(j);
        let c0 = 6 + j.len() as int;
        let f0 = c0 + 1;
        let fr = frame_of(j);
        let tail = js.skip(1);
        let rest_frames = frames_of(tail);
        assert(frames_of(js) == fr + rest_frames);
        if t < c0 {
            assert(p =~= fr.subrange(0, t));
            assert(forall|k: int| 0 <= k < t ==> p[k] == fr[k]);
            assert(forall|k: int| 0 <= k < t ==> p[k] != NL);
            lemma_first_nl(p);
            assert(!contains_nl(p));
            if t == 0 {
                assert(step_kind(p) is Stuck);
            } else if t < 6 {
                assert(!starts_with_data(p));
                assert(step_kind(p) is Stuck);
            } else {
                assert(p.subrange(0, 6) =~= data_prefix());
                assert(starts_with_data(p));
                let q = p.subrange(6, t);
                assert(q =~= j.subrange(0, t - 6));
                assert(json_truncated(q) && !json_parses(q));
                assert(step_kind(p) is Stuck);
            }
            assert(covered(js, t) == 0);
            assert(js.subrange(0, 0) =~= Seq::<Seq<u8>>::empty());
            assert(resid(js, t) == fr.subrange(0, t));
        } else if t == c0 {
            assert(p =~= data_prefix() + j);
            assert(forall|k: int| 0 <= k < t ==> p[k] == fr[k]);
            assert(forall|k: int| 0 <= k < t ==> p[k] != NL);
            lemma_first_nl(p);
            assert(!contains_nl(p));
            assert(p.subrange(0, 6) =~= data_prefix());
            assert(starts_with_data(p));
            let q = p.subrange(6, c0);
            assert(q =~= j);
            assert(step_kind(p) is Emit);
            assert(step_payload(p) == j);
            assert(step_buf(p) =~= Seq::<u8>::empty());
            assert(step_kind(Seq::<u8>::empty()) is Stuck);
            assert(drain(Seq::<u8>::empty()).0 == Seq::<Seq<u8>>::empty());
            assert(drain(Seq::<u8>::empty()).1 == 0);
            assert(drain(Seq::<u8>::empty()).2 == Seq::<u8>::empty());
            assert(!(step_kind(p) is Stuck));
            assert(drain(p).0 == seq![step_payload(p)] + drain(step_buf(p)).0);
            assert(drain(p).1 == drain(step_buf(p)).1);
            assert(drain(p).2 == drain(step_buf(p)).2);
            assert(drain(p).0 =~= seq![j]);
            assert(covered(js, t) == 1 + covered(tail, -1));
            assert(covered(tail, -1) == 0);
            assert(js.subrange(0, 1) =~= seq![j]);
            assert(resid(js, t) == Seq::<u8>::empty());
        } else {
            let t2 = t - f0;
            let p2 = rest_frames.subrange(0, t2);
            assert(p =~= fr + p2);
            assert(p[c0] == NL);
            assert(forall|k: int| 0 <= k < c0 ==> p[k] == fr[k] && p[k] != NL);
            lemma_first_nl_is(p, c0);
            assert(contains_nl(p));
            let line = p.subrange(0, c0);
            assert(line =~= data_prefix() + j);
            assert(line.subrange(0, 6) =~= data_prefix());
            assert(starts_with_data(line));
            let q = p.subrange(6, c0);
            assert(q =~= j);
            assert(step_kind(p) is Emit);
            assert(step_payload(p) == j);
            assert(step_buf(p) =~= p2);
            lemma_wf_skip(js, 1);
            lemma_drain_prefix(tail, t2);
            assert(drain(p).0 == seq![j] + drain(p2).0);
            assert(covered(js, t) == 1 + covered(tail, t2));
            assert(js.subrange(0, covered(js, t)) =~= seq![j] + tail.subrange(
                0,
                covered(tail, t2),
            ));
            assert(resid(js, t) == resid(tail, t2));
        }
    }
}

/// After feeding `t` bytes and draining, what is left is exactly a fresh
/// stream of the uncovered payloads: either the buffer holds a prefix of
/// the next frame, or, when a payload was emitted early, the buffer is
/// empty and the stream still owes that frame's delimiter.
proof fn lemma_advance(js: Seq<Seq<u8>>, t: int)
    requires
        wf_payloads(js),
        0 <= t <= frames_of(js).len(),
    ensures
        0 <= covered(js, t) <= js.len(),
        awaiting_nl(js, t) ==> resid(js, t) == Seq::<u8>::empty() && frames_of(js).subrange(
            t,
            frames_of(js).len() as int,
        ) == seq![NL] + frames_of(js.skip(covered(js, t))),
        !awaiting_nl(js, t) ==> ({
            let js2 = js.skip(covered(js, t));
            let t2 = local_pos(js, t);
            &&& 0 <= t2 <= frames_of(js2).len()
            &&& covered(js2, t2) == 0
            &&& !awaiting_nl(js2, t2)
            &&& resid(js, t) == frames_of(js2).subrange(0, t2)
            &&& frames_of(js).subrange(t, frames_of(js).len() as int) == frames_of(js2).subrange(
                t2,
                frames_of(js2).len() as int,
            )
        }),
    decreases js.len(),
{
    lemma_covered_bounds(js, t);
    if js.len() == 0 {
        assert(js.skip(0) =~= js);
        assert(frames_of(js).subrange(0, 0) =~= Seq::<u8>::empty());
        assert(frames_of(js).subrange(t, frames_of(js).len() as int) =~= frames_of(
            js,
        ).subrange(t, frames_of(js).len() as int));
    } else {
        let j = js[0];
        assert(wf_payload(j));
        lemma_frame_bytes(j);
        let c0 = 6 + j.len() as int;
        let f0 = c0 + 1;
        let fr = frame_of(j);
        let tail = js.skip(1);
        assert(frames_of(js) == fr + frames_of(tail));
        if t < c0 {
            assert(covered(js, t) == 0);
            assert(!awaiting_nl(js, t));
            assert(local_pos(js, t) == t);
            assert(js.skip(0) =~= js);
            assert(resid(js, t) == fr.subrange(0, t));
            assert(fr.subrange(0, t) =~= frames_of(js).subrange(0, t));
        } else if t == c0 {
            assert(awaiting_nl(js, t));
            assert(covered(tail, -1) == 0);
            assert(covered(js, t) == 1);
            assert(js.skip(1) == tail);
            assert(frames_of(js).subrange(t, frames_of(js).len() as int) =~= seq![NL]
                + frames_of(tail));
        } else {
            let t2 = t - f0;
            lemma_wf_skip(js, 1);
            lemma_advance(tail, t2);
            let cov = covered(tail, t2);
            assert(covered(js, t) == 1 + cov);
            assert(awaiting_nl(js, t) == awaiting_nl(tail, t2));
            assert(local_pos(js, t) == local_pos(tail, t2));
            assert(js.skip(1 + cov) =~= tail.skip(cov));
            assert(resid(js, t) == resid(tail, t2));
            assert(frames_of(js).subrange(t, frames_of(js).len() as int) =~= frames_of(
                tail,
            ).subrange(t2, frames_of(tail).len() as int));
        }
    }
}

/// The payloads a decoder emits when the chunks are fed one at a time
/// into a buffer holding `b`, draining after every feed.
pub open spec fn run_events(b: Seq<u8>, chunks: Seq<Seq<u8>>) -> Seq<Seq<u8>>
    decreases chunks.len(),
{
    if chunks.len() == 0 {
        Seq::empty()
    } else {
        drain(b + chunks[0]).0 + run_events(drain(b + chunks[0]).2, chunks.skip(1))
    }
}

/// The number of malformed frames such a run reports.
pub open spec fn run_faults(b: Seq<u8>, chunks: Seq<Seq<u8>>) -> nat
    decreases chunks.len(),
{
    if chunks.len() == 0 {
        0 as nat
    } else {
        drain(b + chunks[0]).1 + run_faults(drain(b + chunks[0]).2, chunks.skip(1))
    }
}

/// The bytes left in the buffer at the end of such a run.
pub open spec fn run_rest(b: Seq<u8>, chunks: Seq<Seq<u8>>) -> Seq<u8>
    decreases chunks.len(),
{
    if chunks.len() == 0 {
        b
    } else {
        run_rest(drain(b + chunks[0]).2, chunks.skip(1))
    }
}

/// Resuming a run mid-stream: when the first `t` bytes of a well-formed
/// frame stream have been fed and drained, feeding the remaining bytes in
/// any chunks yields exactly the payloads not yet emitted, no faults, and
/// an empty buffer.
proof fn lemma_run_resume(js: Seq<Seq<u8>>, t: int, chunks: Seq<Seq<u8>>)
    requires
        wf_payloads(js),
        0 <= t <= frames_of(js).len(),
        concat_all(chunks) == frames_of(js).subrange(t, frames_of(js).len() as int),
    ensures
        run_events(resid(js, t), chunks) == js.skip(covered(js, t)),
        run_faults(resid(js, t), chunks) == 0,
        run_rest(resid(js, t), chunks) == Seq::<u8>::empty(),
    decreases chunks.len(),
{
    lemma_advance(js, t);
    let cov = covered(js, t);
    let js2 = js.skip(cov);
    lemma_wf_skip(js, cov);
    let total = frames_of(js).len() as int;
    let remaining = frames_of(js).subrange(t, total);
    if awaiting_nl(js, t) {
        // the stream still owes the delimiter of the frame emitted early
        assert(remaining == seq![NL] + frames_of(js2));
        assert(remaining.len() > 0);
        assert(chunks.len() > 0);
        let c = chunks[0];
        assert(concat_all(chunks) == c + concat_all(chunks.skip(1)));
        if c.len() == 0 {
            assert(resid(js, t) + c =~= Seq::<u8>::empty());
            assert(step_kind(Seq::<u8>::empty()) is Stuck);
            assert(drain(Seq::<u8>::empty()).2 == Seq::<u8>::empty());
            assert(concat_all(chunks.skip(1)) =~= concat_all(chunks));
            lemma_run_resume(js, t, chunks.skip(1));
            assert(run_events(resid(js, t), chunks) =~= js.skip(cov));
        } else {
            let b1 = resid(js, t) + c;
            assert(b1 =~= c);
            assert(c[0] == concat_all(chunks)[0]);
            assert(c[0] == NL);
            lemma_first_nl_is(c, 0);
            assert(contains_nl(c));
            let line = c.subrange(0, 0);
            assert(line.len() == 0);
            assert(!starts_with_data(line));
            assert(step_kind(c) is Skip);
            let rest0 = c.subrange(1, c.len() as int);
            assert(step_buf(c) == rest0);
            assert(drain(c).0 == drain(rest0).0);
            assert(drain(c).1 == drain(rest0).1);
            assert(drain(c).2 == drain(rest0).2);
            let t1 = c.len() - 1;
            assert(c =~= remaining.subrange(0, c.len() as int));
            assert(rest0 =~= frames_of(js2).subrange(0, t1));
            lemma_drain_prefix(js2, t1);
            assert(drain(rest0).0 == js2.subrange(0, covered(js2, t1)));
            assert(drain(rest0).2 == resid(js2, t1));
            assert(concat_all(chunks.skip(1)).len() == remaining.len() - c.len());
            assert forall|k: int| 0 <= k < concat_all(chunks.skip(1)).len() implies concat_all(
                chunks.skip(1),
            )[k] == frames_of(js2).subrange(t1, frames_of(js2).len() as int)[k] by {
                assert(concat_all(chunks.skip(1))[k] == concat_all(chunks)[c.len() + k]);
                assert(concat_all(chunks)[c.len() + k] == remaining[c.len() + k]);
            }
            assert(concat_all(chunks.skip(1)) =~= frames_of(js2).subrange(
                t1,
                frames_of(js2).len() as int,
            ));
            lemma_run_resume(js2, t1, chunks.skip(1));
            assert(run_events(resid(js2, t1), chunks.skip(1)) == js2.skip(covered(js2, t1)));
            assert(run_events(resid(js, t), chunks) =~= js2.subrange(0, covered(js2, t1))
                + js2.skip(covered(js2, t1)));
            lemma_covered_bounds(js2, t1);
            assert(js2.subrange(0, covered(js2, t1)) + js2.skip(covered(js2, t1)) =~= js2);
            assert(run_events(resid(js, t), chunks) =~= js.skip(cov));
        }
    } else {
        let t2 = local_pos(js, t);
        assert(resid(js, t) == frames_of(js2).subrange(0, t2));
        assert(remaining == frames_of(js2).subrange(t2, frames_of(js2).len() as int));
        if chunks.len() == 0 {
            assert(remaining.len() == 0);
            assert(t2 == frames_of(js2).len());
            if js2.len() > 0 {
                lemma_covered_bounds(js2.skip(1), t2 - (7 + js2[0].len()));
                assert(frames_of(js2) == frame_of(js2[0]) + frames_of(js2.skip(1)));
                assert(t2 >= 7 + js2[0].len());
                assert(covered(js2, t2) >= 1);
                assert(false);
            }
            assert(js2 =~= Seq::<Seq<u8>>::empty());
            assert(frames_of(js2).len() == 0);
            assert(resid(js, t) =~= Seq::<u8>::empty());
            assert(run_events(resid(js, t), chunks) =~= js2);
        } else {
            let c = chunks[0];
            assert(concat_all(chunks) == c + concat_all(chunks.skip(1)));
            let t1 = t2 + c.len();
            assert(frames_of(js2).len() == remaining.len() + t2);
            assert(t1 <= frames_of(js2).len());
            let b1 = resid(js, t) + c;
            assert(forall|k: int| 0 <= k < c.len() ==> c[k] == concat_all(chunks)[k]);
            assert(b1 =~= frames_of(js2).subrange(0, t1));
            lemma_drain_prefix(js2, t1);
            assert(drain(b1).0 == js2.subrange(0, covered(js2, t1)));
            assert(drain(b1).2 == resid(js2, t1));
            assert(concat_all(chunks.skip(1)).len() == remaining.len() - c.len());
            assert forall|k: int| 0 <= k < concat_all(chunks.skip(1)).len() implies concat_all(
                chunks.skip(1),
            )[k] == frames_of(js2).subrange(t1, frames_of(js2).len() as int)[k] by {
                assert(concat_all(chunks.skip(1))[k] == concat_all(chunks)[c.len() + k]);
                assert(concat_all(chunks)[c.len() + k] == remaining[c.len() + k]);
            }
            assert(concat_all(chunks.skip(1)) =~= frames_of(js2).subrange(
                t1,
                frames_of(js2).len() as int,
            ));
            lemma_run_resume(js2, t1, chunks.skip(1));
            assert(run_events(resid(js2, t1), chunks.skip(1)) == js2.skip(covered(js2, t1)));
            assert(run_events(resid(js, t), chunks) =~= js2.subrange(0, covered(js2, t1))
                + js2.skip(covered(js2, t1)));
            lemma_covered_bounds(js2, t1);
            assert(js2.subrange(0, covered(js2, t1)) + js2.skip(covered(js2, t1)) =~= js2);
            assert(run_events(resid(js, t), chunks) =~= js.skip(cov));
        }
    }
}

/// Order preservation: however a stream made of well-formed
/// `"data: {json}\n"` frames is cut into chunks, feeding the chunks and
/// draining after each one produces exactly the frames' payloads, in
/// their original order, with no fault and nothing left behind.
pub proof fn theorem_order_preservation(js: Seq<Seq<u8>>, chunks: Seq<Seq<u8>>)
    requires
        wf_payloads(js),
        concat_all(chunks) == frames_of(js),
    ensures
        run_events(Seq::<u8>::empty(), chunks) == js,
        run_faults(Seq::<u8>::empty(), chunks) == 0,
        run_rest(Seq::<u8>::empty(), chunks) == Seq::<u8>::empty(),
{
    assert(frames_of(js).subrange(0, frames_of(js).len() as int) =~= frames_of(js));
    lemma_run_resume(js, 0, chunks);
    assert(covered(js, 0) == 0);
    assert(js.skip(0) =~= js);
    if js.len() == 0 {
        assert(resid(js, 0) == Seq::<u8>::empty());
    } else {
        assert(resid(js, 0) =~= Seq::<u8>::empty());
    }
}

/// Non-data lines are inert: when the line at the front of the buffer
/// does not start with `"data: "`, a decode step neither produces an
/// event nor reports an error; a complete such line is discarded and a
/// partial one is left waiting.
pub proof fn lemma_non_data_skip(b: Seq<u8>)
    requires
        contains_nl(b) ==> !starts_with_data(b.subrange(0, first_nl(b))),
        !contains_nl(b) ==> !starts_with_data(b),
    ensures
        !(step_kind(b) is Emit),
        !(step_kind(b) is Fail),
        contains_nl(b) ==> step_kind(b) is Skip && step_buf(b) == b.subrange(
            first_nl(b) + 1,
            b.len() as int,
        ),
        !contains_nl(b) ==> step_kind(b) is Stuck && step_buf(b) == b,
{
    lemma_first_nl(b);
}

/// A complete frame whose payload is malformed (not merely truncated) is
/// consumed in one step that reports exactly one error, and decoding
/// continues with the bytes behind it.
pub proof fn lemma_malformed_frame_consumed(p: Seq<u8>, rest: Seq<u8>)
    requires
        !json_parses(p),
        !json_truncated(p),
        forall|k: int| 0 <= k < p.len() ==> p[k] != NL,
    ensures
        step_kind(frame_of(p) + rest) is Fail,
        step_buf(frame_of(p) + rest) == rest,
        drain(frame_of(p) + rest).0 == drain(rest).0,
        drain(frame_of(p) + rest).1 == 1 + drain(rest).1,
        drain(frame_of(p) + rest).2 == drain(rest).2,
{
    let b = frame_of(p) + rest;
    lemma_frame_bytes(p);
    let c0 = 6 + p.len() as int;
    assert(b[c0] == NL);
    assert(forall|k: int| 0 <= k < c0 ==> b[k] == frame_of(p)[k] && b[k] != NL);
    lemma_first_nl_is(b, c0);
    assert(contains_nl(b));
    let line = b.subrange(0, c0);
    assert(line =~= data_prefix() + p);
    assert(line.subrange(0, 6) =~= data_prefix());
    assert(starts_with_data(line));
    assert(b.subrange(6, c0) =~= p);
    assert(step_buf(b) =~= rest);
}

/// Decoding an empty buffer does nothing: it stays empty, no event and no
/// error is reported, and any number of repeated attempts drains to the
/// same empty state.
pub proof fn lemma_empty_buffer_idle()
    ensures
        step_kind(Seq::<u8>::empty()) is Stuck,
        step_buf(Seq::<u8>::empty()) == Seq::<u8>::empty(),
        drain(Seq::<u8>::empty()).0 == Seq::<Seq<u8>>::empty(),
        drain(Seq::<u8>::empty()).1 == 0,
        drain(Seq::<u8>::empty()).2 == Seq::<u8>::empty(),
{
}

/// Truncation tolerance: a single well-formed frame split into two chunks
/// at any point decodes to exactly its payload, with no error and no byte
/// lost, however the split falls - before the prefix is complete, inside
/// the JSON value, or right before the delimiter.
pub proof fn lemma_truncation_tolerance(j: Seq<u8>, m: int)
    requires
        wf_payload(j),
        0 <= m <= frame_of(j).len(),
    ensures
        run_events(
            Seq::<u8>::empty(),
            seq![
                frame_of(j).subrange(0, m),
                frame_of(j).subrange(m, frame_of(j).len() as int),
            ],
        ) == seq![j],
        run_faults(
            Seq::<u8>::empty(),
            seq![
                frame_of(j).subrange(0, m),
                frame_of(j).subrange(m, frame_of(j).len() as int),
            ],
        ) == 0,
{
    let a = frame_of(j).subrange(0, m);
    let z = frame_of(j).subrange(m, frame_of(j).len() as int);
    let chunks = seq![a, z];
    let js = seq![j];
    assert(wf_payloads(js));
    assert(chunks.skip(1) =~= seq![z]);
    assert(seq![z].skip(1) =~= Seq::<Seq<u8>>::empty());
    assert(concat_all(seq![z]) == z + concat_all(Seq::<Seq<u8>>::empty()));
    assert(concat_all(chunks) == a + (z + Seq::<u8>::empty()));
    assert(js.skip(1) =~= Seq::<Seq<u8>>::empty());
    assert(frames_of(js) == frame_of(j) + frames_of(Seq::<Seq<u8>>::empty()));
    assert(concat_all(chunks) =~= frames_of(js));
    theorem_order_preservation(js, chunks);
}

} // verus!
