//! The per-shard session engine.
//!
//! One session owns the readiness lifecycle of one upstream shard:
//! frames drive a two-state machine (NotReady / Ready), a synthetic
//! "session established" snapshot is fabricated from the first READY,
//! ordinary dispatch frames are relayed only while Ready, and a
//! session invalidation suspends relay — clearing the snapshot only
//! when the invalidation is not resumable.

use vstd::prelude::*;

use crate::bus::Bus;
use crate::cache::Guilds;
use crate::envelope::Envelope;
use crate::envelope::OP_DISPATCH;
use crate::envelope::OP_INVALIDATE_SESSION;
use crate::envelope::envelope_of_doc;
use crate::envelope::spec_envelope;
use crate::json::JsonField;
use crate::json::JsonValue;
use crate::json::json_of;
use crate::json::lookup;
use crate::json::parse_json;
use crate::json::set_field;

verus! {

/// One relayed frame: the exact upstream text and its sequence number.
pub struct BroadcastMessage {
    pub payload: String,
    pub sequence: Option<i64>,
}

/// What one frame did: the message to fan out, if any, and the event
/// name to count, if the frame carried one.
pub struct FrameOutcome {
    pub relay: Option<BroadcastMessage>,
    pub event_name: Option<String>,
}

/// The envelope the frame text decodes to, if any.
pub open spec fn frame_envelope(raw: Seq<char>) -> Option<Envelope> {
    spec_envelope(json_of(raw))
}

/// Whether the frame carries the event type `name`.
pub open spec fn is_event(raw: Seq<char>, name: Seq<char>) -> bool {
    frame_envelope(raw) matches Some(e) && (e.event_type matches Some(t) && t@ == name)
}

/// The members of the frame's payload body, when the frame decodes and
/// the body is an object.
pub open spec fn frame_body(raw: Seq<char>) -> Option<Seq<JsonField>> {
    match json_of(raw) {
        Some(JsonValue::Obj(fields)) => match lookup(fields@, "d"@) {
            Some(JsonValue::Obj(body)) => Some(body@),
            _ => None,
        },
        _ => None,
    }
}

/// A frame establishes a session when it is a READY whose body can be
/// read; only then is there anything to fabricate a snapshot from.
pub open spec fn establishes_session(raw: Seq<char>) -> bool {
    is_event(raw, "READY"@) && frame_body(raw) is Some
}

/// The invalidation a frame signals: `Some(resumable)` for a
/// well-formed invalidate-session frame, `None` otherwise.
pub open spec fn spec_invalidation(raw: Seq<char>) -> Option<bool> {
    if frame_envelope(raw) matches Some(e) && e.op == OP_INVALIDATE_SESSION {
        match frame_body_value(raw) {
            Some(JsonValue::Bool(b)) => Some(b),
            _ => None,
        }
    } else {
        None
    }
}

/// The frame's raw `d` member, whatever its shape.
pub open spec fn frame_body_value(raw: Seq<char>) -> Option<JsonValue> {
    match json_of(raw) {
        Some(JsonValue::Obj(fields)) => lookup(fields@, "d"@),
        _ => None,
    }
}

/// Whether a frame arriving in readiness state `pre` is relayed: only
/// ordinary dispatch frames, never READY or RESUMED themselves, and
/// never while NotReady.
pub open spec fn spec_relays(pre: bool, raw: Seq<char>) -> bool {
    &&& pre
    &&& frame_envelope(raw) matches Some(e) && {
        &&& e.op == OP_DISPATCH
        &&& e.event_type matches Some(t) && t@ != "READY"@ && t@ != "RESUMED"@
    }
}

/// The readiness state after one frame: an invalidation always
/// suspends relay; READY (with a readable body) and RESUMED restore
/// it; every other frame leaves it alone.
pub open spec fn spec_step_ready(pre: bool, raw: Seq<char>) -> bool {
    if spec_invalidation(raw) is Some {
        false
    } else if establishes_session(raw) || is_event(raw, "RESUMED"@) {
        true
    } else {
        pre
    }
}

/// What the fabricated snapshot holds, given the upstream body it was
/// derived from: bulk guild data is dropped, the resume address is
/// rewritten to the relay's own, and everything else is carried
/// through unchanged.
pub open spec fn spec_synthetic(body: Seq<JsonField>, url: Seq<char>, result: Seq<JsonField>) -> bool {
    &&& lookup(result, "guilds"@) matches Some(g) && (g matches JsonValue::Arr(a) && a@.len()
        == 0)
    &&& lookup(result, "resume_gateway_url"@) matches Some(u) && (u matches JsonValue::Str(s)
        && s@ == url)
    &&& forall|k: Seq<char>|
        k != "guilds"@ && k != "resume_gateway_url"@ ==> lookup(result, k) == lookup(body, k)
}

/// One upstream shard session.
pub struct ShardSession {
    pub shard_id: u32,
    pub relay_url: String,
    pub is_ready: bool,
    pub ready_state: Option<Vec<JsonField>>,
    pub sequence: u64,
    pub last_sample_ms: u64,
    pub guilds: Guilds,
}

impl ShardSession {
    /// A fresh session: NotReady, no snapshot, sequence space at its
    /// origin, the telemetry clock primed to the construction instant.
    pub fn new(shard_id: u32, relay_url: String, start_ms: u64) -> (s: Self)
        ensures
            s.shard_id == shard_id,
            s.relay_url == relay_url,
            !s.is_ready,
            s.ready_state is None,
            s.sequence == 0,
            s.last_sample_ms == start_ms,
    {
        ShardSession {
            shard_id,
            relay_url,
            is_ready: false,
            ready_state: None,
            sequence: 0,
            last_sample_ms: start_ms,
            guilds: Guilds::new(),
        }
    }

    /// Feed one text frame through the state machine.
    ///
    /// A frame that does not decode is discarded without any effect: a
    /// malformed frame never terminates the session.
    pub fn handle_frame(&mut self, raw: &str) -> (out: FrameOutcome)
        ensures
            final(self).shard_id == old(self).shard_id,
            final(self).relay_url == old(self).relay_url,
            final(self).sequence == old(self).sequence,
            final(self).last_sample_ms == old(self).last_sample_ms,
            final(self).is_ready == spec_step_ready(old(self).is_ready, raw@),
            // A non-resumable invalidation clears the snapshot.
            spec_invalidation(raw@) == Some(false) ==> final(self).ready_state is None,
            // A readable READY publishes the fabricated snapshot.
            establishes_session(raw@) && spec_invalidation(raw@) != Some(false) ==> (final(self).ready_state matches Some(b) && spec_synthetic(frame_body(raw@).unwrap(), old(self).relay_url@, b@)),
            // Every other frame leaves the snapshot alone.
            !establishes_session(raw@) && spec_invalidation(raw@) != Some(false)
                ==> final(self).ready_state == old(self).ready_state,
            // Relay happens exactly for dispatch frames seen while Ready,
            // and hands on the frame text and its sequence unchanged.
            (out.relay is Some) == spec_relays(old(self).is_ready, raw@),
            out.relay matches Some(m) ==> m.payload@ == raw@ && (frame_envelope(raw@) matches Some(
                e,
            ) ==> m.sequence == e.sequence),
            out.event_name matches Some(n) ==> (frame_envelope(raw@) matches Some(e)
                && e.event_type matches Some(t) && n@ == t@),
            frame_envelope(raw@) matches Some(e) && e.event_type is Some ==> out.event_name
                is Some,
    {
        proof {
            reveal_strlit("READY");
            reveal_strlit("RESUMED");
            reveal_strlit("guilds");
            reveal_strlit("resume_gateway_url");
            // The four key literals are pairwise distinct; their
            // lengths are enough for the solver to see it.
            assert("READY"@.len() == 5);
            assert("RESUMED"@.len() == 7);
            assert("guilds"@.len() == 6);
            assert("resume_gateway_url"@.len() == 18);
        }
        let mut out = FrameOutcome { relay: None, event_name: None };

        let doc = match parse_json(raw) {
            Some(doc) => doc,
            None => {
                return out;
            },
        };

        let env = match envelope_of_doc(&doc) {
            Some(env) => env,
            None => {
                return out;
            },
        };

        // An invalidate-session frame carries its resumability as a
        // plain boolean body.
        let invalidation: Option<bool> = if env.op == OP_INVALIDATE_SESSION {
            match &doc {
                JsonValue::Obj(fields) => {
                    let d_key = String::from_str("d");
                    match crate::json::get_field(fields, &d_key) {
                        Some(v) => match v {
                            JsonValue::Bool(b) => Some(*b),
                            _ => None,
                        },
                        None => None,
                    }
                },
                _ => None,
            }
        } else {
            None
        };
        match &env.event_type {
            Some(name) => {
                out.event_name = Some(name.clone());

                let ready_name = String::from_str("READY");
                let resumed_name = String::from_str("RESUMED");
                if *name == ready_name {
                    // Use the upstream READY body to fabricate the
                    // subscriber-facing snapshot.
                    let body_opt: Option<Vec<JsonField>> = match doc {
                        JsonValue::Obj(fields) => {
                            let mut fields = fields;
                            let d_key = String::from_str("d");
                            match crate::json::take_field(&mut fields, &d_key) {
                                Some(v) => match v {
                                    JsonValue::Obj(body) => Some(body),
                                    _ => None,
                                },
                                None => None,
                            }
                        },
                        _ => None,
                    };
                    match body_opt {
                        Some(body) => {
                            let mut body = body;
                            set_field(
                                &mut body,
                                String::from_str("guilds"),
                                JsonValue::Arr(Vec::new()),
                            );
                            let url = self.relay_url.clone();
                            set_field(
                                &mut body,
                                String::from_str("resume_gateway_url"),
                                JsonValue::Str(url),
                            );
                            self.ready_state = Some(body);
                            self.is_ready = true;
                        },
                        None => {},
                    }
                } else if *name == resumed_name {
                    // The previously published snapshot stays valid.
                    self.is_ready = true;
                } else if env.op == OP_DISPATCH {
                    // State tracking continues whether or not relay is
                    // suspended.
                    self.guilds.update(&env);
                    if self.is_ready {
                        out.relay = Some(
                            BroadcastMessage { payload: raw.to_owned(), sequence: env.sequence },
                        );
                    }
                }
            },
            None => {},
        }

        match invalidation {
            Some(resumable) => {
                if !resumable {
                    // Only a fresh session will follow: the snapshot
                    // no longer describes anything a newcomer may see.
                    self.ready_state = None;
                }
                // Suspend relay until READY or RESUMED is seen again.
                self.is_ready = false;
            },
            None => {},
        }

        out
    }
}

/// What the transport handed the loop, beyond an ordinary text frame.
pub enum StreamItem {
    /// A text frame arrived; feed it to the session.
    Frame,
    /// The transport delivered a close message.
    Close,
    /// Reading one frame failed; the stream itself goes on.
    Faulty,
    /// The stream is exhausted.
    Ended,
}

/// What the loop does with one stream item.
pub enum LoopAction {
    /// Process the frame.
    Process,
    /// Skip this item and read the next frame.
    Skip,
    /// Leave the loop; this shard is done.
    Exit,
}

/// The loop's reaction to a stream item: a close message ends the loop
/// only during shutdown, a faulty read never does, an exhausted stream
/// always does.
pub open spec fn spec_loop_decision(item: StreamItem, shutdown: bool) -> LoopAction {
    match item {
        StreamItem::Frame => LoopAction::Process,
        StreamItem::Close => if shutdown {
            LoopAction::Exit
        } else {
            LoopAction::Skip
        },
        StreamItem::Faulty => LoopAction::Skip,
        StreamItem::Ended => LoopAction::Exit,
    }
}

/// Decide what the read loop does with one stream item.
pub fn loop_decision(item: &StreamItem, shutdown: bool) -> (r: LoopAction)
    ensures
        r == spec_loop_decision(*item, shutdown),
{
    match item {
        StreamItem::Frame => LoopAction::Process,
        StreamItem::Close => if shutdown {
            LoopAction::Exit
        } else {
            LoopAction::Skip
        },
        StreamItem::Faulty => LoopAction::Skip,
        StreamItem::Ended => LoopAction::Exit,
    }
}

/// The readiness state after a whole sequence of frames.
pub open spec fn ready_after(pre: bool, frames: Seq<Seq<char>>) -> bool
    decreases frames.len(),
{
    if frames.len() == 0 {
        pre
    } else {
        ready_after(spec_step_ready(pre, frames[0]), frames.drop_first())
    }
}

/// The sequence number a relayed frame carries.
pub open spec fn relay_sequence(raw: Seq<char>) -> Option<i64> {
    frame_envelope(raw).unwrap().sequence
}

/// Everything a session starting in readiness state `pre` relays out
/// of `frames`, in receive order: each entry is the frame's exact text
/// with its sequence number.
pub open spec fn relayed_of(pre: bool, frames: Seq<Seq<char>>) -> Seq<(Seq<char>, Option<i64>)>
    decreases frames.len(),
{
    if frames.len() == 0 {
        Seq::empty()
    } else {
        let rest = relayed_of(spec_step_ready(pre, frames[0]), frames.drop_first());
        if spec_relays(pre, frames[0]) {
            seq![(frames[0], relay_sequence(frames[0]))] + rest
        } else {
            rest
        }
    }
}

/// Unroll one frame off the back of a batch.
proof fn lemma_relayed_snoc(pre: bool, frames: Seq<Seq<char>>, f: Seq<char>)
    ensures
        ready_after(pre, frames.push(f)) == spec_step_ready(ready_after(pre, frames), f),
        relayed_of(pre, frames.push(f)) == relayed_of(pre, frames) + (if spec_relays(
            ready_after(pre, frames),
            f,
        ) {
            seq![(f, relay_sequence(f))]
        } else {
            Seq::<(Seq<char>, Option<i64>)>::empty()
        }),
    decreases frames.len(),
{
    if frames.len() == 0 {
        reveal_with_fuel(relayed_of, 3);
        reveal_with_fuel(ready_after, 3);
        assert(frames.push(f)[0] == f);
        assert(frames.push(f).drop_first() =~= Seq::<Seq<char>>::empty());
        assert(relayed_of(pre, frames) =~= Seq::<(Seq<char>, Option<i64>)>::empty());
        if spec_relays(pre, f) {
            assert(relayed_of(pre, frames.push(f)) =~= seq![(f, relay_sequence(f))]);
            assert(relayed_of(pre, frames) + seq![(f, relay_sequence(f))] =~= seq![
                (f, relay_sequence(f)),
            ]);
        } else {
            assert(relayed_of(pre, frames.push(f)) =~= Seq::<(Seq<char>, Option<i64>)>::empty());
            assert(relayed_of(pre, frames) + Seq::<(Seq<char>, Option<i64>)>::empty()
                =~= Seq::<(Seq<char>, Option<i64>)>::empty());
        }
    } else {
        assert(frames.push(f)[0] == frames[0]);
        assert(frames.push(f).drop_first() =~= frames.drop_first().push(f));
        lemma_relayed_snoc(spec_step_ready(pre, frames[0]), frames.drop_first(), f);
        assert(relayed_of(pre, frames.push(f)) =~= relayed_of(pre, frames) + (if spec_relays(
            ready_after(pre, frames),
            f,
        ) {
            seq![(f, relay_sequence(f))]
        } else {
            Seq::<(Seq<char>, Option<i64>)>::empty()
        }));
    }
}

/// While the readiness state never becomes Ready, nothing is relayed:
/// a batch of frames none of which is READY or RESUMED produces no
/// output from a NotReady session.
pub proof fn lemma_no_relay_while_not_ready(frames: Seq<Seq<char>>)
    requires
        forall|i: int|
            0 <= i < frames.len() ==> !establishes_session(frames[i]) && !is_event(
                frames[i],
                "RESUMED"@,
            ),
    ensures
        relayed_of(false, frames).len() == 0,
    decreases frames.len(),
{
    if frames.len() != 0 {
        assert(!spec_relays(false, frames[0]));
        assert(spec_step_ready(false, frames[0]) == false);
        assert(forall|i: int|
            0 <= i < frames.drop_first().len() ==> frames.drop_first()[i] == frames[i + 1]);
        lemma_no_relay_while_not_ready(frames.drop_first());
    }
}

impl ShardSession {
    /// The snapshot a newly attaching subscriber is handed, if one is
    /// published.
    pub fn ready_snapshot(&self) -> (r: &Option<Vec<JsonField>>)
        ensures
            r == &self.ready_state,
    {
        &self.ready_state
    }

    /// Feed a batch of frames in receive order, publishing every
    /// relayed frame on the shard's bus.
    ///
    /// Dispatch frames reach the bus exactly in receive order — the
    /// published tail is `relayed_of` over the batch — and no frame is
    /// relayed from a NotReady state.
    pub fn relay_all(&mut self, frames: &Vec<String>, bus: &mut Bus)
        requires
            old(bus).wf(),
            old(bus).published().len() + frames@.len() <= u64::MAX,
        ensures
            final(bus).wf(),
            final(self).relay_url == old(self).relay_url,
            final(self).sequence == old(self).sequence,
            final(self).is_ready == ready_after(
                old(self).is_ready,
                frames@.map_values(|s: String| s@),
            ),
            final(bus).published().len() == old(bus).published().len() + relayed_of(
                old(self).is_ready,
                frames@.map_values(|s: String| s@),
            ).len(),
            forall|i: int|
                0 <= i < old(bus).published().len() ==> final(bus).published()[i] == old(
                    bus,
                ).published()[i],
            forall|i: int|
                0 <= i < relayed_of(old(self).is_ready, frames@.map_values(|s: String| s@)).len()
                    ==> {
                    let m = #[trigger] final(bus).published()[old(bus).published().len() + i];
                    let e = relayed_of(old(self).is_ready, frames@.map_values(|s: String| s@))[i];
                    m.payload@ == e.0 && m.sequence == e.1
                },
    {
        let ghost pre0 = old(self).is_ready;
        let ghost gv = frames@.map_values(|s: String| s@);
        let ghost pub0 = old(bus).published();
        let n = frames.len();
        let mut i: usize = 0;
        while i < n
            invariant
                n == frames.len(),
                i <= n,
                gv == frames@.map_values(|s: String| s@),
                pre0 == old(self).is_ready,
                pub0 == old(bus).published(),
                pub0.len() + frames@.len() <= u64::MAX,
                bus.wf(),
                self.relay_url == old(self).relay_url,
                self.sequence == old(self).sequence,
                self.is_ready == ready_after(pre0, gv.take(i as int)),
                bus.published().len() == pub0.len() + relayed_of(pre0, gv.take(i as int)).len(),
                bus.published().len() <= pub0.len() + i,
                forall|j: int| 0 <= j < pub0.len() ==> bus.published()[j] == pub0[j],
                forall|j: int|
                    0 <= j < relayed_of(pre0, gv.take(i as int)).len() ==> {
                        let m = #[trigger] bus.published()[pub0.len() + j];
                        let e = relayed_of(pre0, gv.take(i as int))[j];
                        m.payload@ == e.0 && m.sequence == e.1
                    },
            decreases n - i,
        {
            let ghost taken = gv.take(i as int);
            let out = self.handle_frame(frames[i].as_str());
            proof {
                lemma_relayed_snoc(pre0, taken, gv[i as int]);
                assert(taken.push(gv[i as int]) =~= gv.take(i as int + 1));
            }
            match out.relay {
                Some(m) => {
                    bus.publish(m);
                },
                None => {},
            }
            i = i + 1;
        }
        proof {
            assert(gv.take(n as int) =~= gv);
        }
    }
}

} // verus!
