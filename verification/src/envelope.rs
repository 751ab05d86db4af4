//! `Envelope<T>`: the mandatory wrapper of every bus payload.
//!
//! Every message carries a `correlation_id` for cross-service tracing, a
//! `parent_span_id` for causal chains, a timestamp and the identifier of the
//! service that emitted it.
use vstd::prelude::*;

use uuid::Uuid;

use crate::clock::{utc_now, UtcTimestamp};

verus! {

/// `uuid::Uuid`, carried through opaquely: no logic of this crate reads
/// inside an identifier, it only copies and compares whole values.
#[verifier::external_type_specification]
#[verifier::external_body]
pub struct ExUuid(Uuid);

/// `Clone` of `uuid::Uuid`, which derives `Clone` beside `Copy`: the copy
/// is the same identifier.
pub assume_specification[ <Uuid as Clone>::clone ](id: &Uuid) -> (copy: Uuid)
    ensures
        copy == *id,
;

/// Correlation identifier of a cross-service trace.
pub type CorrelationId = Uuid;

/// Identifier of a service (e.g. "nexox-controller", "minox-scheduler").
pub type ServiceId = String;

/// Calls `uuid::Uuid::new_v4`, which draws a random version-4 UUID from the
/// operating system's generator.  Nothing is stated of the result: it is
/// random (and `new_v4` panics only if the system generator fails).
#[verifier::external_body]
fn fresh_uuid() -> (id: Uuid) {
    Uuid::new_v4()
}

/// Mandatory wrapper for all bus payloads. No bare payloads allowed.
#[derive(Debug)]
pub struct Envelope<T> {
    pub correlation_id: CorrelationId,
    pub parent_span_id: Option<Uuid>,
    pub emitted_at: UtcTimestamp,
    pub source_service: ServiceId,
    pub payload: T,
}

impl<T: Clone> Clone for Envelope<T> {
    /// A copy of the envelope; the identifiers and the timestamp are copied
    /// as they are.
    fn clone(&self) -> (env: Self)
        ensures
            env.correlation_id == self.correlation_id,
            env.parent_span_id == self.parent_span_id,
            env.emitted_at == self.emitted_at,
            env.source_service == self.source_service,
            cloned::<T>(self.payload, env.payload),
    {
        Envelope {
            correlation_id: self.correlation_id,
            parent_span_id: self.parent_span_id,
            emitted_at: self.emitted_at,
            source_service: self.source_service.clone(),
            payload: self.payload.clone(),
        }
    }
}

/// What an envelope says of its place in a trace: its correlation id and
/// its causal parent span.  Envelopes with payloads of different types
/// share this part, so a chain of them is a sequence of heads.
pub struct TraceHead {
    pub correlation_id: CorrelationId,
    pub parent_span_id: Option<Uuid>,
}

impl<T> Envelope<T> {
    /// The trace head of this envelope.
    pub open spec fn head(&self) -> TraceHead {
        TraceHead { correlation_id: self.correlation_id, parent_span_id: self.parent_span_id }
    }
}

/// `child` continues `parent`'s trace and names the parent's correlation id
/// as its causal parent span.
pub open spec fn continues(child: TraceHead, parent: TraceHead) -> bool {
    &&& child.correlation_id == parent.correlation_id
    &&& child.parent_span_id == Some(parent.correlation_id)
}

/// `child` was derived from `parent` (as `Envelope::child` makes it).
pub open spec fn derived_from<T, U>(child: Envelope<T>, parent: Envelope<U>) -> bool {
    continues(child.head(), parent.head())
}

impl<T> Envelope<T> {
    /// Create a new Envelope with a fresh correlation_id and current timestamp.
    ///
    /// The new envelope starts a trace: it has no parent span.
    pub fn new(source_service: &str, payload: T) -> (env: Self)
        ensures
            env.parent_span_id is None,
            env.emitted_at.secs >= 0,
            env.emitted_at.nanos < 1_000_000_000,
            env.source_service@ == source_service@,
            env.payload == payload,
    {
        Envelope {
            correlation_id: fresh_uuid(),
            parent_span_id: None,
            emitted_at: utc_now(),
            source_service: source_service.to_string(),
            payload,
        }
    }

    /// Create a child envelope that inherits the parent's correlation_id.
    pub fn child<U>(parent: &Envelope<U>, source_service: &str, payload: T) -> (env: Self)
        ensures
            derived_from(env, *parent),
            env.emitted_at.secs >= 0,
            env.emitted_at.nanos < 1_000_000_000,
            env.source_service@ == source_service@,
            env.payload == payload,
    {
        Envelope {
            correlation_id: parent.correlation_id,
            parent_span_id: Some(parent.correlation_id),
            emitted_at: utc_now(),
            source_service: source_service.to_string(),
            payload,
        }
    }
}

/// Along a causal chain of envelopes of any length, each made with
/// `Envelope::child` from the one before (payload types may differ from
/// step to step, so the chain is given by its trace heads), every envelope
/// keeps the correlation id of the first, and every one after the first
/// names it as its parent span: a trace is never split, however many
/// services relay it.
pub proof fn lemma_trace_chain(chain: Seq<TraceHead>)
    requires
        forall|k: int| 0 <= k < chain.len() - 1 ==> continues(#[trigger] chain[k + 1], chain[k]),
    ensures
        forall|k: int| 0 <= k < chain.len() ==> #[trigger] chain[k].correlation_id == chain[0].correlation_id,
        forall|k: int|
            0 < k < chain.len() ==> #[trigger] chain[k].parent_span_id == Some(chain[0].correlation_id),
    decreases chain.len(),
{
    if chain.len() > 1 {
        let front = chain.drop_last();
        assert forall|k: int| 0 <= k < front.len() - 1 implies continues(#[trigger] front[k + 1], front[k]) by {
            assert(front[k + 1] == chain[k + 1]);
            assert(front[k] == chain[k]);
        }
        lemma_trace_chain(front);
        let last = chain.len() - 1;
        assert(front[last - 1] == chain[last - 1]);
        let prev = last - 1;
        assert(continues(chain[prev + 1], chain[prev]));
        assert(chain[prev + 1] == chain[last]);
        assert forall|k: int| 0 <= k < chain.len() implies #[trigger] chain[k].correlation_id == chain[0].correlation_id by {
            if k < last {
                assert(front[k] == chain[k]);
            }
        }
        assert forall|k: int| 0 < k < chain.len() implies #[trigger] chain[k].parent_span_id == Some(chain[0].correlation_id) by {
            if k < last {
                assert(front[k] == chain[k]);
            }
        }
    }
}

/// The same law for envelopes of one payload type: along a chain made by
/// `Envelope::child`, every envelope keeps the first one's correlation id.
pub proof fn lemma_envelope_chain<T>(chain: Seq<Envelope<T>>)
    requires
        forall|k: int| 0 <= k < chain.len() - 1 ==> derived_from(#[trigger] chain[k + 1], chain[k]),
    ensures
        forall|k: int| 0 <= k < chain.len() ==> #[trigger] chain[k].correlation_id == chain[0].correlation_id,
        forall|k: int|
            0 < k < chain.len() ==> #[trigger] chain[k].parent_span_id == Some(chain[0].correlation_id),
{
    let heads = chain.map_values(|e: Envelope<T>| e.head());
    assert forall|k: int| 0 <= k < heads.len() - 1 implies continues(#[trigger] heads[k + 1], heads[k]) by {
        assert(derived_from(chain[k + 1], chain[k]));
    }
    lemma_trace_chain(heads);
    assert forall|k: int| 0 <= k < chain.len() implies #[trigger] chain[k].correlation_id == chain[0].correlation_id by {
        assert(heads[k].correlation_id == heads[0].correlation_id);
    }
    assert forall|k: int| 0 < k < chain.len() implies #[trigger] chain[k].parent_span_id == Some(chain[0].correlation_id) by {
        assert(heads[k].parent_span_id == Some(heads[0].correlation_id));
    }
}

} // verus!
