//! The producer: from an accepted request to a message in the store.

use vstd::prelude::*;
use vstd::string::StringExecFns;

use crate::errors::Error;
use crate::identifier::{is_version7, uuid_now};
use crate::message::{Claim, Payload};
use crate::queue::{accepts, Message, MessageView, Queue};
use crate::trace_context::{distinct_keys, extract_spec, inject, inject_spec, SpanContext};

verus! {

/// The message that carries a job: a fresh identifier of version 7, the
/// trace context of the request as properties, and payload and claim as they
/// came. No property key occurs twice, and a valid context reads back from
/// the properties as it was written.
pub fn new_message(payload: Payload, claim: Claim, context: &SpanContext) -> (message: Message)
    ensures
        is_version7(message.id),
        message.properties.deep_view() == inject_spec(context@),
        distinct_keys(message.properties.deep_view()),
        extract_spec(message.properties.deep_view()) == if context@.is_valid() {
            Some(context@.written())
        } else {
            None
        },
        message.payload == payload,
        message.claim == claim,
{
    Message { id: uuid_now(), properties: inject(context), payload, claim }
}

/// Puts a job into the queue and returns the identifier of its message.
///
/// The message gets a fresh identifier and carries `context`, the trace
/// context of the request, in its properties. The job is in the store, once,
/// when this returns `Ok`. When the store does not accept it the failure is
/// returned at once, nothing is retried, and the store holds what it held
/// before.
pub fn send<Q: Queue>(queue: &mut Q, payload: Payload, claim: Claim, context: &SpanContext) -> (sent:
    Result<u128, Error>)
    requires
        old(queue).well_formed(),
    ensures
        final(queue).well_formed(),
        sent is Ok <==> accepts(old(queue)),
        sent matches Ok(id) ==> is_version7(id) && final(queue).room() == old(queue).room() - 1
            && exists|receipt: Q::Receipt|
            !old(queue).model().holds(receipt) && final(queue).model() == old(
                queue).model().enqueued(
                receipt,
                MessageView {
                    id,
                    properties: inject_spec(context@),
                    payload: payload@,
                    claim,
                },
            ),
        sent matches Err(error) ==> error matches Error::Queue(cause) && cause@
            == "queue unavailable"@ && final(queue).model() == old(queue).model() && final(
            queue).room() == old(queue).room(),
{
    let message = new_message(payload, claim, context);
    let id = message.id;
    match queue.enqueue(message) {
        Ok(()) => Ok(id),
        Err(_) => Err(Error::Queue(String::from_str("queue unavailable"))),
    }
}

} // verus!
