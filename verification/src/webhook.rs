//! What the webhook answers.

use vstd::prelude::*;
use vstd::string::StringExecFns;

use crate::errors::Error;
use crate::identifier::{hyphenated, identifier_text, is_version7};
use crate::message::{Claim, Payload};
use crate::producer::send;
use crate::queue::{accepts, MessageView, Queue};
use crate::trace_context::{inject_spec, SpanContext};

verus! {

/// The largest body, in bytes, that the webhook reads.
pub const BODY_LIMIT: u64 = 4096;

/// The answer to a request that was put into the queue.
#[derive(Debug, PartialEq, Eq)]
pub struct Queued {
    /// Always `queued`.
    pub status: String,
    /// The identifier of the message, in its hyphenated form.
    pub id: String,
}

/// The answer to a request that failed.
#[derive(Debug, PartialEq, Eq)]
pub struct Failure {
    /// The HTTP status of the answer.
    pub code: u16,
    pub message: String,
}

/// The answer that tells the caller under which identifier its job is
/// queued.
pub fn queued(id: u128) -> (reply: Queued)
    ensures
        reply.status@ == "queued"@,
        reply.id@ == hyphenated(id),
{
    Queued { status: String::from_str("queued"), id: identifier_text(id) }
}

/// The answer to a request, given how the store answered the enqueue of
/// its message: the identifier under which the job is queued, or the failure
/// with the cause that the store gave.
pub fn answer(id: u128, sent: Result<(), String>) -> (reply: Result<Queued, Error>)
    ensures
        match sent {
            Ok(()) => reply matches Ok(queued) && queued.status@ == "queued"@ && queued.id@
                == hyphenated(id),
            Err(cause) => reply == Err::<Queued, Error>(Error::Queue(cause)),
        },
{
    match sent {
        Ok(()) => Ok(queued(id)),
        Err(cause) => Err(Error::Queue(cause)),
    }
}

/// Accepts the job of an authenticated request: puts it into the queue and
/// answers with the identifier of its message.
///
/// The answer is `Ok` exactly when the store accepts the message; then the
/// store holds the message, once, with `context` in its properties. When it
/// does not, the caller gets the failure and the store holds no trace of the
/// job.
pub fn run_ocr<Q: Queue>(claim: Claim, payload: Payload, queue: &mut Q, context: &SpanContext) -> (reply:
    Result<Queued, Error>)
    requires
        old(queue).well_formed(),
    ensures
        final(queue).well_formed(),
        reply is Ok <==> accepts(old(queue)),
        reply matches Ok(queued) ==> queued.status@ == "queued"@ && final(queue).room() == old(
            queue).room() - 1 && exists|id: u128, receipt: Q::Receipt|
            {
                &&& is_version7(id)
                &&& queued.id@ == hyphenated(id)
                &&& !old(queue).model().holds(receipt)
                &&& final(queue).model() == old(queue).model().enqueued(
                    receipt,
                    MessageView {
                        id,
                        properties: inject_spec(context@),
                        payload: payload@,
                        claim,
                    },
                )
            },
        reply matches Err(error) ==> error matches Error::Queue(cause) && cause@
            == "queue unavailable"@ && final(queue).model() == old(queue).model() && final(
            queue).room() == old(queue).room(),
{
    let ghost sent_payload = payload@;
    match send(queue, payload, claim, context) {
        Ok(id) => {
            proof {
                let receipt = choose|receipt: Q::Receipt|
                    !old(queue).model().holds(receipt) && queue.model() == old(
                        queue).model().enqueued(
                        receipt,
                        MessageView {
                            id,
                            properties: inject_spec(context@),
                            payload: sent_payload,
                            claim,
                        },
                    );
                assert(queue.model() == old(queue).model().enqueued(
                    receipt,
                    MessageView {
                        id,
                        properties: inject_spec(context@),
                        payload: sent_payload,
                        claim,
                    },
                ));
            }
            answer(id, Ok(()))
        },
        Err(error) => Err(error),
    }
}

/// The answer to any request that was rejected or failed: an internal
/// server error, whatever the reason.
pub fn handle_error() -> (reply: Failure)
    ensures
        reply.code == 500,
        reply.message@ == "Internal Server Error"@,
{
    Failure { code: 500, message: String::from_str("Internal Server Error") }
}

} // verus!
