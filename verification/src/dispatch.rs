//! The way in: from a request to a job in the queue.

use crate::job::Job;
use crate::message::MAX_PAYLOAD_LEN;
use crate::outcome::{Outcome, PushError, ValidationError};
use crate::queue::{DispatchQueue, Enqueued};
use crate::subscription::{subscription_fault, text_bytes, PushRequest, Subscription};
use vstd::prelude::*;

verus! {

/// The answer to a submission.
pub enum Submitted {
    /// The job is queued; its outcome will arrive on the receiver.
    Queued(tokio::sync::oneshot::Receiver<Outcome>),
    /// The queue is at capacity. The job and its receiver come back: the
    /// submitter waits for a free slot and offers the job again.
    Full(Job, tokio::sync::oneshot::Receiver<Outcome>),
    /// The queue is closed; the submission is refused.
    Closed,
}

/// `job` carries exactly what was submitted.
pub open spec fn carries(job: Job, subscription: Subscription, payload: Seq<u8>, ttl: Option<i64>) -> bool {
    job.subscription == subscription && job.payload@ == payload && job.ttl == ttl
}

/// Makes a job of what is submitted and offers it to the queue.
///
/// An open queue with a free slot takes the job at the back. A full queue
/// is left as it was and the job comes back whole. A closed queue is left
/// as it was.
pub fn submit(
    queue: &mut DispatchQueue,
    subscription: Subscription,
    payload: Vec<u8>,
    ttl: Option<i64>,
) -> (r: Submitted)
    requires
        old(queue).well_formed(),
    ensures
        final(queue).well_formed(),
        old(queue)@.accepts() ==> r is Queued && exists|job: Job|
            carries(job, subscription, payload@, ttl) && final(queue)@ == #[trigger] old(
                queue,
            )@.with(job),
        old(queue)@.full() ==> final(queue)@ == old(queue)@ && (r matches Submitted::Full(job, _)
            && carries(job, subscription, payload@, ttl)),
        old(queue)@.closed ==> final(queue)@ == old(queue)@ && r is Closed,
{
    let (job, receiver) = Job::new(subscription, payload, ttl);
    match queue.enqueue(job) {
        Enqueued::Accepted => Submitted::Queued(receiver),
        Enqueued::Full(job) => Submitted::Full(job, receiver),
        Enqueued::Closed(_) => Submitted::Closed,
    }
}

/// Offers a job that came back from a full queue once more.
pub fn resubmit(
    queue: &mut DispatchQueue,
    job: Job,
    receiver: tokio::sync::oneshot::Receiver<Outcome>,
) -> (r: Submitted)
    requires
        old(queue).well_formed(),
    ensures
        final(queue).well_formed(),
        final(queue)@ == old(queue)@.after_enqueue(job),
        old(queue)@.accepts() ==> r == Submitted::Queued(receiver),
        old(queue)@.full() ==> r == Submitted::Full(job, receiver),
        old(queue)@.closed ==> r is Closed,
{
    match queue.enqueue(job) {
        Enqueued::Accepted => Submitted::Queued(receiver),
        Enqueued::Full(job) => Submitted::Full(job, receiver),
        Enqueued::Closed(_) => Submitted::Closed,
    }
}

/// Submits without waiting: where the queue cannot take the job now, the
/// submission fails and the job is given up, `QueueFull` for a queue at
/// capacity and `QueueClosed` for a closed one. The queue changes only
/// where it accepts.
pub fn try_submit(
    queue: &mut DispatchQueue,
    subscription: Subscription,
    payload: Vec<u8>,
    ttl: Option<i64>,
) -> (r: Result<tokio::sync::oneshot::Receiver<Outcome>, PushError>)
    requires
        old(queue).well_formed(),
    ensures
        final(queue).well_formed(),
        old(queue)@.accepts() ==> r is Ok && exists|job: Job|
            carries(job, subscription, payload@, ttl) && final(queue)@ == #[trigger] old(
                queue,
            )@.with(job),
        old(queue)@.full() ==> final(queue)@ == old(queue)@ && r is Err && r->Err_0
            == PushError::QueueFull,
        old(queue)@.closed ==> final(queue)@ == old(queue)@ && r is Err && r->Err_0
            == PushError::QueueClosed,
{
    match submit(queue, subscription, payload, ttl) {
        Submitted::Queued(receiver) => Ok(receiver),
        Submitted::Full(_, _) => Err(PushError::QueueFull),
        Submitted::Closed => Err(PushError::QueueClosed),
    }
}

/// `job` carries exactly what `request` asks for: its own copy of the
/// subscription, the bytes of the sentence, and no time-to-live.
pub open spec fn job_of_request(job: Job, request: PushRequest) -> bool {
    &&& job.payload@ == text_bytes(request.sentence@)
    &&& job.ttl is None
    &&& job.subscription.endpoint_view() == request.endpoint@
    &&& job.subscription.p256dh_view() == request.keys.p256dh@
    &&& job.subscription.auth_view() == request.keys.auth@
}

/// Why a request is refused at the door: a malformed subscription first,
/// then a sentence of more bytes than a payload may have.
pub open spec fn request_fault(request: PushRequest) -> Option<ValidationError> {
    match subscription_fault(request.endpoint@, request.keys.p256dh@, request.keys.auth@) {
        Some(fault) => Some(fault),
        None => if text_bytes(request.sentence@).len() > MAX_PAYLOAD_LEN {
            Some(ValidationError::PayloadTooLarge)
        } else {
            None
        },
    }
}

/// Handles one push request: validates the subscription it names and the
/// size of its sentence, and submits the sentence for delivery, with no
/// time-to-live of its own.
///
/// A faulty request is refused with its validation error and the queue is
/// not touched. Otherwise an open queue with room takes the job at the
/// back; a full queue is left as it was and hands back the very job that
/// the request asks for; a closed queue is left as it was.
pub fn push(queue: &mut DispatchQueue, request: &PushRequest) -> (r: Result<Submitted, PushError>)
    requires
        old(queue).well_formed(),
    ensures
        final(queue).well_formed(),
        match request_fault(*request) {
            Some(fault) => r == Err::<Submitted, PushError>(PushError::Validation(fault))
                && final(queue)@ == old(queue)@,
            None => {
                &&& r matches Ok(submitted)
                &&& old(queue)@.accepts() ==> submitted is Queued && exists|job: Job|
                    #![trigger old(queue)@.with(job)]
                    final(queue)@ == old(queue)@.with(job) && job_of_request(job, *request)
                &&& old(queue)@.full() ==> final(queue)@ == old(queue)@ && (
                submitted matches Submitted::Full(job, _) && job_of_request(job, *request))
                &&& old(queue)@.closed ==> submitted is Closed && final(queue)@ == old(queue)@
            },
        },
{
    let subscription = match request.subscription() {
        Ok(subscription) => subscription,
        Err(fault) => {
            return Err(PushError::Validation(fault));
        },
    };
    let payload = request.payload();
    if payload.len() > MAX_PAYLOAD_LEN {
        return Err(PushError::Validation(ValidationError::PayloadTooLarge));
    }
    Ok(submit(queue, subscription, payload, None))
}

} // verus!
