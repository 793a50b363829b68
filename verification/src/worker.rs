//! The worker: one job at a time, from the queue to an outcome.

use crate::job::{Job, Resolution};
use crate::message::{
    build_message, carries_token, check_message, message_fault, ttl_of, SignedMessage,
    MAX_PAYLOAD_LEN,
};
use crate::outcome::{
    classify_response, outcome_of_response, DeliveryResponse, Outcome, PushError, SignatureError,
    ValidationError,
};
use crate::queue::{Dequeued, DispatchQueue, QueueView};
use crate::subscription::Subscription;
use crate::signer::{
    any_reserved, is_signer_error, issue_token, public_key_of, signing_fault, Claim, SigningKey,
    MAX_TOKEN_LIFETIME,
};
use vstd::prelude::*;

verus! {

/// What the sender is configured with.
#[derive(Clone, Debug)]
pub struct SenderConfig {
    /// The contact of the sender, signed as the subject of every token.
    pub contact: String,
    /// The sender's own claims, signed into every token.
    pub claims: Vec<Claim>,
    /// The time-to-live, in seconds, of a job that names none.
    pub default_ttl: u32,
    /// How long a token stays valid after it is issued, in seconds.
    pub token_lifetime: u64,
}

impl SenderConfig {
    /// Tests, at start-up, what every job would otherwise fail on: a token
    /// lifetime of nothing or beyond the allowed window, or a claim under a
    /// reserved name.
    pub fn check(&self) -> (r: Result<(), SignatureError>)
        ensures
            match signing_fault(self.claims@, 0, self.token_lifetime) {
                Some(fault) => r == Err::<(), SignatureError>(fault),
                None => r is Ok,
            },
    {
        if self.token_lifetime == 0 || self.token_lifetime > MAX_TOKEN_LIFETIME {
            Err(SignatureError::InvalidExpiry)
        } else if any_reserved(&self.claims) {
            Err(SignatureError::InvalidClaims)
        } else {
            Ok(())
        }
    }
}

/// The error on which a job fails before its key or its subscriber's keys
/// are touched, if any: the payload and the time-to-live are judged first,
/// then the token's expiry and claims.
pub open spec fn job_fault(
    payload: Seq<u8>,
    ttl: Option<i64>,
    config: SenderConfig,
    now: u64,
) -> Option<PushError> {
    match message_fault(payload, ttl, config.default_ttl) {
        Some(fault) => Some(fault),
        None => match signing_fault(config.claims@, now, config.token_lifetime) {
            Some(fault) => Some(PushError::Signature(fault)),
            None => None,
        },
    }
}

/// A message that was made of the job's payload for the job's
/// subscription: it goes to the subscription's endpoint with the job's
/// time-to-live, its body is longer than the payload, and it carries a
/// token together with the public key of the sender's key.
pub open spec fn message_for(
    message: SignedMessage,
    subscription: Subscription,
    payload: Seq<u8>,
    ttl: Option<i64>,
    config: SenderConfig,
    key: SigningKey,
) -> bool {
    &&& message.endpoint@ == subscription.endpoint_view()
    &&& ttl_of(ttl, config.default_ttl) == Ok::<u32, ValidationError>(message.ttl)
    &&& message.body@.len() > payload.len()
    &&& exists|token: Seq<char>|
        token.len() > 0 && #[trigger] carries_token(
            message.authorization@,
            token,
            public_key_of(key.pem_view()),
        )
}

/// The errors that a job without fault can still end in: those of the
/// signer, and a failure of the cipher.
pub open spec fn is_outside_failure(error: PushError) -> bool {
    is_signer_error(error) || error == PushError::Encryption
}

/// Builds and signs the message for one job.
///
/// A job with a fault fails on it, and nothing is signed or encrypted: a
/// payload is too large exactly when it exceeds [`MAX_PAYLOAD_LEN`], and
/// an expiry is invalid exactly when the configuration and the clock make
/// it so. Any other job is signed as `signer::token_request` settles and
/// encrypted as `message::seal_request` settles, and gives either one of
/// the errors of [`is_outside_failure`], or a message for the job.
pub fn prepare(
    subscription: &Subscription,
    payload: &[u8],
    ttl: Option<i64>,
    key: &SigningKey,
    config: &SenderConfig,
    now: u64,
) -> (r: Result<SignedMessage, PushError>)
    ensures
        job_fault(payload@, ttl, *config, now) matches Some(fault) ==> r == Err::<
            SignedMessage,
            PushError,
        >(fault),
        r matches Ok(message) ==> job_fault(payload@, ttl, *config, now) is None && message_for(
            message,
            *subscription,
            payload@,
            ttl,
            *config,
            *key,
        ),
        job_fault(payload@, ttl, *config, now) is None ==> (r matches Err(error)
            ==> is_outside_failure(error)),
        r == Err::<SignedMessage, PushError>(
            PushError::Validation(ValidationError::PayloadTooLarge),
        ) <==> payload@.len() > MAX_PAYLOAD_LEN,
        r == Err::<SignedMessage, PushError>(PushError::Validation(ValidationError::InvalidTtl))
            <==> payload@.len() <= MAX_PAYLOAD_LEN && ttl_of(ttl, config.default_ttl) is Err,
        r == Err::<SignedMessage, PushError>(PushError::Signature(SignatureError::InvalidExpiry))
            <==> job_fault(payload@, ttl, *config, now) == Some(
            PushError::Signature(SignatureError::InvalidExpiry),
        ),
        r matches Err(error) ==> !(error is Delivery) && error != PushError::QueueClosed && error
            != PushError::QueueFull,
{
    if let Err(fault) = check_message(payload, ttl, config.default_ttl) {
        return Err(fault);
    }
    let token = match issue_token(
        key,
        subscription,
        config.contact.as_str(),
        &config.claims,
        now,
        config.token_lifetime,
    ) {
        Ok(token) => token,
        Err(error) => {
            return Err(error);
        },
    };
    let ghost signed = token.token@;
    let r = build_message(subscription, payload, ttl, config.default_ttl, token);
    proof {
        if r is Ok {
            assert(carries_token(
                r->Ok_0.authorization@,
                signed,
                public_key_of(key.pem_view()),
            ));
        }
    }
    r
}

/// The completion handles that a worker and its queue hold, in the order
/// in which they are due: the one in flight first, then those of the queued
/// jobs, oldest first.
pub open spec fn pending_handles(
    in_flight: Option<tokio::sync::oneshot::Sender<Outcome>>,
    queue: QueueView,
) -> Seq<tokio::sync::oneshot::Sender<Outcome>> {
    let held = match in_flight {
        Some(handle) => seq![handle],
        None => Seq::empty(),
    };
    held + queue.jobs.map_values(|job: Job| job.completion)
}

/// The handle that a step hands out, as a sequence of none or one.
pub open spec fn handed_out(resolved: Option<Resolution>) -> Seq<
    tokio::sync::oneshot::Sender<Outcome>,
> {
    match resolved {
        Some(resolution) => seq![resolution.completion],
        None => Seq::empty(),
    }
}

/// Where the worker stands.
#[derive(Clone, Copy, Debug, PartialEq, Eq, Structural)]
pub enum WorkerState {
    /// Ready for the next job.
    Idle,
    /// One job's message is with the delivery collaborator.
    Processing,
    /// The queue was closed and empty: the worker has ended.
    Stopped,
}

/// What the worker is told.
#[derive(Clone, Copy, Debug, PartialEq, Eq, Structural)]
pub enum WorkerEvent {
    /// Look at the queue.
    Wake,
    /// The delivery collaborator has answered for the message in flight.
    Delivered(DeliveryResponse),
}

/// What the worker asks of its driver next.
#[derive(Clone, Debug)]
pub enum WorkerAction {
    /// Call again at once: there may be more to do.
    Continue,
    /// Nothing is queued: call again when a job has been enqueued or the
    /// queue has been closed.
    Wait,
    /// Hand this message to the delivery collaborator, and call again with
    /// its answer.
    Deliver(SignedMessage),
    /// A message is with the delivery collaborator: call again with its
    /// answer.
    AwaitDelivery,
    /// The worker has ended.
    Stop,
}

/// What one step did.
#[derive(Debug)]
pub struct Step {
    pub action: WorkerAction,
    /// The job that this step has settled, if it settled one: its outcome
    /// and its completion handle, for the driver to send.
    pub resolved: Option<Resolution>,
}

/// The single consumer of a queue.
pub struct Worker {
    key: SigningKey,
    config: SenderConfig,
    in_flight: Option<tokio::sync::oneshot::Sender<Outcome>>,
    stopped: bool,
}

impl Worker {
    /// The worker's state.
    pub closed spec fn state(&self) -> WorkerState {
        if self.stopped {
            WorkerState::Stopped
        } else if self.in_flight is Some {
            WorkerState::Processing
        } else {
            WorkerState::Idle
        }
    }

    /// The completion handle of the job whose message is in flight.
    pub closed spec fn in_flight(&self) -> Option<tokio::sync::oneshot::Sender<Outcome>> {
        self.in_flight
    }

    /// The configuration that the worker was made with.
    pub closed spec fn config(&self) -> SenderConfig {
        self.config
    }

    /// The key that the worker signs with.
    pub closed spec fn key(&self) -> SigningKey {
        self.key
    }

    /// A stopped worker holds no completion handle.
    pub closed spec fn well_formed(&self) -> bool {
        self.stopped ==> self.in_flight is None
    }

    /// A handle is held exactly while a message is in flight.
    pub proof fn lemma_holds_handle_while_processing(&self)
        requires
            self.well_formed(),
        ensures
            self.in_flight() is Some <==> self.state() == WorkerState::Processing,
    {
    }

    /// An idle worker.
    pub fn new(key: SigningKey, config: SenderConfig) -> (worker: Worker)
        ensures
            worker.well_formed(),
            worker.state() == WorkerState::Idle,
            worker.in_flight() is None,
            worker.config() == config,
            worker.key() == key,
    {
        Worker { key, config, in_flight: None, stopped: false }
    }

    /// Reports the worker's state.
    pub fn current_state(&self) -> (state: WorkerState)
        ensures
            state == self.state(),
    {
        if self.stopped {
            WorkerState::Stopped
        } else if self.in_flight.is_some() {
            WorkerState::Processing
        } else {
            WorkerState::Idle
        }
    }

    /// Takes the worker one step on.
    ///
    /// Stopped, it stays stopped. While a message is in flight, the answer
    /// of the delivery collaborator settles the job: its handle is handed
    /// out with the outcome that the answer stands for, and the worker is
    /// idle again; anything else changes nothing. Idle, it takes the
    /// oldest job from the queue, whatever the event: a job that cannot be
    /// prepared is settled at once, its handle handed out with its error,
    /// and the worker stays idle; otherwise the job's message is handed out
    /// for delivery and its handle is kept. With nothing queued the worker
    /// waits, or stops for good where the queue is closed.
    ///
    /// So the handle of every job taken leaves the worker once, with the
    /// job's outcome: in the step that takes the job, or in the step that
    /// hears of its delivery. No step loses, doubles or reorders a handle:
    /// what it hands out, followed by what is pending after it, is what
    /// was pending before it. No failure of a job stops the worker. A job
    /// with a fault ends in that fault; a job without ends in a message or
    /// in one of the errors of [`is_outside_failure`], never in an error of
    /// delivery or of the queue.
    pub fn step(&mut self, queue: &mut DispatchQueue, event: WorkerEvent, now: u64) -> (step: Step)
        requires
            old(self).well_formed(),
            old(queue).well_formed(),
        ensures
            final(self).well_formed(),
            final(queue).well_formed(),
            final(self).config() == old(self).config(),
            final(self).key() == old(self).key(),
            handed_out(step.resolved) + pending_handles(final(self).in_flight(), final(queue)@)
                == pending_handles(old(self).in_flight(), old(queue)@),
            final(self).state() == WorkerState::Stopped <==> old(self).state()
                == WorkerState::Stopped || (old(self).state() == WorkerState::Idle && old(
                queue,
            )@.jobs.len() == 0 && old(queue)@.closed),
            match old(self).state() {
                WorkerState::Stopped => {
                    &&& final(self).state() == WorkerState::Stopped
                    &&& final(queue)@ == old(queue)@
                    &&& step.action is Stop
                    &&& step.resolved is None
                },
                WorkerState::Processing => {
                    &&& final(queue)@ == old(queue)@
                    &&& match event {
                        WorkerEvent::Delivered(response) => {
                            &&& final(self).state() == WorkerState::Idle
                            &&& step.action is Continue
                            &&& step.resolved == Some(
                                Resolution {
                                    completion: old(self).in_flight()->0,
                                    outcome: outcome_of_response(response),
                                },
                            )
                        },
                        WorkerEvent::Wake => {
                            &&& final(self).state() == WorkerState::Processing
                            &&& final(self).in_flight() == old(self).in_flight()
                            &&& step.action is AwaitDelivery
                            &&& step.resolved is None
                        },
                    }
                },
                WorkerState::Idle => {
                    &&& final(queue)@ == old(queue)@.after_dequeue()
                    &&& if old(queue)@.jobs.len() == 0 {
                        &&& step.resolved is None
                        &&& if old(queue)@.closed {
                            final(self).state() == WorkerState::Stopped && step.action is Stop
                        } else {
                            final(self).state() == WorkerState::Idle && step.action is Wait
                        }
                    } else {
                        let job = old(queue)@.jobs[0];
                        let fault = job_fault(job.payload@, job.ttl, old(self).config(), now);
                        match step.action {
                            WorkerAction::Deliver(message) => {
                                &&& fault is None
                                &&& step.resolved is None
                                &&& final(self).state() == WorkerState::Processing
                                &&& final(self).in_flight() == Some(job.completion)
                                &&& message_for(
                                    message,
                                    job.subscription,
                                    job.payload@,
                                    job.ttl,
                                    old(self).config(),
                                    old(self).key(),
                                )
                            },
                            WorkerAction::Continue => {
                                &&& final(self).state() == WorkerState::Idle
                                &&& step.resolved matches Some(resolution)
                                &&& resolution.completion == job.completion
                                &&& resolution.outcome matches Outcome::Failed(error)
                                &&& match fault {
                                    Some(expected) => error == expected,
                                    None => is_outside_failure(error),
                                }
                                &&& error == PushError::Validation(ValidationError::PayloadTooLarge)
                                    <==> job.payload@.len() > MAX_PAYLOAD_LEN
                                &&& error == PushError::Validation(ValidationError::InvalidTtl)
                                    <==> job.payload@.len() <= MAX_PAYLOAD_LEN && ttl_of(
                                    job.ttl,
                                    old(self).config().default_ttl,
                                ) is Err
                                &&& error == PushError::Signature(SignatureError::InvalidExpiry)
                                    <==> fault == Some(
                                    PushError::Signature(SignatureError::InvalidExpiry),
                                )
                            },
                            _ => false,
                        }
                    }
                },
            },
    {
        if self.stopped {
            return Step { action: WorkerAction::Stop, resolved: None };
        }
        if self.in_flight.is_some() {
            return match event {
                WorkerEvent::Delivered(response) => {
                    let outcome = classify_response(response);
                    let resolved = match self.in_flight.take() {
                        Some(completion) => Some(Resolution { completion, outcome }),
                        None => None,
                    };
                    Step { action: WorkerAction::Continue, resolved }
                },
                WorkerEvent::Wake => Step { action: WorkerAction::AwaitDelivery, resolved: None },
            };
        }
        proof {
            let jobs = queue@.jobs;
            if jobs.len() > 0 {
                let rest = jobs.subrange(1, jobs.len() as int);
                assert(seq![jobs[0].completion] + rest.map_values(|job: Job| job.completion)
                    =~= jobs.map_values(|job: Job| job.completion));
            }
        }
        match queue.dequeue() {
            Dequeued::Closed => {
                self.stopped = true;
                Step { action: WorkerAction::Stop, resolved: None }
            },
            Dequeued::Empty => Step { action: WorkerAction::Wait, resolved: None },
            Dequeued::Job(job) => {
                let Job { payload, subscription, ttl, completion } = job;
                match prepare(&subscription, payload.as_slice(), ttl, &self.key, &self.config, now) {
                    Ok(message) => {
                        self.in_flight = Some(completion);
                        Step { action: WorkerAction::Deliver(message), resolved: None }
                    },
                    Err(error) => Step {
                        action: WorkerAction::Continue,
                        resolved: Some(Resolution { completion, outcome: Outcome::Failed(error) }),
                    },
                }
            },
        }
    }
}

/// What one step of a run did to the handles: those of the jobs that
/// producers got accepted since the step before, the one the step handed
/// out, and those pending after it.
pub struct StepRecord {
    pub arrived: Seq<tokio::sync::oneshot::Sender<Outcome>>,
    pub handed: Seq<tokio::sync::oneshot::Sender<Outcome>>,
    pub pending: Seq<tokio::sync::oneshot::Sender<Outcome>>,
}

/// The handles pending before step `i` of a run that began with `start`.
pub open spec fn pending_before(
    start: Seq<tokio::sync::oneshot::Sender<Outcome>>,
    records: Seq<StepRecord>,
    i: int,
) -> Seq<tokio::sync::oneshot::Sender<Outcome>> {
    if i <= 0 {
        start
    } else {
        records[i - 1].pending
    }
}

/// A run of the worker against its queue: between two steps producers add
/// handles at the back, as `enqueue` does, and each step keeps to what
/// `Worker::step` ensures of the handles.
pub open spec fn is_run(
    start: Seq<tokio::sync::oneshot::Sender<Outcome>>,
    records: Seq<StepRecord>,
) -> bool {
    forall|i: int|
        0 <= i < records.len() ==> (#[trigger] records[i]).handed + records[i].pending
            == pending_before(start, records, i) + records[i].arrived
}

/// The handles handed out by the first `n` steps, in order.
pub open spec fn all_handed(records: Seq<StepRecord>, n: int) -> Seq<
    tokio::sync::oneshot::Sender<Outcome>,
>
    decreases n,
{
    if n <= 0 {
        Seq::empty()
    } else {
        all_handed(records, n - 1) + records[n - 1].handed
    }
}

/// The handles that arrived before or during the first `n` steps, in order.
pub open spec fn all_arrived(records: Seq<StepRecord>, n: int) -> Seq<
    tokio::sync::oneshot::Sender<Outcome>,
>
    decreases n,
{
    if n <= 0 {
        Seq::empty()
    } else {
        all_arrived(records, n - 1) + records[n - 1].arrived
    }
}

/// A job that the queue accepts is due last.
pub proof fn lemma_accepted_job_is_due_last(
    in_flight: Option<tokio::sync::oneshot::Sender<Outcome>>,
    queue: QueueView,
    job: Job,
)
    ensures
        pending_handles(in_flight, queue.with(job)) == pending_handles(in_flight, queue).push(
            job.completion,
        ),
{
    assert(queue.with(job).jobs.map_values(|job: Job| job.completion) =~= queue.jobs.map_values(
        |job: Job| job.completion,
    ).push(job.completion));
    assert(pending_handles(in_flight, queue.with(job)) =~= pending_handles(in_flight, queue).push(
        job.completion,
    ));
}

/// Over any run, every handle leaves once and in the order of acceptance:
/// the handles handed out so far, followed by those still pending, are
/// those that the run began with followed by those that arrived since.
/// So when nothing is pending, as when the worker has stopped, the jobs
/// settled are exactly the jobs accepted, each once, the first accepted
/// first.
pub proof fn lemma_every_handle_leaves_once_in_order(
    start: Seq<tokio::sync::oneshot::Sender<Outcome>>,
    records: Seq<StepRecord>,
    n: int,
)
    requires
        is_run(start, records),
        0 <= n <= records.len(),
    ensures
        all_handed(records, n) + pending_before(start, records, n) == start + all_arrived(
            records,
            n,
        ),
        pending_before(start, records, n).len() == 0 ==> all_handed(records, n) == start
            + all_arrived(records, n),
    decreases n,
{
    if n == 0 {
        assert(all_handed(records, 0) + start =~= start + all_arrived(records, 0));
    } else {
        lemma_every_handle_leaves_once_in_order(start, records, n - 1);
        let record = records[n - 1];
        let before = pending_before(start, records, n - 1);
        assert(record.handed + record.pending == before + record.arrived);
        assert(all_handed(records, n) + record.pending =~= all_handed(records, n - 1) + (
        record.handed + record.pending));
        assert(all_handed(records, n - 1) + (before + record.arrived) =~= (all_handed(
            records,
            n - 1,
        ) + before) + record.arrived);
        assert((start + all_arrived(records, n - 1)) + record.arrived =~= start + all_arrived(
            records,
            n,
        ));
    }
    if pending_before(start, records, n).len() == 0 {
        assert(all_handed(records, n) + pending_before(start, records, n) =~= all_handed(
            records,
            n,
        ));
    }
}

} // verus!
