//! A job and the handle that carries its single outcome.

use crate::outcome::Outcome;
use crate::subscription::Subscription;
use vstd::prelude::*;

verus! {

/// `tokio::sync::oneshot::Sender`: the sending half of a channel for one
/// value. Sending consumes it, so it is used at most once.
#[verifier::external_type_specification]
#[verifier::external_body]
#[verifier::reject_recursive_types(T)]
pub struct ExOneshotSender<T>(tokio::sync::oneshot::Sender<T>);

/// `tokio::sync::oneshot::Receiver`: the half on which the value arrives.
#[verifier::external_type_specification]
#[verifier::external_body]
#[verifier::reject_recursive_types(T)]
pub struct ExOneshotReceiver<T>(tokio::sync::oneshot::Receiver<T>);

/// `tokio::sync::oneshot::error::RecvError`: what awaiting a receiver gives
/// once its sender is gone. The receiver is a future with this error, so
/// Verus asks for it with the receiver.
#[verifier::external_type_specification]
#[verifier::external_body]
pub struct ExOneshotRecvError(tokio::sync::oneshot::error::RecvError);

/// One request to deliver a payload to a subscription.
pub struct Job {
    /// The plaintext to deliver.
    pub payload: Vec<u8>,
    /// The job's own copy of the subscription.
    pub subscription: Subscription,
    /// How long the push service may hold the message, in seconds.
    pub ttl: Option<i64>,
    /// The handle through which the outcome is reported, once.
    pub completion: tokio::sync::oneshot::Sender<Outcome>,
}

/// `tokio::sync::oneshot::channel`: a fresh pair of completion handle and
/// the receiver that its submitter keeps.
#[verifier::external_body]
fn completion_pair() -> (pair: (
    tokio::sync::oneshot::Sender<Outcome>,
    tokio::sync::oneshot::Receiver<Outcome>,
)) {
    tokio::sync::oneshot::channel()
}

/// `tokio::sync::oneshot::Sender::send`: hands the outcome to the receiver
/// and uses the handle up. It never waits. Where the receiver is gone the
/// outcome is dropped.
#[verifier::external_body]
fn resolve(completion: tokio::sync::oneshot::Sender<Outcome>, outcome: Outcome) {
    let _ = completion.send(outcome);
}

/// The outcome of one job together with the handle that is to carry it.
#[derive(Debug)]
pub struct Resolution {
    /// The completion handle of the job.
    pub completion: tokio::sync::oneshot::Sender<Outcome>,
    /// The job's outcome.
    pub outcome: Outcome,
}

impl Resolution {
    /// Reports the outcome through the handle and uses both up. It never
    /// waits; where the submitter no longer listens the outcome is dropped.
    pub fn send(self) {
        resolve(self.completion, self.outcome)
    }
}

impl Job {
    /// Makes a job with a fresh completion handle, and the receiver on which
    /// its submitter awaits the outcome.
    pub fn new(subscription: Subscription, payload: Vec<u8>, ttl: Option<i64>) -> (r: (
        Job,
        tokio::sync::oneshot::Receiver<Outcome>,
    ))
        ensures
            r.0.payload@ == payload@,
            r.0.subscription == subscription,
            r.0.ttl == ttl,
    {
        let (completion, receiver) = completion_pair();
        (Job { payload, subscription, ttl, completion }, receiver)
    }
}

} // verus!
