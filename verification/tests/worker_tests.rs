use base64::engine::general_purpose::URL_SAFE_NO_PAD;
use base64::Engine;
use ece::EcKeyComponents;
use jwt_simple::prelude::{ECDSAP256KeyPairLike, ES256KeyPair};
use king_pusha::dispatch::{submit, Submitted};
use king_pusha::message::SignedMessage;
use king_pusha::outcome::{
    DeliveryError, DeliveryResponse, Outcome, PushError, SignatureError, ValidationError,
};
use king_pusha::queue::DispatchQueue;
use king_pusha::signer::{Claim, ClaimValue, SigningKey};
use king_pusha::subscription::Subscription;
use king_pusha::worker::{
    prepare, SenderConfig, Step, Worker, WorkerAction, WorkerEvent, WorkerState,
};
use tokio::sync::oneshot::error::TryRecvError;
use tokio::sync::oneshot::Receiver;

const ENDPOINT: &str = "https://push.example.com/send/abc";
const NOW: u64 = 1_700_000_000;

struct Subscriber {
    components: EcKeyComponents,
    auth: Vec<u8>,
    subscription: Subscription,
}

fn subscriber() -> Subscriber {
    let (pair, auth) = ece::generate_keypair_and_auth_secret().unwrap();
    let components = pair.raw_components().unwrap();
    let subscription = Subscription::new(
        ENDPOINT.to_string(),
        URL_SAFE_NO_PAD.encode(components.public_key()),
        URL_SAFE_NO_PAD.encode(auth),
    )
    .unwrap();
    Subscriber { components, auth: auth.to_vec(), subscription }
}

fn key() -> SigningKey {
    SigningKey::from_pem(ES256KeyPair::generate().to_pem().unwrap().into_bytes()).unwrap()
}

fn config() -> SenderConfig {
    SenderConfig {
        contact: "mailto:ops@example.com".to_string(),
        claims: vec![
            Claim { name: "foo".to_string(), value: ClaimValue::Text("bar".to_string()) },
            Claim { name: "omg".to_string(), value: ClaimValue::Number(123) },
        ],
        default_ttl: 2_419_200,
        token_lifetime: 43_200,
    }
}

fn queued(queue: &mut DispatchQueue, s: &Subscriber, payload: &[u8]) -> Receiver<Outcome> {
    match submit(queue, s.subscription.clone(), payload.to_vec(), None) {
        Submitted::Queued(receiver) => receiver,
        _ => panic!("the queue must accept"),
    }
}

struct Done {
    action: WorkerAction,
    resolved: Option<Outcome>,
}

/// Does the driver's part of a step: sends what the step settled.
fn settle(step: Step) -> Done {
    let resolved = step.resolved.map(|resolution| {
        let outcome = resolution.outcome;
        resolution.send();
        outcome
    });
    Done { action: step.action, resolved }
}

fn delivering(action: WorkerAction) -> SignedMessage {
    match action {
        WorkerAction::Deliver(message) => message,
        other => panic!("expected a message to deliver, got {:?}", other),
    }
}

#[test]
fn job_is_prepared_delivered_and_resolved_once() {
    let s = subscriber();
    let mut queue = DispatchQueue::with_default_capacity();
    let mut receiver = queued(&mut queue, &s, b"hello");
    let mut worker = Worker::new(key(), config());
    assert_eq!(worker.current_state(), WorkerState::Idle);

    let step = settle(worker.step(&mut queue, WorkerEvent::Wake, NOW));
    assert_eq!(step.resolved, None);
    let message = delivering(step.action);
    assert_eq!(message.endpoint, ENDPOINT);
    assert_eq!(message.ttl, 2_419_200);
    assert_eq!(ece::decrypt(&s.components, &s.auth, &message.body).unwrap(), b"hello".to_vec());
    assert_eq!(worker.current_state(), WorkerState::Processing);
    assert_eq!(queue.len(), 0);
    assert_eq!(receiver.try_recv(), Err(TryRecvError::Empty));

    let step = settle(worker.step(&mut queue, WorkerEvent::Wake, NOW));
    assert!(matches!(step.action, WorkerAction::AwaitDelivery));
    assert_eq!(step.resolved, None);
    assert_eq!(receiver.try_recv(), Err(TryRecvError::Empty));

    let step = settle(worker.step(&mut queue, WorkerEvent::Delivered(DeliveryResponse::Accepted), NOW));
    assert!(matches!(step.action, WorkerAction::Continue));
    assert_eq!(step.resolved, Some(Outcome::Delivered));
    assert_eq!(worker.current_state(), WorkerState::Idle);
    assert_eq!(receiver.try_recv(), Ok(Outcome::Delivered));

    let step = settle(worker.step(&mut queue, WorkerEvent::Wake, NOW));
    assert!(matches!(step.action, WorkerAction::Wait));
    assert_eq!(step.resolved, None);
    assert_eq!(worker.current_state(), WorkerState::Idle);
}

#[test]
fn jobs_are_delivered_in_the_order_submitted() {
    let s = subscriber();
    let mut queue = DispatchQueue::with_default_capacity();
    let mut first = queued(&mut queue, &s, b"job A");
    let mut second = queued(&mut queue, &s, b"job B");
    let mut worker = Worker::new(key(), config());

    let message = delivering(settle(worker.step(&mut queue, WorkerEvent::Wake, NOW)).action);
    assert_eq!(ece::decrypt(&s.components, &s.auth, &message.body).unwrap(), b"job A".to_vec());
    let gone = WorkerEvent::Delivered(DeliveryResponse::Gone);
    let step = settle(worker.step(&mut queue, gone, NOW));
    let expected = Outcome::Failed(PushError::Delivery(DeliveryError::Gone));
    assert_eq!(step.resolved, Some(expected));
    assert_eq!(first.try_recv(), Ok(expected));
    assert_eq!(second.try_recv(), Err(TryRecvError::Empty));

    let message = delivering(settle(worker.step(&mut queue, WorkerEvent::Wake, NOW)).action);
    assert_eq!(ece::decrypt(&s.components, &s.auth, &message.body).unwrap(), b"job B".to_vec());
    let failed = WorkerEvent::Delivered(DeliveryResponse::TransportError);
    let step = settle(worker.step(&mut queue, failed, NOW));
    let expected = Outcome::Failed(PushError::Delivery(DeliveryError::TransportError));
    assert_eq!(step.resolved, Some(expected));
    assert_eq!(second.try_recv(), Ok(expected));
}

#[test]
fn failed_job_does_not_stop_the_worker() {
    let s = subscriber();
    let mut queue = DispatchQueue::with_default_capacity();
    let mut oversized = queued(&mut queue, &s, &vec![0u8; 4097]);
    let mut fine = queued(&mut queue, &s, b"fine");
    let mut worker = Worker::new(key(), config());

    let step = settle(worker.step(&mut queue, WorkerEvent::Wake, NOW));
    let expected = Outcome::Failed(PushError::Validation(ValidationError::PayloadTooLarge));
    assert!(matches!(step.action, WorkerAction::Continue));
    assert_eq!(step.resolved, Some(expected));
    assert_eq!(oversized.try_recv(), Ok(expected));
    assert_eq!(worker.current_state(), WorkerState::Idle);

    let message = delivering(settle(worker.step(&mut queue, WorkerEvent::Wake, NOW)).action);
    assert_eq!(ece::decrypt(&s.components, &s.auth, &message.body).unwrap(), b"fine".to_vec());
    let step = settle(worker.step(&mut queue, WorkerEvent::Delivered(DeliveryResponse::Accepted), NOW));
    assert_eq!(step.resolved, Some(Outcome::Delivered));
    assert_eq!(fine.try_recv(), Ok(Outcome::Delivered));
}

#[test]
fn every_delivery_failure_reaches_the_submitter() {
    let cases = [
        (DeliveryResponse::RateLimited, DeliveryError::RateLimited),
        (DeliveryResponse::Timeout, DeliveryError::Timeout),
        (DeliveryResponse::TransportError, DeliveryError::TransportError),
        (DeliveryResponse::Gone, DeliveryError::Gone),
    ];
    let s = subscriber();
    let mut queue = DispatchQueue::with_default_capacity();
    let mut worker = Worker::new(key(), config());
    for (response, error) in cases {
        let mut receiver = queued(&mut queue, &s, b"x");
        delivering(settle(worker.step(&mut queue, WorkerEvent::Wake, NOW)).action);
        let step = settle(worker.step(&mut queue, WorkerEvent::Delivered(response), NOW));
        let expected = Outcome::Failed(PushError::Delivery(error));
        assert_eq!(step.resolved, Some(expected));
        assert_eq!(receiver.try_recv(), Ok(expected));
    }
}

#[test]
fn worker_stops_only_when_the_queue_is_closed_and_empty() {
    let s = subscriber();
    let mut queue = DispatchQueue::with_default_capacity();
    let mut receiver = queued(&mut queue, &s, b"last");
    queue.close();
    let mut worker = Worker::new(key(), config());

    delivering(settle(worker.step(&mut queue, WorkerEvent::Wake, NOW)).action);
    let step = settle(worker.step(&mut queue, WorkerEvent::Delivered(DeliveryResponse::Accepted), NOW));
    assert!(matches!(step.action, WorkerAction::Continue));
    assert_eq!(receiver.try_recv(), Ok(Outcome::Delivered));
    assert_eq!(worker.current_state(), WorkerState::Idle);

    let step = settle(worker.step(&mut queue, WorkerEvent::Wake, NOW));
    assert!(matches!(step.action, WorkerAction::Stop));
    assert_eq!(step.resolved, None);
    assert_eq!(worker.current_state(), WorkerState::Stopped);

    let step = settle(worker.step(&mut queue, WorkerEvent::Delivered(DeliveryResponse::Gone), NOW));
    assert!(matches!(step.action, WorkerAction::Stop));
    assert_eq!(step.resolved, None);
    assert_eq!(worker.current_state(), WorkerState::Stopped);
}

#[test]
fn submitter_that_walked_away_does_not_block_the_worker() {
    let s = subscriber();
    let mut queue = DispatchQueue::with_default_capacity();
    drop(queued(&mut queue, &s, b"fire and forget"));
    let mut kept = queued(&mut queue, &s, b"kept");
    let mut worker = Worker::new(key(), config());

    delivering(settle(worker.step(&mut queue, WorkerEvent::Wake, NOW)).action);
    let step = settle(worker.step(&mut queue, WorkerEvent::Delivered(DeliveryResponse::Accepted), NOW));
    assert_eq!(step.resolved, Some(Outcome::Delivered));
    delivering(settle(worker.step(&mut queue, WorkerEvent::Wake, NOW)).action);
    settle(worker.step(&mut queue, WorkerEvent::Delivered(DeliveryResponse::Accepted), NOW));
    assert_eq!(kept.try_recv(), Ok(Outcome::Delivered));
}

#[test]
fn answer_without_a_message_in_flight_is_ignored() {
    let mut queue = DispatchQueue::with_default_capacity();
    let mut worker = Worker::new(key(), config());
    let step = settle(worker.step(&mut queue, WorkerEvent::Delivered(DeliveryResponse::Gone), NOW));
    assert!(matches!(step.action, WorkerAction::Wait));
    assert_eq!(step.resolved, None);
    assert_eq!(worker.current_state(), WorkerState::Idle);
}

#[test]
fn misconfigured_lifetime_fails_each_job_with_invalid_expiry() {
    let s = subscriber();
    let mut bad = config();
    bad.token_lifetime = 86_401;
    assert_eq!(bad.check(), Err(SignatureError::InvalidExpiry));
    let mut queue = DispatchQueue::with_default_capacity();
    let mut receiver = queued(&mut queue, &s, b"x");
    let mut worker = Worker::new(key(), bad);
    let step = settle(worker.step(&mut queue, WorkerEvent::Wake, NOW));
    let expected = Outcome::Failed(PushError::Signature(SignatureError::InvalidExpiry));
    assert_eq!(step.resolved, Some(expected));
    assert_eq!(receiver.try_recv(), Ok(expected));
    assert_eq!(worker.current_state(), WorkerState::Idle);
}

#[test]
fn configuration_is_checked_at_start_up() {
    assert_eq!(config().check(), Ok(()));
    let mut expired = config();
    expired.token_lifetime = 0;
    assert_eq!(expired.check(), Err(SignatureError::InvalidExpiry));
    let mut reserved = config();
    reserved.claims.push(Claim { name: "exp".to_string(), value: ClaimValue::Number(1) });
    assert_eq!(reserved.check(), Err(SignatureError::InvalidClaims));
    let mut both = reserved.clone();
    both.token_lifetime = u64::MAX;
    assert_eq!(both.check(), Err(SignatureError::InvalidExpiry));
}

#[test]
fn prepare_judges_the_payload_before_the_token() {
    let s = subscriber();
    let mut bad = config();
    bad.token_lifetime = 90_000;
    let refused = prepare(&s.subscription, &vec![0u8; 4097], None, &key(), &bad, NOW);
    assert_eq!(refused.unwrap_err(), PushError::Validation(ValidationError::PayloadTooLarge));
    let refused = prepare(&s.subscription, b"x", Some(-5), &key(), &bad, NOW);
    assert_eq!(refused.unwrap_err(), PushError::Validation(ValidationError::InvalidTtl));
    let refused = prepare(&s.subscription, b"x", Some(5), &key(), &bad, NOW);
    assert_eq!(refused.unwrap_err(), PushError::Signature(SignatureError::InvalidExpiry));
    let message = prepare(&s.subscription, b"x", Some(5), &key(), &config(), NOW).unwrap();
    assert_eq!(message.ttl, 5);
}

#[test]
fn outcome_travels_with_the_handle_of_its_job() {
    let s = subscriber();
    let mut queue = DispatchQueue::with_default_capacity();
    let mut oversized = queued(&mut queue, &s, &vec![0u8; 4097]);
    let mut fine = queued(&mut queue, &s, b"fine");
    let mut worker = Worker::new(key(), config());

    let step = worker.step(&mut queue, WorkerEvent::Wake, NOW);
    let resolution = step.resolved.unwrap();
    let expected = Outcome::Failed(PushError::Validation(ValidationError::PayloadTooLarge));
    assert_eq!(resolution.outcome, expected);
    assert_eq!(oversized.try_recv(), Err(TryRecvError::Empty));
    resolution.send();
    assert_eq!(oversized.try_recv(), Ok(expected));
    assert_eq!(fine.try_recv(), Err(TryRecvError::Empty));

    let step = worker.step(&mut queue, WorkerEvent::Wake, NOW);
    assert!(step.resolved.is_none());
    let step = worker.step(&mut queue, WorkerEvent::Delivered(DeliveryResponse::Timeout), NOW);
    let resolution = step.resolved.unwrap();
    assert_eq!(fine.try_recv(), Err(TryRecvError::Empty));
    resolution.send();
    let expected = Outcome::Failed(PushError::Delivery(DeliveryError::Timeout));
    assert_eq!(fine.try_recv(), Ok(expected));
}

#[test]
fn payload_that_the_cipher_cannot_take_fails_the_job_only() {
    let s = subscriber();
    let mut queue = DispatchQueue::with_default_capacity();
    let mut large = queued(&mut queue, &s, &vec![0u8; 4000]);
    let mut empty = queued(&mut queue, &s, b"");
    let mut worker = Worker::new(key(), config());
    for receiver in [&mut large, &mut empty] {
        let step = settle(worker.step(&mut queue, WorkerEvent::Wake, NOW));
        assert!(matches!(step.action, WorkerAction::Continue));
        assert_eq!(step.resolved, Some(Outcome::Failed(PushError::Encryption)));
        assert_eq!(receiver.try_recv(), Ok(Outcome::Failed(PushError::Encryption)));
        assert_eq!(worker.current_state(), WorkerState::Idle);
    }
}
