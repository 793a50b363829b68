use king_pusha::dispatch::{push, resubmit, submit, try_submit, Submitted};
use king_pusha::job::Job;
use king_pusha::outcome::{PushError, ValidationError};
use king_pusha::queue::{Dequeued, DispatchQueue, Enqueued, DEFAULT_CAPACITY};
use king_pusha::subscription::{Keys, PushRequest, Subscription};

const ENDPOINT: &str = "https://push.example.com/send/abc";
const P256DH: &str =
    "BLMbF9ffKBiWQLCKvTHb6LO8Nb6dcUh6TItC455vu2kElga6PQvUmaFyCdykxY2nOSSL3yKgfbmFLRTUaGv4yV8";
const AUTH: &str = "xS03Fi5ErfTNH_l9WHE9Ig";

fn subscription() -> Subscription {
    Subscription::new(ENDPOINT.to_string(), P256DH.to_string(), AUTH.to_string()).unwrap()
}

fn job(tag: u8) -> Job {
    Job::new(subscription(), vec![tag], None).0
}

fn next_payload(queue: &mut DispatchQueue) -> Option<Vec<u8>> {
    match queue.dequeue() {
        Dequeued::Job(job) => Some(job.payload),
        _ => None,
    }
}

#[test]
fn zero_capacity_is_refused() {
    assert!(DispatchQueue::new(0).is_none());
    assert!(DispatchQueue::new(1).is_some());
}

#[test]
fn default_capacity_is_one_hundred() {
    let queue = DispatchQueue::with_default_capacity();
    assert_eq!(DEFAULT_CAPACITY, 100);
    assert_eq!(queue.capacity(), 100);
    assert_eq!(queue.len(), 0);
    assert!(!queue.is_closed());
    assert!(!queue.is_full());
}

#[test]
fn jobs_come_out_in_the_order_they_went_in() {
    let mut queue = DispatchQueue::new(4).unwrap();
    assert!(matches!(queue.enqueue(job(b'A')), Enqueued::Accepted));
    assert!(matches!(queue.enqueue(job(b'B')), Enqueued::Accepted));
    assert!(matches!(queue.enqueue(job(b'C')), Enqueued::Accepted));
    assert_eq!(queue.len(), 3);
    assert_eq!(next_payload(&mut queue), Some(vec![b'A']));
    assert_eq!(next_payload(&mut queue), Some(vec![b'B']));
    assert_eq!(next_payload(&mut queue), Some(vec![b'C']));
    assert!(matches!(queue.dequeue(), Dequeued::Empty));
}

#[test]
fn full_queue_hands_the_job_back_until_a_slot_frees() {
    let mut queue = DispatchQueue::new(2).unwrap();
    assert!(matches!(queue.enqueue(job(1)), Enqueued::Accepted));
    assert!(matches!(queue.enqueue(job(2)), Enqueued::Accepted));
    assert!(queue.is_full());
    let back = match queue.enqueue(job(3)) {
        Enqueued::Full(job) => job,
        _ => panic!("a full queue must hand the job back"),
    };
    assert_eq!(back.payload, vec![3]);
    assert_eq!(queue.len(), 2);
    assert_eq!(next_payload(&mut queue), Some(vec![1]));
    assert!(matches!(queue.enqueue(back), Enqueued::Accepted));
    assert_eq!(next_payload(&mut queue), Some(vec![2]));
    assert_eq!(next_payload(&mut queue), Some(vec![3]));
}

#[test]
fn closed_queue_drains_then_reports_closed() {
    let mut queue = DispatchQueue::new(2).unwrap();
    assert!(matches!(queue.enqueue(job(1)), Enqueued::Accepted));
    queue.close();
    assert!(queue.is_closed());
    match queue.enqueue(job(2)) {
        Enqueued::Closed(job) => assert_eq!(job.payload, vec![2]),
        _ => panic!("a closed queue must refuse"),
    }
    assert_eq!(next_payload(&mut queue), Some(vec![1]));
    assert!(matches!(queue.dequeue(), Dequeued::Closed));
    assert!(matches!(queue.dequeue(), Dequeued::Closed));
}

#[test]
fn submit_queues_a_job_with_what_was_submitted() {
    let mut queue = DispatchQueue::new(1).unwrap();
    let submitted = submit(&mut queue, subscription(), b"hello".to_vec(), Some(60));
    assert!(matches!(submitted, Submitted::Queued(_)));
    match queue.dequeue() {
        Dequeued::Job(job) => {
            assert_eq!(job.payload, b"hello".to_vec());
            assert_eq!(job.ttl, Some(60));
            assert_eq!(job.subscription.endpoint(), ENDPOINT);
        }
        _ => panic!("the job must be queued"),
    }
}

#[test]
fn submit_to_a_full_queue_keeps_the_job_for_later() {
    let mut queue = DispatchQueue::new(1).unwrap();
    assert!(matches!(submit(&mut queue, subscription(), vec![1], None), Submitted::Queued(_)));
    let (job, receiver) = match submit(&mut queue, subscription(), vec![2], None) {
        Submitted::Full(job, receiver) => (job, receiver),
        _ => panic!("the second submission must wait"),
    };
    assert_eq!(job.payload, vec![2]);
    let (job, receiver) = match resubmit(&mut queue, job, receiver) {
        Submitted::Full(job, receiver) => (job, receiver),
        _ => panic!("the queue is still full"),
    };
    assert_eq!(next_payload(&mut queue), Some(vec![1]));
    assert!(matches!(resubmit(&mut queue, job, receiver), Submitted::Queued(_)));
    assert_eq!(next_payload(&mut queue), Some(vec![2]));
}

#[test]
fn submit_to_a_closed_queue_is_refused() {
    let mut queue = DispatchQueue::new(1).unwrap();
    queue.close();
    assert!(matches!(submit(&mut queue, subscription(), vec![1], None), Submitted::Closed));
    assert_eq!(queue.len(), 0);
}

#[test]
fn push_queues_the_sentence() {
    let mut queue = DispatchQueue::with_default_capacity();
    let request = PushRequest {
        endpoint: ENDPOINT.to_string(),
        expiration_time: None,
        keys: Keys { p256dh: P256DH.to_string(), auth: AUTH.to_string() },
        sentence: "hello world".to_string(),
    };
    assert!(matches!(push(&mut queue, &request), Ok(Submitted::Queued(_))));
    match queue.dequeue() {
        Dequeued::Job(job) => {
            assert_eq!(job.payload, b"hello world".to_vec());
            assert_eq!(job.ttl, None);
        }
        _ => panic!("the job must be queued"),
    }
}

#[test]
fn push_refuses_a_malformed_subscription() {
    let mut queue = DispatchQueue::with_default_capacity();
    let request = PushRequest {
        endpoint: "not a url".to_string(),
        expiration_time: None,
        keys: Keys { p256dh: P256DH.to_string(), auth: AUTH.to_string() },
        sentence: "hello".to_string(),
    };
    match push(&mut queue, &request) {
        Err(error) => {
            assert_eq!(error, PushError::Validation(ValidationError::MalformedEndpoint))
        }
        Ok(_) => panic!("a malformed endpoint must be refused"),
    }
    assert_eq!(queue.len(), 0);
}

#[test]
fn submitting_without_waiting_fails_on_a_full_or_closed_queue() {
    let mut queue = DispatchQueue::new(1).unwrap();
    assert!(try_submit(&mut queue, subscription(), vec![1], None).is_ok());
    match try_submit(&mut queue, subscription(), vec![2], None) {
        Err(error) => assert_eq!(error, PushError::QueueFull),
        Ok(_) => panic!("the queue is full"),
    }
    assert_eq!(queue.len(), 1);
    queue.close();
    match try_submit(&mut queue, subscription(), vec![3], None) {
        Err(error) => assert_eq!(error, PushError::QueueClosed),
        Ok(_) => panic!("the queue is closed"),
    }
    assert_eq!(next_payload(&mut queue), Some(vec![1]));
}

#[test]
fn push_refuses_an_oversized_sentence() {
    let mut queue = DispatchQueue::with_default_capacity();
    let mut request = PushRequest {
        endpoint: ENDPOINT.to_string(),
        expiration_time: None,
        keys: Keys { p256dh: P256DH.to_string(), auth: AUTH.to_string() },
        sentence: "a".repeat(4097),
    };
    match push(&mut queue, &request) {
        Err(error) => assert_eq!(error, PushError::Validation(ValidationError::PayloadTooLarge)),
        Ok(_) => panic!("an oversized sentence must be refused"),
    }
    assert_eq!(queue.len(), 0);
    request.sentence = "a".repeat(4096);
    assert!(matches!(push(&mut queue, &request), Ok(Submitted::Queued(_))));
    assert_eq!(queue.len(), 1);
}

#[test]
fn push_to_a_full_queue_hands_back_the_job_of_the_request() {
    let mut queue = DispatchQueue::new(1).unwrap();
    let request = PushRequest {
        endpoint: ENDPOINT.to_string(),
        expiration_time: None,
        keys: Keys { p256dh: P256DH.to_string(), auth: AUTH.to_string() },
        sentence: "second".to_string(),
    };
    assert!(matches!(queue.enqueue(job(1)), Enqueued::Accepted));
    match push(&mut queue, &request) {
        Ok(Submitted::Full(job, _)) => {
            assert_eq!(job.payload, b"second".to_vec());
            assert_eq!(job.ttl, None);
            assert_eq!(job.subscription.endpoint(), ENDPOINT);
            assert_eq!(job.subscription.p256dh(), P256DH);
            assert_eq!(job.subscription.auth(), AUTH);
        }
        _ => panic!("a full queue must hand the job back"),
    }
    assert_eq!(next_payload(&mut queue), Some(vec![1]));
}

#[test]
fn push_queues_a_request_whose_endpoint_has_a_port() {
    let mut queue = DispatchQueue::with_default_capacity();
    let request = PushRequest {
        endpoint: "https://h:1/".to_string(),
        expiration_time: None,
        keys: Keys { p256dh: P256DH.to_string(), auth: AUTH.to_string() },
        sentence: "hello".to_string(),
    };
    assert!(matches!(push(&mut queue, &request), Ok(Submitted::Queued(_))));
    match queue.dequeue() {
        Dequeued::Job(job) => {
            assert_eq!(job.subscription.endpoint(), "https://h:1/");
            assert_eq!(job.subscription.p256dh(), P256DH);
            assert_eq!(job.subscription.auth(), AUTH);
            assert_eq!(job.payload, b"hello".to_vec());
        }
        _ => panic!("the job must be queued"),
    }
}
