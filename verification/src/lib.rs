//! Dispatch of web push notifications.
//!
//! Producers submit jobs to a bounded FIFO queue ([`queue`], [`dispatch`]).
//! A single [`worker`] takes one job at a time, issues the sender's
//! authentication token ([`signer`]), encrypts the payload for the
//! subscriber ([`message`]) and hands the message out for delivery. Every
//! job is answered once, through its completion handle ([`job`]), with an
//! [`outcome`]; no failure of a job stops the worker.
//!
//! Encryption and signing are the `web_push` crate's; the functions that
//! call it say what holds whatever it returns, and [`failure`] reads its
//! errors. Waiting (for a free slot, for a job, for the push service) is
//! left to the caller: the library decides, the caller waits.

pub mod dispatch;
pub mod failure;
pub mod job;
pub mod message;
pub mod outcome;
pub mod queue;
pub mod signer;
pub mod static_files;
pub mod subscription;
pub mod text;
pub mod worker;
