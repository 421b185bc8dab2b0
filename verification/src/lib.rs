//! The core of a conversational gateway, verified with Verus.
//!
//! A gateway takes a user utterance, keeps a bounded history of the
//! conversation, sends the assembled context to a completion endpoint and
//! returns the reply, whole or as a stream of fragments. This crate holds
//! what the gateway decides and computes; the network, the lock around the
//! shared session and the serving of requests belong to the program that
//! uses it.
//!
//! * [`message`], [`options`], [`completion`], [`chunk`]: the data exchanged
//!   with the endpoint, with a mathematical view of each type.
//! * [`memory`]: the bounded history and its capacity law.
//! * [`stream`]: the streaming engine and its laws: every fragment is handed
//!   to the consumer once, in order, the reply is their concatenation, and
//!   both depend on the bytes of the body alone, not on the reads in which
//!   they came.
//! * [`client`]: what each of the two clients allows and what an answer of
//!   the endpoint amounts to.
//! * [`function_call`]: extraction of a structured action from a reply.
//! * [`session`]: what each kind of request does to the shared session.
//! * [`schedule`]: what the lock around the session gives: two requests are
//!   never interleaved.
//! * [`retrieval`]: what is recorded for retrieval and how retrieved turns
//!   enter a request.
//! * [`status`], [`error`]: failures and how they are shown.
//! * [`json`], [`text`]: JSON documents and text framing.
//!
//! Every function is verified against its contract, except the calls into
//! other crates and into parts of the standard library for which the verifier
//! has no contract. Those stand in small functions marked
//! `#[verifier::external_body]`, in [`json`] (`serde_json`), [`text`] (`str`),
//! and [`retrieval`] (`chrono`, `tiktoken_rs`); the comment above each says
//! what is taken on trust.

pub mod chunk;
pub mod client;
pub mod completion;
pub mod error;
pub mod function_call;
pub mod json;
pub mod memory;
pub mod message;
pub mod options;
pub mod retrieval;
pub mod schedule;
pub mod session;
pub mod status;
pub mod stream;
pub mod text;
