//! Resolution of prediction-market questions into payout vectors.
//!
//! A question is settled either from the structured answer of an inference
//! service or by running a rule script over the data of a sporting event.
//! Both paths end in a payout vector with one entry per outcome.
//!
//! - [`question`]: questions, resolutions and the payout invariants.
//! - [`chat`], [`request`]: the messages exchanged with the inference
//!   service, and the query that asks it for a resolution.
//! - [`resolve`]: from the service's answer to a resolution that may be
//!   released.
//! - [`sports`], [`scope`], [`script`]: the data of a sporting event, the
//!   variables that a rule script sees, and the evaluation of the script.
//! - [`trigger`]: what starts a resolution, and the payload that it carries.
//! - [`text`]: the operations on text that the others are stated with.

pub mod chat;
pub mod question;
pub mod request;
pub mod resolve;
pub mod scope;
pub mod script;
pub mod sports;
pub mod text;
pub mod trigger;
