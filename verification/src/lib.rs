//! Reconciliation of compute nodes ("boxes") through their provisioning
//! lifecycle, together with the pieces of logic that the services around it
//! share with it.
//!
//! The heart of the crate is [`ctx::Ctx`]: one evaluation of a node's observed
//! status against the lifecycle policy in [`state`], phrased as a pure
//! decision procedure. The caller performs the outside work that a decision
//! asks for (submitting a job, writing a status) and hands the answer back.
//! What holds of every such evaluation is proved in [`guarantees`].
//!
//! Beside it stand the reading of a model's fields off a schema ([`model`]),
//! the batching of texts for a language model ([`nlp`], [`encoding`]) and
//! the commands that are run in the sessions of users ([`session`]).

pub mod ctx;
pub mod encoding;
pub mod guarantees;
pub mod model;
pub mod nlp;
pub mod node;
pub mod order;
pub mod session;
pub mod state;
pub mod text;
pub mod time;
pub mod user_session;
