//! A node-local task supervision library: the data model of task
//! submissions, the queryable task state, the runner router, and the
//! request validation shared by the transports.
//!
//! Every function here carries a contract that Verus proves. What the
//! library takes on trust is little and named where it stands: a few
//! string functions of the standard library, the wall clock, the host
//! name, a random identifier and whether the output is a terminal.
//!
//! The modules, from the data model up:
//!
//! - [`text`] and [`scan`]: strings, character by character.
//! - [`task_id`], [`status`], [`env`], [`labels`], [`kind`], [`policy`],
//!   [`create_spec`], [`info`], [`query`]: the data model.
//! - [`listing`] and [`state`]: the task state, first as plain sequences
//!   of snapshots with their laws, then as the store with its slot index.
//! - [`event`]: lifecycle events and their log lines.
//! - [`runner`], [`router`], [`exec`], [`limits`]: the execution backends
//!   and the router that picks among them.
//! - [`wire`], [`convert`], [`api`]: the messages of the transports, and
//!   what is checked before a request reaches the supervisor.
//! - [`discover`], [`heartbeat`], [`system`], [`logger`]: the tasks that
//!   announce the agent, what it reads from its host, and its log.

pub mod api;
mod clock;
pub mod convert;
pub mod create_spec;
pub mod discover;
pub mod env;
pub mod event;
pub mod exec;
pub mod heartbeat;
pub mod info;
pub mod kind;
pub mod labels;
pub mod ledger;
pub mod limits;
pub mod listing;
pub mod logger;
pub mod policy;
pub mod query;
pub mod router;
pub mod runner;
pub mod scan;
pub mod state;
pub mod status;
pub mod system;
pub mod task_id;
pub mod text;
pub mod wire;
