//! A concurrent process supervisor's verified core: command descriptors,
//! byte-stream framing, the per-worker lifecycle machine, and the
//! restart/kill policy engine that drives cross-worker cancellation.

pub mod command;
pub mod console;
pub mod engine;
pub mod framer;
pub mod message;
pub mod runner;
pub mod worker;

pub use command::Color;
pub use command::Command;
pub use command::CommandError;
pub use command::CommandLike;
pub use command::CommandOperations;
pub use command::parse_command_string;

pub use console::ConsoleCommand;

pub use engine::EngineAction;
pub use engine::EngineState;
pub use engine::PolicyEngine;
pub use engine::RestartOptions;

pub use framer::LineEnding;
pub use framer::LineFramer;

pub use message::OutputMessage;
pub use message::OutputMessagePayload;

pub use runner::RunOptions;
pub use runner::Runner;

pub use worker::WorkerEvent;
pub use worker::WorkerPhase;
pub use worker::worker_step;
