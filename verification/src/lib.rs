//! The core of a multi-threaded task runtime: the task lifecycle, the
//! schedulers that order admitted tasks and pair them with idle workers, the
//! wake relay, and the one-shot channel that carries a result to its consumer.

pub mod engine;
pub mod utils;
