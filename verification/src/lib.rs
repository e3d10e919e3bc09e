//! The buffering and dispatch core of an agent that ships journal entries to a collector.
//!
//! * `config`: the startup parameters and the provider that hands out copies of them.
//! * `log_journald`: the tail reader, which turns journal entries into records.
//! * `log_queue`: the records and the bounded queue that drops its oldest record when full.
//! * `dispatcher`: the timer-driven consumer that empties the queue into batches.
//!
//! The library does no input or output. The reader and the dispatcher say what is to be done
//! next; whoever drives them opens the journal, waits, sleeps and sends.

pub mod config;
pub mod dispatcher;
pub mod log_journald;
pub mod log_queue;
