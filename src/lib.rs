//! A durable, segmented, single-producer / multi-consumer message queue.
//!
//! The verified library holds the on-disk formats and the decisions of the
//! writer and of each consumer; the host performs the file I/O and hands the
//! bytes it read to these functions.
pub mod record;
pub mod text;
pub mod info;
pub mod queue;
pub mod consumer;
pub mod names;
