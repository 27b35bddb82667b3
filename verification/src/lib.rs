//! Watches a line-oriented text stream for anomalous gaps: it measures the
//! time elapsed between successive lines (by wall clock, or by a timestamp
//! parsed out of the line text), retains the K largest delays seen so far in
//! sorted order, and attaches to each retained delay a snapshot of the
//! surrounding lines.

pub mod maximals;
pub mod processor;
pub mod stamp;
pub mod timer;
