//! Verified core of a smart-meter telemetry pipeline.
//!
//! The library turns decoded meter readouts into line-protocol metric
//! records: it resolves device-local, DST-flagged timestamps into absolute
//! nanosecond instants, renders fixed-point readings, formats the power and
//! gas metric families, and fixes the per-telegram ingestion policy. All
//! I/O (serial stream, telegram framing, network writes) lives outside the
//! library and hands it plain values.

pub mod client;
pub mod format;
pub mod ingest;
pub mod reading;
pub mod readout;
pub mod timestamp;
