//! Concurrent URL probing, stated as contracts.
//!
//! The crate holds the rules of a probe pipeline: how the line source feeds
//! a bounded queue, how a bounded window of probes advances, how one
//! transport result becomes an outcome and an output line, and how the
//! outcomes fold into one overall result. Reading input, talking to the
//! network and printing are left to the caller.

pub mod aggregate;
pub mod dispatch;
pub mod pipeline;
pub mod probe;
pub mod settings;
pub mod source;

pub use aggregate::{aggregate, fold_step};
pub use dispatch::{Dispatcher, Event, Phase, Rejection, Wait};
pub use pipeline::{replay, Exchange, ReplayError, Transcript};
pub use probe::{
    classify, process_url, Emission, HttpCode, ProbeOutcome, ProbeStatus, Response,
};
pub use settings::Settings;
pub use source::{
    after_read, after_send, offer, open_relay, ReadEvent, SendAttempt, SourceState,
};
