//! Core of a real-time noise-reduction bridge: a worker-style pipeline that
//! decouples an audio callback from a block-oriented inference engine.
//!
//! Samples travel through this crate as the raw bit patterns of the host's
//! single-precision samples, so every queue, accumulator and parameter slot
//! is verified on plain integers; converting to and from the numeric sample
//! type happens outside the library, at the call sites that own the engine
//! and the resamplers.

mod bridge;
mod frame;
mod params;
mod queue;
mod window;
mod worker;

pub use bridge::{lemma_frame_order_and_latency, param_update, DfWrapper};
pub use bridge::{BUFFER_CAPACITY_MULTIPLIER, DEFAULT_HOP_SIZE};
pub use frame::{silence_seq, Frame};
pub use params::{changes_between, poll_changes, slot_change};
pub use params::{lemma_parameter_update_idempotent, lemma_synced_bank_yields_no_changes};
pub use params::{ParamBank, ParamChange, ParamKind};
pub use queue::FrameQueue;
pub use window::WindowAccumulator;
pub use worker::{priming_frames, worker_poll, WorkerAction};
