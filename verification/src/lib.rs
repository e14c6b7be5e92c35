//! Core model of a minimal real-time rendering engine.
//!
//! The library captures the device-facing lifecycle of such an engine as
//! verified state: surface configuration and its clamping rules, depth-buffer
//! sizing, device-limit negotiation, pipeline/binding-layout agreement,
//! per-frame uniform packing, and the frame state machine with its
//! failure-recovery policy. The platform adapter (window system, GPU driver)
//! performs the actual device work and feeds its outcomes into this model.

pub mod context;
pub mod depth;
pub mod device;
pub mod error;
pub mod events;
pub mod frame;
pub mod mesh;
pub mod pipeline;
pub mod surface;
pub mod uniform;
