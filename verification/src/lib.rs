//! Verified core of a real-time noise-through-filter audio engine.
//!
//! The library owns the deterministic noise source, the command/parameter
//! state machine that the render path drains at buffer boundaries, and the
//! state registers of the four filter topologies.  Sample values and filter
//! coefficients are routed as opaque 32-bit words (the embedding application
//! interprets them as IEEE-754 single-precision numbers and performs the
//! numeric filter arithmetic); what is proved here is the state discipline:
//! which registers a command, a parameter update, or a reset may change, and
//! which it must leave alone.

pub mod analysis;
pub mod biquad;
pub mod control;
pub mod engine;
pub mod fir;
pub mod noise;
pub mod repr;
pub mod svf;
pub mod tpt;

pub use analysis::analysis_due;
pub use biquad::BiQuadFilter;
pub use control::AudioCommand;
pub use control::Parameters;
pub use control::SelectedFilter;
pub use engine::EngineState;
pub use engine::FilterBank;
pub use fir::FirLowPassFilter;
pub use noise::NoiseGen;
pub use svf::StateVariableFilter;
pub use tpt::FilterType;
pub use tpt::StateVariableTPTFilter;
