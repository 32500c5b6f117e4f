//! Real-time beat detection over a stream of audio buffers.
//!
//! The detector turns buffers of PCM samples into debounced beat events:
//! each buffer's energy (mean absolute amplitude) is compared against a
//! rolling average of recent energies scaled by a sensitivity, and a beat is
//! confirmed only while detection is enabled and the cooldown has elapsed.
//! Consumers learn of beats through a shared [`signal::BeatSignal`].
pub mod analyzer;
pub mod config;
pub mod energy;
pub mod laws;
pub mod sample;
pub mod scene;
pub mod signal;
pub mod window;

pub use analyzer::{EnergyAnalyzer, DEFAULT_COOLDOWN_MS, DEFAULT_WINDOW_SIZE};
pub use config::{ConfigError, DetectionGate, DEFAULT_SENSITIVITY_PERMILLE};
pub use energy::{buffer_energy, FULL_SCALE};
pub use sample::samples_from_u16;
pub use scene::{Scene, SceneManager};
pub use signal::{BeatCursor, BeatSignal};
pub use window::EnergyWindow;
