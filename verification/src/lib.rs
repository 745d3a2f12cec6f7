//! Real-time capture-to-spectrum pipeline: a fixed-capacity multi-channel
//! sample ring buffer, a capture-backend abstraction, a windowed Fourier
//! analyzer producing amplitude spectra with frequency-range queries, and a
//! frame-production loop that publishes consistent "info" snapshots.

pub mod analyzer;
pub mod recorder;
pub mod visualizer;

pub use visualizer::AnalysisStep;
pub use visualizer::Frame;
pub use visualizer::Frames;
pub use visualizer::Visualizer;
