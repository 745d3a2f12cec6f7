//! Signal-analysis half of the pipeline: the shared sample ring buffer, the
//! spectrum container with its range queries, window functions, and the
//! windowed Fourier analyzer.

pub mod fourier;
pub mod sample_buffer;
pub mod spectrum;
pub mod window;

pub use fourier::Analyzer;
pub use fourier::FourierBuilder;
pub use sample_buffer::SampleBuffer;
pub use spectrum::average_spectrum;
pub use spectrum::Spectrum;
pub use spectrum::SpectrumView;
pub use window::Window;
