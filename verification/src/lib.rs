//! Telemetry recording and CPU sampling for an asynchronous runtime.

pub mod ctimer_sampler;
pub mod error;
pub mod fp_profiler;
mod os;
pub mod profiler_calls;
pub mod recorder;
pub mod sample_buffer;
pub mod sampler;
pub mod sampling;
pub mod text;
