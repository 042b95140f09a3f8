//! Verified core of a video-to-animation pipeline.
//!
//! The library turns a source video into an animated image by driving two
//! external tools: one that extracts still frames into a temporary workspace
//! and one that encodes those frames into the final artifact. Everything the
//! pipeline decides — parameter clamping, frame-rate recovery from diagnostic
//! text, output-path resolution, command-line construction and the run's
//! state machine — is verified here; performing filesystem operations and
//! launching the tools is left to an unverified driver.

mod bytes;
mod clamp;
mod command;
mod error;
mod numfmt;
mod outpath;
mod pipeline;
mod rate;

pub use clamp::clamp_quality;
pub use clamp::clamp_rate_milli;
pub use command::encoder_args;
pub use command::extractor_args;
pub use error::PipelineError;
pub use error::Tool;
pub use outpath::file_stem;
pub use outpath::resolve_output;
pub use pipeline::Action;
pub use pipeline::Event;
pub use pipeline::Outcome;
pub use pipeline::Phase;
pub use pipeline::Pipeline;
pub use pipeline::RunConfig;
pub use rate::FrameRate;
pub use rate::resolve_rate;
pub use rate::scan_rate_milli;
