//! The failures a pipeline run can report.

use vstd::prelude::*;

verus! {

/// The two external tools the pipeline drives.
#[derive(Clone, Copy, PartialEq, Eq, Debug)]
pub enum Tool {
    /// The frame-extraction tool, which splits the video into still images.
    Extractor,
    /// The encoding tool, which assembles the images into the artifact.
    Encoder,
}

/// Every way a pipeline run can fail. Each stage's failure aborts the rest
/// of the run except workspace teardown, which is always attempted.
#[derive(Clone, Copy, PartialEq, Eq, Debug)]
pub enum PipelineError {
    /// The source path has no usable file stem.
    Configuration,
    /// The temporary frame directory could not be prepared.
    Workspace,
    /// A tool binary could not be located or launched.
    ToolNotFound { tool: Tool },
    /// A tool ran but exited unsuccessfully. `exit_code` is the tool's own
    /// exit status; `None` means it died before reporting one.
    ToolFailed { tool: Tool, exit_code: Option<i32> },
    /// The diagnostic text contained no parsable frame-rate report.
    RateParse,
}

} // verus!
