//! The pipeline controller.
//!
//! One run is a linear state machine: clear any stale workspace, create it
//! fresh, run the extraction tool, resolve the frame rate from its
//! diagnostic text, run the encoding tool, tear the workspace down. Any
//! stage's failure skips ahead to teardown — the workspace removal is
//! always attempted — and the run then finishes with the recorded failure.
//! A teardown failure after a successful run is only a warning; it never
//! overrides success.
//!
//! The controller decides; an unverified driver performs. [`Pipeline::next_action`]
//! says what to do in the current phase, the driver does it and reports
//! what it observed through [`Pipeline::on_event`], and [`step_spec`] pins
//! every transition.

use vstd::prelude::*;

use crate::command::arg_views;
use crate::command::encoder_args;
use crate::command::encoder_args_spec;
use crate::command::extractor_args;
use crate::command::extractor_args_spec;
use crate::error::PipelineError;
use crate::error::Tool;
use crate::outpath::file_stem;
use crate::outpath::file_stem_spec;
use crate::outpath::join_path;
use crate::outpath::join_spec;
use crate::outpath::resolve_output;
use crate::outpath::resolve_output_spec;
use crate::rate::FrameRate;
use crate::rate::resolve_rate;
use crate::rate::resolve_rate_spec;

verus! {

/// The collaborator-supplied configuration of one run.
pub struct RunConfig {
    /// Path of the source video file.
    pub source: Vec<u8>,
    /// Optional output specifier: a bare name, a relative or an absolute
    /// path.
    pub output_spec: Option<Vec<u8>>,
    /// Raw, unclamped encoder quality.
    pub quality: u32,
    /// Explicit frame rate, when one was given.
    pub explicit_rate: Option<FrameRate>,
    /// Verbose logging toggle, carried through for the driver.
    pub verbose: bool,
    /// Directory under which the temporary frame workspace is created.
    pub temp_dir: Vec<u8>,
    /// Command naming the frame-extraction tool.
    pub extractor_cmd: Vec<u8>,
    /// Command naming the encoding tool.
    pub encoder_cmd: Vec<u8>,
}

/// The workspace directory's name under the temporary root.
pub open spec fn frames_dir_name() -> Seq<u8> {
    seq!['f' as u8, 'r' as u8, 'a' as u8, 'm' as u8, 'e' as u8, 's' as u8]
}

/// How a finished run ended. A teardown failure is surfaced as a warning
/// beside the run's own result, never in its place.
#[derive(Clone, Copy, PartialEq, Eq, Debug)]
pub enum Outcome {
    /// Every stage succeeded.
    Success { teardown_warning: bool },
    /// A stage failed; the workspace teardown was still attempted.
    Failure { error: PipelineError, teardown_warning: bool },
}

/// Where the run stands.
#[derive(Clone, Copy, PartialEq, Eq, Debug)]
pub enum Phase {
    /// A stale workspace left by a prior run is being removed.
    ClearStale,
    /// The fresh workspace directory is being created.
    CreateDir,
    /// The extraction tool is running.
    Extract,
    /// The encoding tool is running at the resolved rate.
    Encode { rate: FrameRate },
    /// The workspace is being removed, with the failure to report when a
    /// stage failed.
    Teardown { failure: Option<PipelineError> },
    /// The run is over.
    Finished { outcome: Outcome },
}

/// What the driver must perform next.
pub enum Action {
    /// Remove the directory and everything under it.
    RemoveDir { path: Vec<u8> },
    /// Create the directory.
    CreateDir { path: Vec<u8> },
    /// Run `program` with `args`, wait for it to exit and drain its
    /// output streams.
    RunTool { tool: Tool, program: Vec<u8>, args: Vec<Vec<u8>> },
}

/// What the driver observed.
pub enum Event {
    /// The filesystem operation succeeded.
    FsOk,
    /// The path to remove did not exist.
    FsNotFound,
    /// The filesystem operation failed for any other reason.
    FsFailed,
    /// The tool ran to completion; `exit_code` is its exit status (`None`
    /// when it died before reporting one) and `diagnostics` its captured
    /// error-stream text.
    ToolExited { exit_code: Option<i32>, diagnostics: Vec<u8> },
    /// The tool binary could not be located or launched.
    ToolLaunchFailed,
}

/// Whether `ev` is the kind of event the phase's action can produce.
pub open spec fn event_fits(ph: Phase, ev: Event) -> bool {
    match ph {
        Phase::ClearStale | Phase::CreateDir | Phase::Teardown { .. } => ev is FsOk
            || ev is FsNotFound || ev is FsFailed,
        Phase::Extract | Phase::Encode { .. } => ev is ToolExited || ev is ToolLaunchFailed,
        Phase::Finished { .. } => false,
    }
}

/// Every transition of the run's state machine.
pub open spec fn step_spec(ph: Phase, explicit: Option<FrameRate>, ev: Event) -> Phase {
    match ph {
        Phase::ClearStale => match ev {
            Event::FsOk | Event::FsNotFound => Phase::CreateDir,
            _ => Phase::Teardown { failure: Some(PipelineError::Workspace) },
        },
        Phase::CreateDir => match ev {
            Event::FsOk => Phase::Extract,
            _ => Phase::Teardown { failure: Some(PipelineError::Workspace) },
        },
        Phase::Extract => match ev {
            Event::ToolExited { exit_code, diagnostics } => if exit_code == Some(0i32) {
                match resolve_rate_spec(explicit, diagnostics@) {
                    Ok(rate) => Phase::Encode { rate },
                    Err(e) => Phase::Teardown { failure: Some(e) },
                }
            } else {
                Phase::Teardown {
                    failure: Some(PipelineError::ToolFailed { tool: Tool::Extractor, exit_code }),
                }
            },
            _ => Phase::Teardown {
                failure: Some(PipelineError::ToolNotFound { tool: Tool::Extractor }),
            },
        },
        Phase::Encode { .. } => match ev {
            Event::ToolExited { exit_code, .. } => if exit_code == Some(0i32) {
                Phase::Teardown { failure: None }
            } else {
                Phase::Teardown {
                    failure: Some(PipelineError::ToolFailed { tool: Tool::Encoder, exit_code }),
                }
            },
            _ => Phase::Teardown {
                failure: Some(PipelineError::ToolNotFound { tool: Tool::Encoder }),
            },
        },
        Phase::Teardown { failure } => match failure {
            None => Phase::Finished {
                outcome: Outcome::Success { teardown_warning: ev is FsFailed },
            },
            Some(e) => Phase::Finished {
                outcome: Outcome::Failure { error: e, teardown_warning: ev is FsFailed },
            },
        },
        Phase::Finished { .. } => ph,
    }
}

/// The view of an optional byte string.
pub open spec fn opt_bytes(o: Option<Vec<u8>>) -> Option<Seq<u8>> {
    match o {
        Some(v) => Some(v@),
        None => None,
    }
}

/// One run's controller: the validated configuration, the paths resolved
/// from it once at the start, and the current phase.
pub struct Pipeline {
    /// Source video path.
    pub source: Vec<u8>,
    /// Raw quality from configuration; clamped when the encoder runs.
    pub quality: u32,
    /// Explicit frame rate, when one was configured.
    pub explicit_rate: Option<FrameRate>,
    /// Verbosity toggle, carried through for the driver.
    pub verbose: bool,
    /// The workspace directory: `frames` under the temporary root.
    pub workspace: Vec<u8>,
    /// The resolved artifact path.
    pub output: Vec<u8>,
    /// Command naming the frame-extraction tool.
    pub extractor_cmd: Vec<u8>,
    /// Command naming the encoding tool.
    pub encoder_cmd: Vec<u8>,
    /// Where the run stands.
    pub phase: Phase,
}

impl Pipeline {
    /// Validate the configuration and set up a run: a source without a
    /// usable file stem is a fatal configuration error; otherwise the
    /// artifact path and the workspace path are pinned here, before
    /// anything touches the filesystem.
    pub fn new(config: RunConfig) -> (r: Result<Pipeline, PipelineError>)
        ensures
            match r {
                Ok(p) => {
                    &&& file_stem_spec(config.source@) matches Some(stem) && p.output@
                        == resolve_output_spec(config.source@, opt_bytes(config.output_spec), stem)
                    &&& p.source@ == config.source@
                    &&& p.quality == config.quality
                    &&& p.explicit_rate == config.explicit_rate
                    &&& p.verbose == config.verbose
                    &&& p.workspace@ == join_spec(config.temp_dir@, frames_dir_name())
                    &&& p.extractor_cmd@ == config.extractor_cmd@
                    &&& p.encoder_cmd@ == config.encoder_cmd@
                    &&& p.phase == Phase::ClearStale
                },
                Err(e) => e == PipelineError::Configuration && file_stem_spec(config.source@)
                    is None,
            },
    {
        let stem = match file_stem(config.source.as_slice()) {
            Some(s) => s,
            None => {
                return Err(PipelineError::Configuration);
            },
        };
        let out_ref: Option<&[u8]> = match &config.output_spec {
            Some(v) => Some(v.as_slice()),
            None => None,
        };
        let output = resolve_output(config.source.as_slice(), out_ref, stem.as_slice());
        let mut frames: Vec<u8> = Vec::new();
        frames.push('f' as u8);
        frames.push('r' as u8);
        frames.push('a' as u8);
        frames.push('m' as u8);
        frames.push('e' as u8);
        frames.push('s' as u8);
        proof {
            assert(frames@ =~= frames_dir_name());
        }
        let workspace = join_path(config.temp_dir.as_slice(), frames.as_slice());
        Ok(
            Pipeline {
                source: config.source,
                quality: config.quality,
                explicit_rate: config.explicit_rate,
                verbose: config.verbose,
                workspace,
                output,
                extractor_cmd: config.extractor_cmd,
                encoder_cmd: config.encoder_cmd,
                phase: Phase::ClearStale,
            },
        )
    }

    /// The action the driver must perform in the current phase; `None`
    /// once the run is finished.
    pub fn next_action(&self) -> (a: Option<Action>)
        ensures
            match self.phase {
                Phase::ClearStale => a matches Some(Action::RemoveDir { path }) && path@
                    == self.workspace@,
                Phase::CreateDir => a matches Some(Action::CreateDir { path }) && path@
                    == self.workspace@,
                Phase::Extract => a matches Some(Action::RunTool { tool, program, args })
                    && tool == Tool::Extractor && program@ == self.extractor_cmd@ && arg_views(
                    args@,
                ) == extractor_args_spec(self.source@, self.workspace@),
                Phase::Encode { rate } => a matches Some(Action::RunTool { tool, program, args })
                    && tool == Tool::Encoder && program@ == self.encoder_cmd@ && arg_views(args@)
                    == encoder_args_spec(self.quality, rate, self.workspace@, self.output@),
                Phase::Teardown { .. } => a matches Some(Action::RemoveDir { path }) && path@
                    == self.workspace@,
                Phase::Finished { .. } => a is None,
            },
    {
        match self.phase {
            Phase::ClearStale => Some(
                Action::RemoveDir { path: vstd::slice::slice_to_vec(self.workspace.as_slice()) },
            ),
            Phase::CreateDir => Some(
                Action::CreateDir { path: vstd::slice::slice_to_vec(self.workspace.as_slice()) },
            ),
            Phase::Extract => Some(
                Action::RunTool {
                    tool: Tool::Extractor,
                    program: vstd::slice::slice_to_vec(self.extractor_cmd.as_slice()),
                    args: extractor_args(self.source.as_slice(), self.workspace.as_slice()),
                },
            ),
            Phase::Encode { rate } => Some(
                Action::RunTool {
                    tool: Tool::Encoder,
                    program: vstd::slice::slice_to_vec(self.encoder_cmd.as_slice()),
                    args: encoder_args(
                        self.quality,
                        rate,
                        self.workspace.as_slice(),
                        self.output.as_slice(),
                    ),
                },
            ),
            Phase::Teardown { .. } => Some(
                Action::RemoveDir { path: vstd::slice::slice_to_vec(self.workspace.as_slice()) },
            ),
            Phase::Finished { .. } => None,
        }
    }

    /// Advance the run on what the driver observed. The transition taken
    /// is exactly [`step_spec`]; everything but the phase is untouched.
    pub fn on_event(&mut self, ev: Event)
        requires
            event_fits(old(self).phase, ev),
        ensures
            final(self).phase == step_spec(old(self).phase, old(self).explicit_rate, ev),
            final(self).source@ == old(self).source@,
            final(self).quality == old(self).quality,
            final(self).explicit_rate == old(self).explicit_rate,
            final(self).verbose == old(self).verbose,
            final(self).workspace@ == old(self).workspace@,
            final(self).output@ == old(self).output@,
            final(self).extractor_cmd@ == old(self).extractor_cmd@,
            final(self).encoder_cmd@ == old(self).encoder_cmd@,
    {
        let next = match self.phase {
            Phase::ClearStale => match ev {
                Event::FsOk | Event::FsNotFound => Phase::CreateDir,
                _ => Phase::Teardown { failure: Some(PipelineError::Workspace) },
            },
            Phase::CreateDir => match ev {
                Event::FsOk => Phase::Extract,
                _ => Phase::Teardown { failure: Some(PipelineError::Workspace) },
            },
            Phase::Extract => match ev {
                Event::ToolExited { exit_code, diagnostics } => {
                    let ok = match exit_code {
                        Some(c) => c == 0,
                        None => false,
                    };
                    if ok {
                        match resolve_rate(self.explicit_rate, diagnostics.as_slice()) {
                            Ok(rate) => Phase::Encode { rate },
                            Err(e) => Phase::Teardown { failure: Some(e) },
                        }
                    } else {
                        Phase::Teardown {
                            failure: Some(
                                PipelineError::ToolFailed { tool: Tool::Extractor, exit_code },
                            ),
                        }
                    }
                },
                _ => Phase::Teardown {
                    failure: Some(PipelineError::ToolNotFound { tool: Tool::Extractor }),
                },
            },
            Phase::Encode { .. } => match ev {
                Event::ToolExited { exit_code, .. } => {
                    let ok = match exit_code {
                        Some(c) => c == 0,
                        None => false,
                    };
                    if ok {
                        Phase::Teardown { failure: None }
                    } else {
                        Phase::Teardown {
                            failure: Some(
                                PipelineError::ToolFailed { tool: Tool::Encoder, exit_code },
                            ),
                        }
                    }
                },
                _ => Phase::Teardown {
                    failure: Some(PipelineError::ToolNotFound { tool: Tool::Encoder }),
                },
            },
            Phase::Teardown { failure } => {
                let warn = match ev {
                    Event::FsFailed => true,
                    _ => false,
                };
                match failure {
                    None => Phase::Finished {
                        outcome: Outcome::Success { teardown_warning: warn },
                    },
                    Some(e) => Phase::Finished {
                        outcome: Outcome::Failure { error: e, teardown_warning: warn },
                    },
                }
            },
            Phase::Finished { .. } => self.phase,
        };
        self.phase = next;
    }

    /// Whether the run is over.
    pub fn finished(&self) -> (b: bool)
        ensures
            b == (self.phase is Finished),
    {
        match self.phase {
            Phase::Finished { .. } => true,
            _ => false,
        }
    }

    /// The finished run's outcome; `None` while it is still going.
    pub fn outcome(&self) -> (r: Option<Outcome>)
        ensures
            match self.phase {
                Phase::Finished { outcome } => r == Some(outcome),
                _ => r is None,
            },
    {
        match self.phase {
            Phase::Finished { outcome } => Some(outcome),
            _ => None,
        }
    }
}

/// Law: preparing the workspace treats a missing stale directory exactly
/// like a removed one — a prior crashed run, or no prior run at all,
/// cannot make preparation fail.
pub proof fn lemma_prepare_ignores_absence(explicit: Option<FrameRate>)
    ensures
        step_spec(Phase::ClearStale, explicit, Event::FsNotFound) == step_spec(
            Phase::ClearStale,
            explicit,
            Event::FsOk,
        ),
        step_spec(Phase::ClearStale, explicit, Event::FsOk) == Phase::CreateDir,
{
}

/// Law: the run finishes only out of workspace teardown — every run,
/// successful or failed, attempts to remove the workspace before it ends.
pub proof fn lemma_finished_only_after_teardown(ph: Phase, explicit: Option<FrameRate>, ev: Event)
    requires
        !(ph is Finished),
        step_spec(ph, explicit, ev) is Finished,
    ensures
        ph is Teardown,
{
}

/// Law: an encoder failure is what the run reports — a nonzero exit
/// status sends the run to teardown carrying that exit code.
pub proof fn lemma_encoder_failure_reports_code(
    explicit: Option<FrameRate>,
    rate: FrameRate,
    code: Option<i32>,
    diag: Vec<u8>,
)
    requires
        code != Some(0i32),
    ensures
        ({
            let next = step_spec(
                Phase::Encode { rate },
                explicit,
                Event::ToolExited { exit_code: code, diagnostics: diag },
            );
            let failed = PipelineError::ToolFailed { tool: Tool::Encoder, exit_code: code };
            next == (Phase::Teardown { failure: Some(failed) })
        }),
{
}

/// Law: teardown never rewrites a failure — whatever the removal's own
/// result, the outcome after teardown carries the recorded error, and a
/// removal failure is surfaced only as a warning.
pub proof fn lemma_teardown_preserves_failure(
    explicit: Option<FrameRate>,
    e: PipelineError,
    ev: Event,
)
    requires
        ev is FsOk || ev is FsNotFound || ev is FsFailed,
    ensures
        ({
            let next = step_spec(Phase::Teardown { failure: Some(e) }, explicit, ev);
            let fail = Outcome::Failure { error: e, teardown_warning: ev is FsFailed };
            next == (Phase::Finished { outcome: fail })
        }),
{
}

} // verus!
