use gifpipe::Action;
use gifpipe::Event;
use gifpipe::FrameRate;
use gifpipe::Outcome;
use gifpipe::Phase;
use gifpipe::Pipeline;
use gifpipe::PipelineError;
use gifpipe::RunConfig;
use gifpipe::Tool;

fn config(source: &[u8], output_spec: Option<&[u8]>, explicit_rate: Option<FrameRate>) -> RunConfig {
    RunConfig {
        source: source.to_vec(),
        output_spec: output_spec.map(|s| s.to_vec()),
        quality: 100,
        explicit_rate,
        verbose: false,
        temp_dir: b"/tmp".to_vec(),
        extractor_cmd: b"ffmpeg".to_vec(),
        encoder_cmd: b"gifski".to_vec(),
    }
}

fn expect_remove_dir(p: &Pipeline) -> Vec<u8> {
    match p.next_action() {
        Some(Action::RemoveDir { path }) => path,
        _ => panic!("expected a directory removal"),
    }
}

fn expect_create_dir(p: &Pipeline) -> Vec<u8> {
    match p.next_action() {
        Some(Action::CreateDir { path }) => path,
        _ => panic!("expected a directory creation"),
    }
}

fn expect_tool(p: &Pipeline, which: Tool) -> (Vec<u8>, Vec<Vec<u8>>) {
    match p.next_action() {
        Some(Action::RunTool { tool, program, args }) => {
            assert_eq!(tool, which);
            (program, args)
        },
        _ => panic!("expected a tool invocation"),
    }
}

#[test]
fn source_without_stem_is_a_configuration_error() {
    match Pipeline::new(config(b"/videos/..", None, None)) {
        Err(e) => assert_eq!(e, PipelineError::Configuration),
        Ok(_) => panic!("a stemless source must be rejected"),
    }
}

#[test]
fn workspace_preparation_tolerates_a_missing_stale_directory() {
    // Whether a stale directory was there to remove or not, preparation
    // proceeds identically to creating the fresh workspace.
    let mut crashed_before = Pipeline::new(config(b"/videos/clip.mp4", None, None)).unwrap();
    let mut fresh = Pipeline::new(config(b"/videos/clip.mp4", None, None)).unwrap();
    expect_remove_dir(&crashed_before);
    expect_remove_dir(&fresh);
    crashed_before.on_event(Event::FsOk);
    fresh.on_event(Event::FsNotFound);
    assert_eq!(crashed_before.phase, Phase::CreateDir);
    assert_eq!(fresh.phase, Phase::CreateDir);
    assert_eq!(expect_create_dir(&crashed_before), expect_create_dir(&fresh));
}

#[test]
fn full_run_resolves_rate_and_cleans_up() {
    let mut p = Pipeline::new(config(b"/videos/clip.mp4", None, None)).unwrap();

    assert_eq!(expect_remove_dir(&p), b"/tmp/frames".to_vec());
    p.on_event(Event::FsNotFound);

    assert_eq!(expect_create_dir(&p), b"/tmp/frames".to_vec());
    p.on_event(Event::FsOk);

    let (program, args) = expect_tool(&p, Tool::Extractor);
    assert_eq!(program, b"ffmpeg".to_vec());
    assert_eq!(args[0], b"-i".to_vec());
    assert_eq!(args[1], b"/videos/clip.mp4".to_vec());
    assert_eq!(args[2], b"/tmp/frames/frame%04d.png".to_vec());
    p.on_event(Event::ToolExited {
        exit_code: Some(0),
        diagnostics: b"Stream #0:0: Video: h264, yuv420p, 1280x720, 30 fps, 30 tbr".to_vec(),
    });

    let (program, args) = expect_tool(&p, Tool::Encoder);
    assert_eq!(program, b"gifski".to_vec());
    assert_eq!(args[0], b"--fps".to_vec());
    assert_eq!(args[1], b"30".to_vec());
    assert_eq!(args[2], b"--quality".to_vec());
    assert_eq!(args[3], b"100".to_vec());
    assert_eq!(args[4], b"-o".to_vec());
    assert_eq!(args[5], b"/videos/clip-gifski.gif".to_vec());
    assert_eq!(args[6], b"/tmp/frames/frame*.png".to_vec());
    p.on_event(Event::ToolExited { exit_code: Some(0), diagnostics: Vec::new() });

    // Success still tears the workspace down.
    assert_eq!(expect_remove_dir(&p), b"/tmp/frames".to_vec());
    p.on_event(Event::FsOk);

    assert!(p.finished());
    assert!(p.next_action().is_none());
    assert_eq!(p.outcome(), Some(Outcome::Success { teardown_warning: false }));
}

#[test]
fn encoder_failure_reports_its_exit_code_and_still_tears_down() {
    let mut p = Pipeline::new(config(b"/videos/clip.mp4", None, None)).unwrap();
    p.on_event(Event::FsOk);
    p.on_event(Event::FsOk);
    p.on_event(Event::ToolExited { exit_code: Some(0), diagnostics: b"29.97 fps".to_vec() });
    expect_tool(&p, Tool::Encoder);
    p.on_event(Event::ToolExited { exit_code: Some(3), diagnostics: Vec::new() });

    // Teardown is still attempted before the failure is reported.
    assert_eq!(expect_remove_dir(&p), b"/tmp/frames".to_vec());
    p.on_event(Event::FsOk);
    assert_eq!(
        p.outcome(),
        Some(Outcome::Failure {
            error: PipelineError::ToolFailed { tool: Tool::Encoder, exit_code: Some(3) },
            teardown_warning: false,
        }),
    );
}

#[test]
fn extractor_failure_reports_its_exit_code() {
    let mut p = Pipeline::new(config(b"/videos/clip.mp4", None, None)).unwrap();
    p.on_event(Event::FsNotFound);
    p.on_event(Event::FsOk);
    p.on_event(Event::ToolExited { exit_code: Some(1), diagnostics: b"bad input".to_vec() });
    expect_remove_dir(&p);
    p.on_event(Event::FsOk);
    assert_eq!(
        p.outcome(),
        Some(Outcome::Failure {
            error: PipelineError::ToolFailed { tool: Tool::Extractor, exit_code: Some(1) },
            teardown_warning: false,
        }),
    );
}

#[test]
fn missing_tool_is_reported_as_not_found() {
    let mut p = Pipeline::new(config(b"/videos/clip.mp4", None, None)).unwrap();
    p.on_event(Event::FsOk);
    p.on_event(Event::FsOk);
    p.on_event(Event::ToolLaunchFailed);
    expect_remove_dir(&p);
    p.on_event(Event::FsOk);
    assert_eq!(
        p.outcome(),
        Some(Outcome::Failure {
            error: PipelineError::ToolNotFound { tool: Tool::Extractor },
            teardown_warning: false,
        }),
    );
}

#[test]
fn unparsable_diagnostics_without_explicit_rate_fail_the_run() {
    let mut p = Pipeline::new(config(b"/videos/clip.mp4", None, None)).unwrap();
    p.on_event(Event::FsOk);
    p.on_event(Event::FsOk);
    p.on_event(Event::ToolExited { exit_code: Some(0), diagnostics: b"no rate".to_vec() });
    expect_remove_dir(&p);
    p.on_event(Event::FsOk);
    assert_eq!(
        p.outcome(),
        Some(Outcome::Failure { error: PipelineError::RateParse, teardown_warning: false }),
    );
}

#[test]
fn explicit_rate_is_used_unparsed_and_clamped_only_at_the_encoder() {
    let explicit = Some(FrameRate { milli: 12_500 });
    let mut p = Pipeline::new(config(b"/videos/clip.mp4", None, explicit)).unwrap();
    p.on_event(Event::FsOk);
    p.on_event(Event::FsOk);
    p.on_event(Event::ToolExited { exit_code: Some(0), diagnostics: b"irrelevant".to_vec() });
    let (_, args) = expect_tool(&p, Tool::Encoder);
    assert_eq!(args[1], b"12.5".to_vec());
}

#[test]
fn workspace_creation_failure_is_fatal() {
    let mut p = Pipeline::new(config(b"/videos/clip.mp4", None, None)).unwrap();
    p.on_event(Event::FsOk);
    p.on_event(Event::FsFailed);
    expect_remove_dir(&p);
    p.on_event(Event::FsNotFound);
    assert_eq!(
        p.outcome(),
        Some(Outcome::Failure { error: PipelineError::Workspace, teardown_warning: false }),
    );
}

#[test]
fn teardown_failure_after_success_is_only_a_warning() {
    let mut p = Pipeline::new(config(b"/videos/clip.mp4", None, None)).unwrap();
    p.on_event(Event::FsOk);
    p.on_event(Event::FsOk);
    p.on_event(Event::ToolExited { exit_code: Some(0), diagnostics: b"24 fps".to_vec() });
    p.on_event(Event::ToolExited { exit_code: Some(0), diagnostics: Vec::new() });
    p.on_event(Event::FsFailed);
    assert_eq!(p.outcome(), Some(Outcome::Success { teardown_warning: true }));
}

#[test]
fn output_specifier_flows_into_the_encoder_invocation() {
    let mut p = Pipeline::new(
        config(b"/videos/clip.mp4", Some(b"anim".as_slice()), None),
    ).unwrap();
    p.on_event(Event::FsOk);
    p.on_event(Event::FsOk);
    p.on_event(Event::ToolExited { exit_code: Some(0), diagnostics: b"30 fps".to_vec() });
    let (_, args) = expect_tool(&p, Tool::Encoder);
    assert_eq!(args[5], b"/videos/anim.gif".to_vec());
}

#[test]
fn tool_killed_without_exit_code_is_a_tool_failure() {
    let mut p = Pipeline::new(config(b"/videos/clip.mp4", None, None)).unwrap();
    p.on_event(Event::FsOk);
    p.on_event(Event::FsOk);
    p.on_event(Event::ToolExited { exit_code: None, diagnostics: Vec::new() });
    p.on_event(Event::FsOk);
    assert_eq!(
        p.outcome(),
        Some(Outcome::Failure {
            error: PipelineError::ToolFailed { tool: Tool::Extractor, exit_code: None },
            teardown_warning: false,
        }),
    );
}
