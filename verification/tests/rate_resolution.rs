use gifpipe::FrameRate;
use gifpipe::PipelineError;
use gifpipe::resolve_rate;
use gifpipe::scan_rate_milli;

#[test]
fn decimal_rate_is_parsed() {
    let diag = b"Stream #0:0(und): Video: h264, yuv420p, 1920x1080, 29.97 fps, 30 tbr";
    assert_eq!(scan_rate_milli(diag), Some(29_970));
    assert_eq!(resolve_rate(None, diag), Ok(FrameRate { milli: 29_970 }));
}

#[test]
fn integer_rate_is_parsed() {
    let diag = b"  1920x1080, 30 fps, 30 tbr, 90k tbn";
    assert_eq!(resolve_rate(None, diag), Ok(FrameRate { milli: 30_000 }));
}

#[test]
fn missing_pattern_is_a_parse_error() {
    assert_eq!(resolve_rate(None, b"no rate report here"), Err(PipelineError::RateParse));
    assert_eq!(resolve_rate(None, b""), Err(PipelineError::RateParse));
}

#[test]
fn token_without_whitespace_does_not_match() {
    assert_eq!(resolve_rate(None, b"30fps"), Err(PipelineError::RateParse));
}

#[test]
fn token_without_number_does_not_match() {
    assert_eq!(resolve_rate(None, b"fps 30"), Err(PipelineError::RateParse));
}

#[test]
fn first_report_wins() {
    let diag = b"video at 10 fps, later resampled to 20 fps";
    assert_eq!(resolve_rate(None, diag), Ok(FrameRate { milli: 10_000 }));
}

#[test]
fn explicit_rate_bypasses_parsing() {
    let diag = b"reported 29.97 fps";
    let explicit = Some(FrameRate { milli: 24_000 });
    assert_eq!(resolve_rate(explicit, diag), Ok(FrameRate { milli: 24_000 }));
    // Even diagnostics with no report at all are fine then.
    assert_eq!(resolve_rate(explicit, b""), Ok(FrameRate { milli: 24_000 }));
}

#[test]
fn tab_counts_as_whitespace() {
    assert_eq!(scan_rate_milli(b"25\tfps"), Some(25_000));
}

#[test]
fn fractional_digits_beyond_thousandths_are_truncated() {
    assert_eq!(scan_rate_milli(b"1.23456 fps"), Some(1_234));
}

#[test]
fn number_must_stand_directly_before_the_token() {
    // The digits right before the token are the match, not the first
    // digits in the text.
    assert_eq!(scan_rate_milli(b"12 34 fps"), Some(34_000));
    assert_eq!(scan_rate_milli(b"12.34.5 fps"), Some(34_500));
}

#[test]
fn trailing_zeroes_are_kept_in_value() {
    assert_eq!(scan_rate_milli(b"23.976 fps"), Some(23_976));
    assert_eq!(scan_rate_milli(b"24.0 fps"), Some(24_000));
}

#[test]
fn overlong_number_saturates() {
    assert_eq!(scan_rate_milli(b"99999999999999999999999999 fps"), Some(u64::MAX));
}
