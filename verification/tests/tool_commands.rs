use gifpipe::FrameRate;
use gifpipe::encoder_args;
use gifpipe::extractor_args;

#[test]
fn extractor_invocation_names_source_and_pattern() {
    let args = extractor_args(b"/videos/clip.mp4", b"/tmp/frames");
    assert_eq!(args.len(), 3);
    assert_eq!(args[0], b"-i".to_vec());
    assert_eq!(args[1], b"/videos/clip.mp4".to_vec());
    assert_eq!(args[2], b"/tmp/frames/frame%04d.png".to_vec());
}

#[test]
fn encoder_invocation_carries_rate_quality_output_and_glob() {
    let args = encoder_args(100, FrameRate { milli: 29_970 }, b"/tmp/frames", b"/videos/out.gif");
    assert_eq!(args.len(), 7);
    assert_eq!(args[0], b"--fps".to_vec());
    assert_eq!(args[1], b"29.97".to_vec());
    assert_eq!(args[2], b"--quality".to_vec());
    assert_eq!(args[3], b"100".to_vec());
    assert_eq!(args[4], b"-o".to_vec());
    assert_eq!(args[5], b"/videos/out.gif".to_vec());
    assert_eq!(args[6], b"/tmp/frames/frame*.png".to_vec());
}

#[test]
fn encoder_invocation_clamps_out_of_range_parameters() {
    let args = encoder_args(250, FrameRate { milli: 60_000 }, b"/tmp/frames", b"o.gif");
    assert_eq!(args[1], b"50".to_vec());
    assert_eq!(args[3], b"100".to_vec());
}

#[test]
fn whole_rates_are_rendered_without_a_point() {
    let args = encoder_args(80, FrameRate { milli: 30_000 }, b"/w", b"o.gif");
    assert_eq!(args[1], b"30".to_vec());
    assert_eq!(args[3], b"80".to_vec());
}

#[test]
fn fractional_rates_drop_trailing_zeros() {
    let a = encoder_args(1, FrameRate { milli: 12_300 }, b"/w", b"o.gif");
    assert_eq!(a[1], b"12.3".to_vec());
    let b = encoder_args(1, FrameRate { milli: 500 }, b"/w", b"o.gif");
    assert_eq!(b[1], b"0.5".to_vec());
    let c = encoder_args(1, FrameRate { milli: 23_976 }, b"/w", b"o.gif");
    assert_eq!(c[1], b"23.976".to_vec());
    let d = encoder_args(1, FrameRate { milli: 1_005 }, b"/w", b"o.gif");
    assert_eq!(d[1], b"1.005".to_vec());
}

#[test]
fn zero_rate_and_quality_are_rendered() {
    let args = encoder_args(0, FrameRate { milli: 0 }, b"/w", b"o.gif");
    assert_eq!(args[1], b"0".to_vec());
    assert_eq!(args[3], b"0".to_vec());
}
