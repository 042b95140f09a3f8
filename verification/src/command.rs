//! Construction of the two tool invocations.
//!
//! The extraction tool is given the source file and a zero-padded
//! sequential frame pattern inside the workspace; the encoding tool is
//! given the clamped frame rate and quality, the output path and a glob
//! over the staged frames. Only the argument lists are built here — the
//! unverified driver launches the processes.

use vstd::prelude::*;

use crate::clamp::clamp_quality;
use crate::clamp::clamp_quality_spec;
use crate::clamp::clamp_rate_milli;
use crate::clamp::clamp_rate_milli_spec;
use crate::numfmt::dec_digits;
use crate::numfmt::format_rate_milli;
use crate::numfmt::format_u64;
use crate::numfmt::rate_text;
use crate::rate::FrameRate;

verus! {

/// The views of an argument list's elements.
pub open spec fn arg_views(a: Seq<Vec<u8>>) -> Seq<Seq<u8>> {
    a.map_values(|v: Vec<u8>| v@)
}

/// The extractor's input flag: `-i`.
pub open spec fn flag_input() -> Seq<u8> {
    seq!['-' as u8, 'i' as u8]
}

/// The encoder's frame-rate flag: `--fps`.
pub open spec fn flag_fps() -> Seq<u8> {
    seq!['-' as u8, '-' as u8, 'f' as u8, 'p' as u8, 's' as u8]
}

/// The encoder's quality flag: `--quality`.
pub open spec fn flag_quality() -> Seq<u8> {
    seq![
        '-' as u8,
        '-' as u8,
        'q' as u8,
        'u' as u8,
        'a' as u8,
        'l' as u8,
        'i' as u8,
        't' as u8,
        'y' as u8,
    ]
}

/// The encoder's output flag: `-o`.
pub open spec fn flag_output() -> Seq<u8> {
    seq!['-' as u8, 'o' as u8]
}

/// The frame-numbering suffix placed under the workspace:
/// `/frame%04d.png`.
pub open spec fn pattern_suffix() -> Seq<u8> {
    seq![
        '/' as u8,
        'f' as u8,
        'r' as u8,
        'a' as u8,
        'm' as u8,
        'e' as u8,
        '%' as u8,
        '0' as u8,
        '4' as u8,
        'd' as u8,
        '.' as u8,
        'p' as u8,
        'n' as u8,
        'g' as u8,
    ]
}

/// The glob suffix selecting every staged frame: `/frame*.png`.
pub open spec fn glob_suffix() -> Seq<u8> {
    seq![
        '/' as u8,
        'f' as u8,
        'r' as u8,
        'a' as u8,
        'm' as u8,
        'e' as u8,
        '*' as u8,
        '.' as u8,
        'p' as u8,
        'n' as u8,
        'g' as u8,
    ]
}

/// The frame-numbering pattern inside the workspace.
pub open spec fn frame_pattern(workspace: Seq<u8>) -> Seq<u8> {
    workspace + pattern_suffix()
}

/// The glob over all staged frames inside the workspace.
pub open spec fn frame_glob(workspace: Seq<u8>) -> Seq<u8> {
    workspace + glob_suffix()
}

/// The extractor's argument list: the source file and the frame pattern.
pub open spec fn extractor_args_spec(source: Seq<u8>, workspace: Seq<u8>) -> Seq<Seq<u8>> {
    seq![flag_input(), source, frame_pattern(workspace)]
}

/// The encoder's argument list: clamped rate and quality, output path and
/// frame glob.
pub open spec fn encoder_args_spec(
    quality: u32,
    rate: FrameRate,
    workspace: Seq<u8>,
    output: Seq<u8>,
) -> Seq<Seq<u8>> {
    seq![
        flag_fps(),
        rate_text(clamp_rate_milli_spec(rate.milli as int) as nat),
        flag_quality(),
        dec_digits(clamp_quality_spec(quality as int) as nat),
        flag_output(),
        output,
        frame_glob(workspace),
    ]
}

/// Build the extractor's argument list.
pub fn extractor_args(source: &[u8], workspace: &[u8]) -> (r: Vec<Vec<u8>>)
    ensures
        arg_views(r@) == extractor_args_spec(source@, workspace@),
{
    let mut r: Vec<Vec<u8>> = Vec::new();
    let mut f: Vec<u8> = Vec::new();
    f.push('-' as u8);
    f.push('i' as u8);
    proof {
        assert(f@ =~= flag_input());
    }
    r.push(f);
    r.push(vstd::slice::slice_to_vec(source));
    let mut p = vstd::slice::slice_to_vec(workspace);
    p.push('/' as u8);
    p.push('f' as u8);
    p.push('r' as u8);
    p.push('a' as u8);
    p.push('m' as u8);
    p.push('e' as u8);
    p.push('%' as u8);
    p.push('0' as u8);
    p.push('4' as u8);
    p.push('d' as u8);
    p.push('.' as u8);
    p.push('p' as u8);
    p.push('n' as u8);
    p.push('g' as u8);
    proof {
        assert(p@ =~= frame_pattern(workspace@));
    }
    r.push(p);
    proof {
        assert(arg_views(r@) =~~= extractor_args_spec(source@, workspace@));
    }
    r
}

/// Build the encoder's argument list, clamping both parameters.
pub fn encoder_args(quality: u32, rate: FrameRate, workspace: &[u8], output: &[u8]) -> (r: Vec<
    Vec<u8>,
>)
    ensures
        arg_views(r@) == encoder_args_spec(quality, rate, workspace@, output@),
{
    let mut r: Vec<Vec<u8>> = Vec::new();
    let mut f: Vec<u8> = Vec::new();
    f.push('-' as u8);
    f.push('-' as u8);
    f.push('f' as u8);
    f.push('p' as u8);
    f.push('s' as u8);
    proof {
        assert(f@ =~= flag_fps());
    }
    r.push(f);
    r.push(format_rate_milli(clamp_rate_milli(rate.milli)));
    let mut q: Vec<u8> = Vec::new();
    q.push('-' as u8);
    q.push('-' as u8);
    q.push('q' as u8);
    q.push('u' as u8);
    q.push('a' as u8);
    q.push('l' as u8);
    q.push('i' as u8);
    q.push('t' as u8);
    q.push('y' as u8);
    proof {
        assert(q@ =~= flag_quality());
    }
    r.push(q);
    r.push(format_u64(clamp_quality(quality) as u64));
    let mut o: Vec<u8> = Vec::new();
    o.push('-' as u8);
    o.push('o' as u8);
    proof {
        assert(o@ =~= flag_output());
    }
    r.push(o);
    r.push(vstd::slice::slice_to_vec(output));
    let mut g = vstd::slice::slice_to_vec(workspace);
    g.push('/' as u8);
    g.push('f' as u8);
    g.push('r' as u8);
    g.push('a' as u8);
    g.push('m' as u8);
    g.push('e' as u8);
    g.push('*' as u8);
    g.push('.' as u8);
    g.push('p' as u8);
    g.push('n' as u8);
    g.push('g' as u8);
    proof {
        assert(g@ =~= frame_glob(workspace@));
    }
    r.push(g);
    proof {
        assert(arg_views(r@) =~~= encoder_args_spec(quality, rate, workspace@, output@));
    }
    r
}

} // verus!
