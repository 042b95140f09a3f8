use gifpipe::file_stem;
use gifpipe::resolve_output;

#[test]
fn no_specifier_yields_suffixed_sibling() {
    let out = resolve_output(b"/videos/clip.mp4", None, b"clip");
    assert_eq!(out, b"/videos/clip-gifski.gif".to_vec());
}

#[test]
fn bare_name_without_extension_gets_one() {
    let out = resolve_output(b"/videos/clip.mp4", Some(b"out".as_slice()), b"clip");
    assert_eq!(out, b"/videos/out.gif".to_vec());
}

#[test]
fn bare_name_with_extension_is_kept_verbatim() {
    let out = resolve_output(b"/videos/clip.mp4", Some(b"out.gif".as_slice()), b"clip");
    assert_eq!(out, b"/videos/out.gif".to_vec());
    let webp = resolve_output(b"/videos/clip.mp4", Some(b"out.webp".as_slice()), b"clip");
    assert_eq!(webp, b"/videos/out.webp".to_vec());
}

#[test]
fn specifier_with_separator_is_used_as_given() {
    let out = resolve_output(b"/videos/clip.mp4", Some(b"sub/out.webp".as_slice()), b"clip");
    assert_eq!(out, b"sub/out.webp".to_vec());
    let abs = resolve_output(b"/videos/clip.mp4", Some(b"/elsewhere/x".as_slice()), b"clip");
    assert_eq!(abs, b"/elsewhere/x".to_vec());
}

#[test]
fn source_without_directory_yields_bare_outputs() {
    let out = resolve_output(b"clip.mp4", None, b"clip");
    assert_eq!(out, b"clip-gifski.gif".to_vec());
    let named = resolve_output(b"clip.mp4", Some(b"out".as_slice()), b"clip");
    assert_eq!(named, b"out.gif".to_vec());
}

#[test]
fn stem_strips_directory_and_extension() {
    assert_eq!(file_stem(b"/videos/clip.mp4"), Some(b"clip".to_vec()));
    assert_eq!(file_stem(b"clip.mp4"), Some(b"clip".to_vec()));
    assert_eq!(file_stem(b"archive.tar.gz"), Some(b"archive.tar".to_vec()));
}

#[test]
fn hidden_file_is_its_own_stem() {
    assert_eq!(file_stem(b".gitignore"), Some(b".gitignore".to_vec()));
}

#[test]
fn pathological_names_have_no_stem() {
    assert_eq!(file_stem(b""), None);
    assert_eq!(file_stem(b"/videos/"), None);
    assert_eq!(file_stem(b"/videos/.."), None);
    assert_eq!(file_stem(b"."), None);
}
