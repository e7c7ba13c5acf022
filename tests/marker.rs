use warp::marker::{config_block, find_marker, patch_runner, runner_magic, MarkerSearch, PatchError, MAGIC_LEN};
use warp::options::{runner_options, OptionsError};

fn image_with(prefix: &[u8], copies: usize, suffix: &[u8]) -> Vec<u8> {
    let mut img = prefix.to_vec();
    for _ in 0..copies {
        img.extend_from_slice(&runner_magic());
        img.extend_from_slice(b"--");
    }
    img.extend_from_slice(suffix);
    img
}

#[test]
fn magic_has_expected_shape() {
    let m = runner_magic();
    assert_eq!(m.len(), MAGIC_LEN);
    assert_eq!(MAGIC_LEN, 129);
    assert_eq!(&m[..4], b"tVQh");
    assert_eq!(m[128], 0);
}

#[test]
fn config_block_layout() {
    let b = config_block(b"run.sh", true);
    assert_eq!(b.len(), MAGIC_LEN);
    assert_eq!(&b[..6], b"run.sh");
    assert_eq!(b[6], 0);
    assert_eq!(b[7], 1);
    assert!(b[8..].iter().all(|&x| x == 0));
    let c = config_block(b"run.sh", false);
    assert_eq!(c[7], 0);
    assert!(c[6..].iter().all(|&x| x == 0));
}

#[test]
fn find_marker_cases() {
    let magic = runner_magic();
    assert_eq!(find_marker(b"abc", &magic), MarkerSearch::Absent);
    let one = image_with(b"header", 1, b"footer");
    assert_eq!(find_marker(&one, &magic), MarkerSearch::Unique(6));
    let two = image_with(b"header", 2, b"footer");
    assert_eq!(find_marker(&two, &magic), MarkerSearch::Ambiguous);
    assert_eq!(find_marker(b"aXbXc", b"X"), MarkerSearch::Ambiguous);
    assert_eq!(find_marker(b"aXb", b"X"), MarkerSearch::Unique(1));
}

#[test]
fn patch_then_read_back_round_trips() {
    let img = image_with(b"\x7fELF stub code", 1, b"more code after");
    for &temp in &[false, true] {
        let out = patch_runner(&img, "bin/app", temp).unwrap();
        assert_eq!(out.len(), img.len());
        let off = 14;
        assert_eq!(&out[..off], &img[..off]);
        assert_eq!(&out[off + MAGIC_LEN..], &img[off + MAGIC_LEN..]);
        let opts = runner_options(&out[off..off + MAGIC_LEN]).unwrap();
        assert_eq!(opts.exec_name, "bin/app");
        assert_eq!(opts.use_temp_dir, temp);
    }
}

#[test]
fn patch_round_trips_non_ascii_name() {
    let img = image_with(b"", 1, b"");
    let out = patch_runner(&img, "prog-\u{e9}t\u{e9}", false).unwrap();
    let opts = runner_options(&out[..MAGIC_LEN]).unwrap();
    assert_eq!(opts.exec_name, "prog-\u{e9}t\u{e9}");
    assert!(!opts.use_temp_dir);
}

#[test]
fn patch_keeps_length_for_every_shape() {
    for (pre, post) in [(0usize, 0usize), (1, 0), (0, 1), (1000, 37)] {
        let img = image_with(&vec![7u8; pre], 1, &vec![9u8; post]);
        let out = patch_runner(&img, "x", true).unwrap();
        assert_eq!(out.len(), img.len());
    }
}

#[test]
fn longest_accepted_name() {
    let img = image_with(b"ab", 1, b"cd");
    let name = "n".repeat(MAGIC_LEN - 2);
    let out = patch_runner(&img, &name, true).unwrap();
    let opts = runner_options(&out[2..2 + MAGIC_LEN]).unwrap();
    assert_eq!(opts.exec_name, name);
    assert!(opts.use_temp_dir);
}

#[test]
fn too_long_names_are_refused() {
    let img = image_with(b"ab", 1, b"cd");
    for len in [MAGIC_LEN - 1, MAGIC_LEN, MAGIC_LEN + 10] {
        let name = "n".repeat(len);
        assert_eq!(patch_runner(&img, &name, false).unwrap_err(), PatchError::NameTooLong);
        assert_eq!(patch_runner(b"no marker", &name, true).unwrap_err(), PatchError::NameTooLong);
    }
}

#[test]
fn missing_marker_is_refused() {
    assert_eq!(patch_runner(b"no marker here", "app", false).unwrap_err(), PatchError::MarkerNotFound);
    assert_eq!(patch_runner(b"", "app", false).unwrap_err(), PatchError::MarkerNotFound);
}

#[test]
fn repeated_marker_is_refused() {
    let img = image_with(b"ab", 2, b"cd");
    assert_eq!(patch_runner(&img, "app", false).unwrap_err(), PatchError::AmbiguousMarker);
}

#[test]
fn reading_corrupt_blocks_fails() {
    assert_eq!(runner_options(&[b'a'; 10]).unwrap_err(), OptionsError::NoTerminator);
    assert_eq!(runner_options(&[]).unwrap_err(), OptionsError::NoTerminator);
    assert_eq!(runner_options(&runner_magic()).unwrap_err(), OptionsError::NoModeByte);
    assert_eq!(runner_options(&[0xff, 0xfe, 0, 1]).unwrap_err(), OptionsError::NotUtf8);
}

#[test]
fn reading_stops_at_first_nul() {
    let opts = runner_options(b"abc\0\x01def\0\0").unwrap();
    assert_eq!(opts.exec_name, "abc");
    assert!(opts.use_temp_dir);
    let opts = runner_options(b"abc\0\x02").unwrap();
    assert!(!opts.use_temp_dir);
}
