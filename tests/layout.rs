use warp::bootstrap::{finish_run, plan_run, should_extract, BootstrapError, ChildOutcome, RunPlan};
use warp::compose::{check_compose, Arch, ComposeError, EntryKind};
use warp::trailer::{compose_image, encode_trailer, payload_bounds, PayloadError, TRAILER_LEN};

#[test]
fn trailer_is_little_endian_stub_length() {
    assert_eq!(encode_trailer(0x0102), vec![2, 1, 0, 0, 0, 0, 0, 0]);
    assert_eq!(encode_trailer(0).len(), TRAILER_LEN);
}

#[test]
fn composed_image_payload_is_found_again() {
    let stub = b"STUB-BYTES".to_vec();
    let payload = b"payload!".to_vec();
    let img = compose_image(&stub, &payload);
    assert_eq!(img.len(), stub.len() + payload.len() + TRAILER_LEN);
    assert_eq!(&img[..stub.len()], &stub[..]);
    let tail = &img[img.len() - TRAILER_LEN..];
    let (start, end) = payload_bounds(img.len() as u64, tail).unwrap();
    assert_eq!((start, end), (10, 18));
    assert_eq!(&img[start as usize..end as usize], &payload[..]);
}

#[test]
fn empty_payload_and_stub() {
    let img = compose_image(&[], &[]);
    assert_eq!(img.len(), TRAILER_LEN);
    assert_eq!(payload_bounds(img.len() as u64, &img).unwrap(), (0, 0));
}

#[test]
fn corrupt_trailers_are_refused() {
    assert_eq!(payload_bounds(5, &[0, 0, 0, 0, 0]).unwrap_err(), PayloadError::TrailerCorrupt);
    assert_eq!(payload_bounds(20, &[0, 0, 0]).unwrap_err(), PayloadError::TrailerCorrupt);
    assert_eq!(payload_bounds(20, &encode_trailer(13)).unwrap_err(), PayloadError::TrailerCorrupt);
    assert_eq!(payload_bounds(20, &encode_trailer(12)).unwrap(), (12, 12));
}

#[test]
fn cache_reused_until_binary_is_newer() {
    // first run: no cache yet
    assert!(should_extract(false, None, 100));
    // second run, cache written after the binary
    assert!(!should_extract(false, Some(150), 100));
    assert!(!should_extract(false, Some(100), 100));
    // binary touched after the cache was written
    assert!(should_extract(false, Some(150), 200));
    // temporary directories are always filled
    assert!(should_extract(true, Some(150), 100));
}

#[test]
fn run_plans() {
    assert_eq!(
        plan_run(false, Some(-5), -10),
        RunPlan { clear_first: false, extract: false, remove_after: false }
    );
    assert_eq!(
        plan_run(false, Some(1), 2),
        RunPlan { clear_first: true, extract: true, remove_after: false }
    );
    assert_eq!(
        plan_run(true, None, 2),
        RunPlan { clear_first: false, extract: true, remove_after: true }
    );
}

#[test]
fn exit_code_seven_is_passed_on() {
    let end = finish_run(false, ChildOutcome::Exited(7));
    assert_eq!(end.exit_code, 7);
    assert!(!end.remove_workdir);
}

#[test]
fn temp_dir_removed_on_every_outcome() {
    for outcome in [ChildOutcome::Exited(0), ChildOutcome::Exited(42), ChildOutcome::Terminated, ChildOutcome::SpawnFailed] {
        assert!(finish_run(true, outcome).remove_workdir);
        assert!(!finish_run(false, outcome).remove_workdir);
    }
    assert_eq!(finish_run(true, ChildOutcome::Exited(42)).exit_code, 42);
}

#[test]
fn failures_map_to_reserved_codes() {
    assert_eq!(finish_run(true, ChildOutcome::Terminated).exit_code, 6);
    assert_eq!(finish_run(true, ChildOutcome::SpawnFailed).exit_code, 5);
    assert_eq!(BootstrapError::ConfigCorrupt.exit_code(), 3);
    assert_eq!(BootstrapError::SelfReadError.exit_code(), 4);
    assert_eq!(BootstrapError::TrailerCorrupt.exit_code(), 4);
    assert_eq!(BootstrapError::ExtractFailed.exit_code(), 4);
}

#[test]
fn arch_keys() {
    assert_eq!(Arch::from_key("linux-x64"), Some(Arch::LinuxX64));
    assert_eq!(Arch::from_key("linux-arm64"), Some(Arch::LinuxArm64));
    assert_eq!(Arch::from_key("macos-x64"), Some(Arch::MacosX64));
    assert_eq!(Arch::from_key("macos-arm64"), Some(Arch::MacosArm64));
    assert_eq!(Arch::from_key("windows-x64"), Some(Arch::WindowsX64));
    assert_eq!(Arch::from_key("linux-x6"), None);
    assert_eq!(Arch::from_key(""), None);
    assert_eq!(Arch::from_key("Linux-x64"), None);
    for a in Arch::supported() {
        assert_eq!(Arch::from_key(a.key()), Some(a));
    }
    assert_eq!(Arch::supported().len(), 5);
}

#[test]
fn compose_checks_in_order() {
    let long = "e".repeat(129);
    assert_eq!(check_compose("sparc", false, &long, EntryKind::Missing), Err(ComposeError::UnsupportedArchitecture));
    assert_eq!(check_compose("linux-x64", false, &long, EntryKind::Missing), Err(ComposeError::InputDirNotFound));
    assert_eq!(check_compose("linux-x64", true, &long, EntryKind::File), Err(ComposeError::NameTooLong));
    assert_eq!(check_compose("linux-x64", true, &"e".repeat(128), EntryKind::File), Err(ComposeError::NameTooLong));
    assert_eq!(check_compose("linux-x64", true, "app", EntryKind::Missing), Err(ComposeError::EntryNotFound));
    assert_eq!(check_compose("linux-x64", true, "app", EntryKind::NotAFile), Err(ComposeError::EntryNotAFile));
    assert_eq!(check_compose("macos-arm64", true, "app", EntryKind::File), Ok(Arch::MacosArm64));
}
