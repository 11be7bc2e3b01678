use echocache::upload::{goes_in_parts, part_count, AfterAttempt, Attempt, UploadAttempts, B2_LARGE_FILE_SIZE};

const MB: usize = 1024 * 1024;

#[test]
fn parts_of_a_file() {
    assert_eq!(part_count(0, 100 * MB), 1);
    assert_eq!(part_count(100 * MB, 100 * MB), 2);
    assert_eq!(part_count(250 * MB, 100 * MB), 3);
}

#[test]
fn large_files_go_in_parts() {
    assert!(!goes_in_parts(B2_LARGE_FILE_SIZE - 1, 100 * MB));
    assert!(goes_in_parts(B2_LARGE_FILE_SIZE, 100 * MB));
    assert!(!goes_in_parts(B2_LARGE_FILE_SIZE, 2 * B2_LARGE_FILE_SIZE));
}

#[test]
fn attempts_run_out() {
    let mut a = UploadAttempts::default();
    let mut seen = Vec::new();
    while let Some(n) = a.begin() {
        seen.push(n);
        assert_eq!(a.after(n, Attempt::Unavailable, false), AfterAttempt::Retry(n as u64));
    }
    assert_eq!(seen, vec![1, 2, 3, 4, 5]);
    assert_eq!(a.begin(), None);
    assert_eq!(UploadAttempts::new(0).begin(), None);
}

#[test]
fn attempt_outcomes() {
    let a = UploadAttempts::new(3);
    assert_eq!(a.after(1, Attempt::Uploaded, true), AfterAttempt::Done);
    assert_eq!(a.after(1, Attempt::Failed, true), AfterAttempt::Fail);
    assert_eq!(a.after(3, Attempt::Unavailable, true), AfterAttempt::Retry(2));
}
