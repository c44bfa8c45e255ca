use cargo_travis::progress::Progress;

#[test]
fn progress_is_told_once_for_every_mebibyte() {
    let mut progress = Progress::new();
    assert_eq!(progress.observe(0, 5 * 1048576), None);
    assert_eq!(progress.observe(1048575, 5 * 1048576), None);
    assert_eq!(progress.observe(1048576, 5 * 1048576), Some("1/5 MiB".to_string()));
    assert_eq!(progress.told, 1);
    assert_eq!(progress.observe(1048577, 5 * 1048576), None);
    assert_eq!(progress.observe(2 * 1048576 - 1, 5 * 1048576), None);
    assert_eq!(progress.observe(3 * 1048576 + 17, 5 * 1048576 + 9), Some("3/5 MiB".to_string()));
    assert_eq!(progress.told, 3);
}

#[test]
fn progress_is_silent_when_the_copy_goes_back() {
    let mut progress = Progress::new();
    assert_eq!(progress.observe(4 * 1048576, 4 * 1048576), Some("4/4 MiB".to_string()));
    assert_eq!(progress.observe(2 * 1048576, 4 * 1048576), None);
    assert_eq!(progress.told, 4);
}

#[test]
fn progress_of_a_small_copy_is_never_told() {
    let mut progress = Progress::new();
    assert_eq!(progress.observe(10, 1000), None);
    assert_eq!(progress.observe(1000, 1000), None);
    assert_eq!(progress.told, 0);
}
