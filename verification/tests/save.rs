use soomer::save::{join_save_path, save_path};

#[test]
fn path_is_directory_stamp_and_name() {
    assert_eq!(join_save_path(".", "12s", "screenshot.png"), "./smr_12s_screenshot.png");
    assert_eq!(join_save_path("./", "12s", "screenshot.png"), ".//smr_12s_screenshot.png");
    assert_eq!(join_save_path("/home/u/shots", "1.5s", "a.png"), "/home/u/shots/smr_1.5s_a.png");
    assert_eq!(join_save_path("", "", ""), "/smr__");
}

#[test]
fn stamp_is_the_printed_duration() {
    assert_eq!(save_path(".", 5, 0, "a.png"), "./smr_5s_a.png");
    assert_eq!(save_path(".", 5, 500_000_000, "a.png"), "./smr_5.5s_a.png");
    assert_eq!(save_path("out", 0, 1_000_000, "a.png"), "out/smr_1ms_a.png");
    assert_eq!(
        save_path("/tmp", 1_700_000_000, 123_456_789, "screenshot.png"),
        "/tmp/smr_1700000000.123456789s_screenshot.png"
    );
}

#[test]
fn saves_within_one_tick_share_a_path() {
    assert_eq!(save_path("d", 7, 42, "n"), save_path("d", 7, 42, "n"));
    assert_ne!(save_path("d", 7, 42, "n"), save_path("d", 7, 43, "n"));
}
