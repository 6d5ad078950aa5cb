use updater::layout::{decimal_string, path_inside, slot_payload_file, state_file};

#[test]
fn decimal_of_single_digits() {
    assert_eq!(decimal_string(0), "0");
    assert_eq!(decimal_string(1), "1");
    assert_eq!(decimal_string(2), "2");
    assert_eq!(decimal_string(3), "3");
    assert_eq!(decimal_string(4), "4");
    assert_eq!(decimal_string(5), "5");
    assert_eq!(decimal_string(6), "6");
    assert_eq!(decimal_string(7), "7");
    assert_eq!(decimal_string(8), "8");
    assert_eq!(decimal_string(9), "9");
}

#[test]
fn decimal_of_longer_numbers() {
    assert_eq!(decimal_string(10), "10");
    assert_eq!(decimal_string(11), "11");
    assert_eq!(decimal_string(99), "99");
    assert_eq!(decimal_string(100), "100");
    assert_eq!(decimal_string(1203), "1203");
    assert_eq!(decimal_string(9876543210), "9876543210");
}

#[test]
fn decimal_agrees_with_the_standard_formatter() {
    for n in [0usize, 7, 10, 19, 20, 101, 999, 1000, 65535, 65536, usize::MAX - 1, usize::MAX] {
        assert_eq!(decimal_string(n), format!("{}", n));
    }
}

#[test]
fn path_inside_puts_one_separator() {
    assert_eq!(path_inside("/tmp/cache", "state.json"), "/tmp/cache/state.json");
    assert_eq!(path_inside("cache", "a"), "cache/a");
}

#[test]
fn path_inside_adds_no_second_separator() {
    assert_eq!(path_inside("/tmp/cache/", "state.json"), "/tmp/cache/state.json");
    assert_eq!(path_inside("/", "state.json"), "/state.json");
}

#[test]
fn path_inside_an_empty_directory_is_relative() {
    assert_eq!(path_inside("", "state.json"), "state.json");
}

#[test]
fn path_inside_counts_characters_not_bytes() {
    assert_eq!(path_inside("/tmp/cäche", "a"), "/tmp/cäche/a");
    assert_eq!(path_inside("/tmp/é", "a"), "/tmp/é/a");
    assert_eq!(path_inside("/tmp/é/", "a"), "/tmp/é/a");
}

#[test]
fn slot_payload_file_of_the_two_rotating_slots() {
    assert_eq!(slot_payload_file("/tmp/cache", 0), "/tmp/cache/slot_0/dlc.vmcode");
    assert_eq!(slot_payload_file("/tmp/cache", 1), "/tmp/cache/slot_1/dlc.vmcode");
}

#[test]
fn slot_payload_file_of_a_later_slot() {
    assert_eq!(slot_payload_file("/tmp/cache", 12), "/tmp/cache/slot_12/dlc.vmcode");
}

#[test]
fn slot_payload_file_under_odd_directories() {
    assert_eq!(slot_payload_file("/tmp/cache/", 0), "/tmp/cache/slot_0/dlc.vmcode");
    assert_eq!(slot_payload_file("", 1), "slot_1/dlc.vmcode");
    assert_eq!(slot_payload_file("/", 0), "/slot_0/dlc.vmcode");
    assert_eq!(slot_payload_file("relative/dir", 0), "relative/dir/slot_0/dlc.vmcode");
}

#[test]
fn state_file_lies_directly_under_the_cache_directory() {
    assert_eq!(state_file("/tmp/cache"), "/tmp/cache/state.json");
    assert_eq!(state_file("/tmp/cache/"), "/tmp/cache/state.json");
    assert_eq!(state_file(""), "state.json");
}

#[test]
fn slots_and_state_file_do_not_share_a_path() {
    for dir in ["", "/", "/tmp/cache", "/tmp/cache/", "slot_0", "state.json"] {
        let state = state_file(dir);
        let mut seen: Vec<String> = Vec::new();
        for index in [0usize, 1, 2, 9, 10, 11, 19, 90, 99, 100, 101, 110] {
            let path = slot_payload_file(dir, index);
            assert_ne!(path, state);
            assert!(!seen.contains(&path));
            seen.push(path);
        }
    }
}
