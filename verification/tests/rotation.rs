use vanity_search::rotation::{log_file_name, LogRotation, MAX_LINES_PER_FILE};

#[test]
fn first_file_is_number_zero() {
    let rotation = LogRotation::new();
    assert_eq!(rotation.file_index(), 0);
    assert_eq!(rotation.line_count(), 0);
    assert_eq!(rotation.file_name(), "keypairs_0000.log");
}

#[test]
fn file_names_are_zero_padded_to_four_digits() {
    assert_eq!(log_file_name(0), "keypairs_0000.log");
    assert_eq!(log_file_name(7), "keypairs_0007.log");
    assert_eq!(log_file_name(42), "keypairs_0042.log");
    assert_eq!(log_file_name(9999), "keypairs_9999.log");
    assert_eq!(log_file_name(10000), "keypairs_10000.log");
    assert_eq!(log_file_name(u32::MAX), "keypairs_4294967295.log");
}

#[test]
fn rotation_happens_exactly_at_the_limit() {
    let mut rotation = LogRotation::new();
    for written in 1..MAX_LINES_PER_FILE {
        assert!(rotation.can_write());
        assert_eq!(rotation.write_line(), None);
        assert_eq!(rotation.line_count(), written);
        assert_eq!(rotation.file_index(), 0);
    }
    assert_eq!(rotation.write_line(), Some("keypairs_0001.log".to_string()));
    assert_eq!(rotation.file_index(), 1);
    assert_eq!(rotation.line_count(), 0);
    assert_eq!(rotation.write_line(), None);
    assert_eq!(rotation.line_count(), 1);
    assert_eq!(rotation.file_index(), 1);
}

#[test]
fn every_file_but_the_last_holds_the_full_number_of_lines() {
    let mut rotation = LogRotation::new();
    let mut lines_in_file = vec![0u64];
    for _ in 0..(2 * MAX_LINES_PER_FILE + 5) {
        let index = rotation.file_index() as usize;
        lines_in_file[index] += 1;
        if let Some(name) = rotation.write_line() {
            assert_eq!(rotation.file_index() as usize, index + 1);
            assert_eq!(name, log_file_name(rotation.file_index()));
            assert_eq!(rotation.line_count(), 0);
            lines_in_file.push(0);
        } else {
            assert_eq!(rotation.file_index() as usize, index);
        }
        assert!(rotation.line_count() < MAX_LINES_PER_FILE);
    }
    assert_eq!(lines_in_file, vec![MAX_LINES_PER_FILE, MAX_LINES_PER_FILE, 5]);
    assert_eq!(rotation.file_name(), "keypairs_0002.log");
}

#[test]
fn rotate_file_moves_to_the_next_index() {
    let mut rotation = LogRotation::new();
    rotation.write_line();
    rotation.write_line();
    assert_eq!(rotation.rotate_file(), "keypairs_0001.log");
    assert_eq!(rotation.file_index(), 1);
    assert_eq!(rotation.line_count(), 0);
    assert_eq!(rotation.rotate_file(), "keypairs_0002.log");
    assert_eq!(rotation.file_index(), 2);
}
