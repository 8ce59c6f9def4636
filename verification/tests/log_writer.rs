use vanity_search::record::{Candidate, FoundRecord, LogMessage};
use vanity_search::rotation::{log_writer_step, LogAction, LogRotation, MAX_LINES_PER_FILE};

fn attempt(sequence: u64) -> Option<LogMessage> {
    Some(LogMessage::Regular(Candidate {
        sequence,
        public_address: "Addr".to_string(),
        private_key_encoding: "Key".to_string(),
        timestamp: "20240102030405-000".to_string(),
    }))
}

#[test]
fn attempt_is_written_as_one_line() {
    let mut rotation = LogRotation::new();
    let action = log_writer_step(&mut rotation, &attempt(12));
    assert_eq!(
        action,
        LogAction::Write {
            line: "[20240102030405-000] sequence: 12 | public: Addr | private: Key".to_string(),
            next_file: None,
        }
    );
    assert_eq!(rotation.line_count(), 1);
    assert_eq!(rotation.file_index(), 0);
}

#[test]
fn found_record_is_not_logged() {
    let mut rotation = LogRotation::new();
    let found = Some(LogMessage::Found(FoundRecord {
        prefix: "Ad".to_string(),
        sequence: 1,
        timestamp: "t".to_string(),
        public_address: "Addr".to_string(),
        private_key_encoding: "Key".to_string(),
    }));
    assert_eq!(log_writer_step(&mut rotation, &found), LogAction::Skip);
    assert_eq!(rotation.line_count(), 0);
}

#[test]
fn closed_channel_stops_the_log_writer() {
    let mut rotation = LogRotation::new();
    log_writer_step(&mut rotation, &attempt(1));
    assert_eq!(log_writer_step(&mut rotation, &None), LogAction::Stop);
    assert_eq!(rotation.line_count(), 1);
    assert_eq!(rotation.file_index(), 0);
}

#[test]
fn millionth_line_opens_the_next_file() {
    let mut rotation = LogRotation::new();
    let event = attempt(3);
    for _ in 2..MAX_LINES_PER_FILE {
        assert_eq!(rotation.write_line(), None);
    }
    match log_writer_step(&mut rotation, &event) {
        LogAction::Write { next_file, .. } => assert_eq!(next_file, None),
        _ => panic!("an attempt is written"),
    }
    assert_eq!(rotation.line_count(), MAX_LINES_PER_FILE - 1);
    match log_writer_step(&mut rotation, &event) {
        LogAction::Write { line, next_file } => {
            assert_eq!(line, "[20240102030405-000] sequence: 3 | public: Addr | private: Key");
            assert_eq!(next_file, Some("keypairs_0001.log".to_string()));
        }
        _ => panic!("an attempt is written"),
    }
    assert_eq!(rotation.file_index(), 1);
    assert_eq!(rotation.line_count(), 0);
}
