use vanity_search::prefix::TargetPrefixes;
use vanity_search::record::{Candidate, FoundRecord, LogMessage};
use vanity_search::results::{
    result_writer_step, ResultAction, ResultLedger, Verdict, RESULT_FILE_NAME,
};

fn record(prefix: &str, sequence: u64) -> FoundRecord {
    FoundRecord {
        prefix: prefix.to_string(),
        sequence,
        timestamp: "20240102030405-000".to_string(),
        public_address: format!("{}rest", prefix),
        private_key_encoding: "key".to_string(),
    }
}

fn line(prefix: &str, sequence: u64) -> String {
    format!(
        "[20240102030405-000] [FOUND] prefix: {} | sequence: {} | public: {}rest | private: key",
        prefix, sequence, prefix
    )
}

#[test]
fn fresh_ledger_has_found_nothing() {
    let ledger = ResultLedger::new(3);
    assert!(!ledger.all_found());
    assert_eq!(ledger.found_count(), 0);
    assert!(!ledger.is_found("aa"));
    assert_eq!(ledger.found_prefixes(), Vec::<String>::new());
}

#[test]
fn new_prefix_is_recorded_once() {
    let mut ledger = ResultLedger::new(3);
    assert_eq!(ledger.accept("aa"), Verdict::Recorded);
    assert!(ledger.is_found("aa"));
    assert_eq!(ledger.found_count(), 1);
    assert_eq!(ledger.accept("aa"), Verdict::Duplicate);
    assert_eq!(ledger.found_count(), 1);
    assert_eq!(ledger.found_prefixes(), vec!["aa".to_string()]);
    assert!(!ledger.all_found());
}

#[test]
fn last_missing_prefix_completes_the_search() {
    let mut ledger = ResultLedger::new(2);
    assert_eq!(ledger.accept("bb"), Verdict::Recorded);
    assert!(!ledger.all_found());
    assert_eq!(ledger.accept("aa"), Verdict::Completed);
    assert!(ledger.all_found());
    assert_eq!(ledger.found_prefixes(), vec!["bb".to_string(), "aa".to_string()]);
}

#[test]
fn nothing_is_accepted_after_completion() {
    let mut ledger = ResultLedger::new(1);
    assert_eq!(ledger.accept("aa"), Verdict::Completed);
    assert_eq!(ledger.accept("cc"), Verdict::Closed);
    assert_eq!(ledger.accept("aa"), Verdict::Closed);
    assert_eq!(ledger.found_count(), 1);
    assert!(!ledger.is_found("cc"));
    assert!(ledger.all_found());
}

#[test]
fn run_without_targets_never_completes() {
    let mut ledger = ResultLedger::new(0);
    assert!(!ledger.all_found());
    assert_eq!(ledger.accept("aa"), Verdict::Recorded);
    assert_eq!(ledger.accept("bb"), Verdict::Recorded);
    assert!(!ledger.all_found());
}

#[test]
fn repeated_target_is_never_completed() {
    let mut ledger = ResultLedger::new(2);
    assert_eq!(ledger.accept("aa"), Verdict::Recorded);
    for _ in 0..5 {
        assert_eq!(ledger.accept("aa"), Verdict::Duplicate);
    }
    assert!(!ledger.all_found());
    assert_eq!(ledger.found_count(), 1);
}

#[test]
fn remaining_lists_missing_targets_in_list_order() {
    let targets = TargetPrefixes::new(vec!["aa".to_string(), "bb".to_string(), "cc".to_string()]);
    let mut ledger = ResultLedger::new(targets.len());
    assert_eq!(ledger.remaining(&targets), vec!["aa", "bb", "cc"]);
    ledger.accept("bb");
    assert_eq!(ledger.remaining(&targets), vec!["aa", "cc"]);
    ledger.accept("cc");
    assert_eq!(ledger.remaining(&targets), vec!["aa"]);
    ledger.accept("aa");
    assert_eq!(ledger.remaining(&targets), Vec::<String>::new());
}

#[test]
fn simultaneous_matches_for_one_prefix_give_one_line() {
    let mut ledger = ResultLedger::new(2);
    let first = Some(LogMessage::Found(record("aa", 41)));
    let second = Some(LogMessage::Found(record("aa", 42)));
    let mut lines = Vec::new();
    for event in [&first, &second] {
        let before = ledger.found_count();
        match result_writer_step(&mut ledger, event) {
            ResultAction::Write { line, complete } => {
                assert!(!complete);
                assert_eq!(ledger.found_count(), before + 1);
                lines.push(line);
            }
            ResultAction::Skip => assert_eq!(ledger.found_count(), before),
            ResultAction::Stop => panic!("the channel is open"),
        }
    }
    assert_eq!(lines, vec![line("aa", 41)]);
    assert_eq!(ledger.found_count(), 1);
    assert!(!ledger.all_found());
}

#[test]
fn result_writer_writes_then_completes() {
    let mut ledger = ResultLedger::new(2);
    let a = result_writer_step(&mut ledger, &Some(LogMessage::Found(record("aa", 10))));
    assert_eq!(a, ResultAction::Write { line: line("aa", 10), complete: false });
    let b = result_writer_step(&mut ledger, &Some(LogMessage::Found(record("bb", 15))));
    assert_eq!(b, ResultAction::Write { line: line("bb", 15), complete: true });
    assert!(ledger.all_found());
    let c = result_writer_step(&mut ledger, &Some(LogMessage::Found(record("cc", 16))));
    assert_eq!(c, ResultAction::Skip);
    assert_eq!(ledger.found_count(), 2);
}

#[test]
fn result_writer_ignores_attempts() {
    let mut ledger = ResultLedger::new(1);
    let attempt = Candidate {
        sequence: 1,
        public_address: "aa".to_string(),
        private_key_encoding: "k".to_string(),
        timestamp: "t".to_string(),
    };
    let action = result_writer_step(&mut ledger, &Some(LogMessage::Regular(attempt)));
    assert_eq!(action, ResultAction::Skip);
    assert_eq!(ledger.found_count(), 0);
}

#[test]
fn closed_channel_stops_without_completion() {
    let mut ledger = ResultLedger::new(2);
    result_writer_step(&mut ledger, &Some(LogMessage::Found(record("aa", 1))));
    assert_eq!(result_writer_step(&mut ledger, &None), ResultAction::Stop);
    assert!(!ledger.all_found());
    assert_eq!(ledger.found_count(), 1);
}

#[test]
fn complete_exactly_when_every_target_has_arrived() {
    let targets = ["aa", "bb", "cc"];
    let orders: [&[&str]; 5] = [
        &["aa", "bb", "cc"],
        &["cc", "cc", "aa", "bb", "aa"],
        &["bb", "aa", "bb", "aa"],
        &[],
        &["cc", "bb", "aa", "aa"],
    ];
    for order in orders {
        let mut ledger = ResultLedger::new(targets.len());
        for prefix in order.iter() {
            ledger.accept(prefix);
        }
        let every = targets.iter().all(|t| order.contains(t));
        assert_eq!(ledger.all_found(), every);
        let found = ledger.found_prefixes();
        for (i, p) in found.iter().enumerate() {
            assert!(!found[..i].contains(p));
            assert!(targets.contains(&p.as_str()));
        }
        if every {
            assert_eq!(found.len(), targets.len());
        }
    }
}

#[test]
fn result_file_has_a_fixed_name() {
    assert_eq!(RESULT_FILE_NAME, "result.log");
}
