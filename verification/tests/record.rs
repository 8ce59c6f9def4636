use vanity_search::record::{attempt_line, found_line, Candidate, FoundRecord};

#[test]
fn attempt_line_has_the_documented_shape() {
    let candidate = Candidate {
        sequence: 1234567,
        public_address: "9xQeWvG816bUx9EPjHmaT23yvVM2ZWbrrpZb9PusVFin".to_string(),
        private_key_encoding: "3Kd9".to_string(),
        timestamp: "20240102030405-678".to_string(),
    };
    assert_eq!(
        attempt_line(&candidate),
        "[20240102030405-678] sequence: 1234567 | public: 9xQeWvG816bUx9EPjHmaT23yvVM2ZWbrrpZb9PusVFin | private: 3Kd9"
    );
}

#[test]
fn found_line_has_the_documented_shape() {
    let record = FoundRecord {
        prefix: "aa".to_string(),
        sequence: 10,
        timestamp: "20240102030405-001".to_string(),
        public_address: "aaBC".to_string(),
        private_key_encoding: "5J".to_string(),
    };
    assert_eq!(
        found_line(&record),
        "[20240102030405-001] [FOUND] prefix: aa | sequence: 10 | public: aaBC | private: 5J"
    );
}

#[test]
fn lines_render_extreme_sequence_numbers() {
    let mut candidate = Candidate {
        sequence: 0,
        public_address: "A".to_string(),
        private_key_encoding: "K".to_string(),
        timestamp: "T".to_string(),
    };
    assert_eq!(attempt_line(&candidate), "[T] sequence: 0 | public: A | private: K");
    candidate.sequence = u64::MAX;
    assert_eq!(
        attempt_line(&candidate),
        "[T] sequence: 18446744073709551615 | public: A | private: K"
    );
}

#[test]
fn lines_accept_empty_fields() {
    let record = FoundRecord {
        prefix: String::new(),
        sequence: 7,
        timestamp: String::new(),
        public_address: String::new(),
        private_key_encoding: String::new(),
    };
    assert_eq!(found_line(&record), "[] [FOUND] prefix:  | sequence: 7 | public:  | private: ");
}
