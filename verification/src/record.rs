//! Candidates, the messages that workers send about them, and the lines in
//! which they are written to the attempt logs and to the result file.

use vstd::prelude::*;
use vstd::string::*;
use crate::text::{decimal, decimal_string};

verus! {

/// One generated key pair with its sequence number and the time at which it
/// was drawn.
#[derive(Debug, Clone, PartialEq, Eq)]
pub struct Candidate {
    pub sequence: u64,
    pub public_address: String,
    pub private_key_encoding: String,
    pub timestamp: String,
}

/// A candidate whose public address begins with a target prefix, together
/// with that prefix.
#[derive(Debug, Clone, PartialEq, Eq)]
pub struct FoundRecord {
    pub prefix: String,
    pub sequence: u64,
    pub timestamp: String,
    pub public_address: String,
    pub private_key_encoding: String,
}

/// What a worker reports about a candidate: an attempt that matched no
/// target prefix, bound for the attempt log, or a match, bound for the result
/// writer.
#[derive(Debug, Clone, PartialEq, Eq)]
pub enum LogMessage {
    Regular(Candidate),
    Found(FoundRecord),
}

/// A candidate as plain values.
pub struct CandidateView {
    pub sequence: u64,
    pub public_address: Seq<char>,
    pub private_key_encoding: Seq<char>,
    pub timestamp: Seq<char>,
}

/// A found record as plain values.
pub struct FoundRecordView {
    pub prefix: Seq<char>,
    pub sequence: u64,
    pub timestamp: Seq<char>,
    pub public_address: Seq<char>,
    pub private_key_encoding: Seq<char>,
}

/// A message as plain values.
pub enum MessageView {
    Regular(CandidateView),
    Found(FoundRecordView),
}

impl View for Candidate {
    type V = CandidateView;

    open spec fn view(&self) -> CandidateView {
        CandidateView {
            sequence: self.sequence,
            public_address: self.public_address@,
            private_key_encoding: self.private_key_encoding@,
            timestamp: self.timestamp@,
        }
    }
}

impl View for FoundRecord {
    type V = FoundRecordView;

    open spec fn view(&self) -> FoundRecordView {
        FoundRecordView {
            prefix: self.prefix@,
            sequence: self.sequence,
            timestamp: self.timestamp@,
            public_address: self.public_address@,
            private_key_encoding: self.private_key_encoding@,
        }
    }
}

impl View for LogMessage {
    type V = MessageView;

    open spec fn view(&self) -> MessageView {
        match self {
            LogMessage::Regular(candidate) => MessageView::Regular(candidate@),
            LogMessage::Found(record) => MessageView::Found(record@),
        }
    }
}

/// What a channel delivers, as plain values: a message, or nothing once
/// every sender is gone.
pub open spec fn event_view(event: Option<LogMessage>) -> Option<MessageView> {
    match event {
        Some(message) => Some(message@),
        None => None,
    }
}

/// The line of an attempt in the attempt log.
pub open spec fn attempt_line_spec(candidate: CandidateView) -> Seq<char> {
    "["@ + candidate.timestamp + "] sequence: "@ + decimal(candidate.sequence as nat)
        + " | public: "@ + candidate.public_address + " | private: "@
        + candidate.private_key_encoding
}

/// The line of a found record in the result file.
pub open spec fn found_line_spec(record: FoundRecordView) -> Seq<char> {
    "["@ + record.timestamp + "] [FOUND] prefix: "@ + record.prefix + " | sequence: "@ + decimal(
        record.sequence as nat,
    ) + " | public: "@ + record.public_address + " | private: "@ + record.private_key_encoding
}

/// Formats an attempt as one line of the attempt log, without the line
/// terminator.
pub fn attempt_line(candidate: &Candidate) -> (line: String)
    ensures
        line@ == attempt_line_spec(candidate@),
{
    let mut line = String::from_str("[");
    line.append(candidate.timestamp.as_str());
    line.append("] sequence: ");
    line.append(decimal_string(candidate.sequence).as_str());
    line.append(" | public: ");
    line.append(candidate.public_address.as_str());
    line.append(" | private: ");
    line.append(candidate.private_key_encoding.as_str());
    line
}

/// Formats a found record as one line of the result file, without the line
/// terminator.
pub fn found_line(record: &FoundRecord) -> (line: String)
    ensures
        line@ == found_line_spec(record@),
{
    let mut line = String::from_str("[");
    line.append(record.timestamp.as_str());
    line.append("] [FOUND] prefix: ");
    line.append(record.prefix.as_str());
    line.append(" | sequence: ");
    line.append(decimal_string(record.sequence).as_str());
    line.append(" | public: ");
    line.append(record.public_address.as_str());
    line.append(" | private: ");
    line.append(record.private_key_encoding.as_str());
    line
}

} // verus!
