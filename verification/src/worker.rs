//! One iteration of a worker: a freshly drawn key pair becomes a candidate,
//! and the candidate becomes the message that the worker sends.

use vstd::prelude::*;
use vstd::string::*;
use crate::keys::{KeyMaterial, KeyMaterialView};
use crate::prefix::{first_match, is_first_match, lemma_first_match_is_least, matches_at, TargetPrefixes};
use crate::record::{Candidate, CandidateView, FoundRecord, FoundRecordView, LogMessage, MessageView};

verus! {

/// The candidate made of key material, the time at which it was drawn and
/// its sequence number.
pub open spec fn candidate_spec(
    material: KeyMaterialView,
    timestamp: Seq<char>,
    sequence: u64,
) -> CandidateView {
    CandidateView {
        sequence,
        public_address: material.public_address,
        private_key_encoding: material.private_key_encoding,
        timestamp,
    }
}

/// Makes a candidate of key material, the time at which it was drawn and
/// the sequence number that the worker took for it.
pub fn candidate(material: KeyMaterial, timestamp: String, sequence: u64) -> (r: Candidate)
    ensures
        r@ == candidate_spec(material@, timestamp@, sequence),
{
    let KeyMaterial { public_address, private_key_encoding } = material;
    Candidate { sequence, public_address, private_key_encoding, timestamp }
}

/// The message that a candidate gives rise to under a list of target
/// prefixes: a found record for the first prefix in list order that its
/// public address begins with, and an attempt if there is none. A candidate
/// that matches several prefixes is attributed to the earliest alone.
pub open spec fn classification(candidate: CandidateView, prefixes: Seq<Seq<char>>) -> MessageView {
    match first_match(candidate.public_address, prefixes) {
        Some(i) => MessageView::Found(
            FoundRecordView {
                prefix: prefixes[i],
                sequence: candidate.sequence,
                timestamp: candidate.timestamp,
                public_address: candidate.public_address,
                private_key_encoding: candidate.private_key_encoding,
            },
        ),
        None => MessageView::Regular(candidate),
    }
}

/// Tests a candidate against the target prefixes and wraps it in the message
/// that the worker has to send.
pub fn classify(candidate: Candidate, prefixes: &TargetPrefixes) -> (message: LogMessage)
    ensures
        message@ == classification(candidate@, prefixes@),
{
    match prefixes.find(candidate.public_address.as_str()) {
        Some(i) => {
            let prefix = prefixes.get(i).clone();
            let Candidate { sequence, public_address, private_key_encoding, timestamp } = candidate;
            LogMessage::Found(
                FoundRecord { prefix, sequence, timestamp, public_address, private_key_encoding },
            )
        },
        None => LogMessage::Regular(candidate),
    }
}

/// A found record names a prefix of the target list that its public address
/// really begins with, and no earlier prefix of the list is one that the
/// address begins with; an attempt is a candidate whose address begins with
/// none of the target prefixes. Either message carries the candidate's
/// sequence number, address, key encoding and timestamp unchanged.
pub proof fn lemma_classification(candidate: CandidateView, prefixes: Seq<Seq<char>>)
    ensures
        match classification(candidate, prefixes) {
            MessageView::Found(record) => {
                &&& record.prefix.is_prefix_of(record.public_address)
                &&& exists|i: int| #[trigger]
                    is_first_match(candidate.public_address, prefixes, i) && record.prefix
                        == prefixes[i]
                &&& record.sequence == candidate.sequence
                &&& record.public_address == candidate.public_address
                &&& record.private_key_encoding == candidate.private_key_encoding
                &&& record.timestamp == candidate.timestamp
            },
            MessageView::Regular(attempt) => {
                &&& attempt == candidate
                &&& forall|i: int| !#[trigger] matches_at(candidate.public_address, prefixes, i)
            },
        },
{
    lemma_first_match_is_least(candidate.public_address, prefixes);
    match first_match(candidate.public_address, prefixes) {
        Some(i) => {
            assert(is_first_match(candidate.public_address, prefixes, i));
        },
        None => {},
    }
}

} // verus!
