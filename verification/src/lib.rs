//! Brute-force search for key pairs whose public address starts with one of a
//! list of target prefixes.
//!
//! The crate holds the search engine's rules as verified, sequential
//! building blocks: how a freshly drawn key pair is turned into a message,
//! which prefix a public address is attributed to, how attempt logs are split
//! into numbered files, and when the result writer declares the search
//! complete. Threads, channels and files are left to the caller, which feeds
//! these state machines and carries out what they decide.
//!
//! - [`config`]: the command line, the number of workers, the target list.
//! - [`prefix`]: the target prefixes and the first-match rule.
//! - [`keys`], [`clock`], [`sequence`]: what a candidate is made of.
//! - [`worker`]: from a candidate to the message that a worker sends.
//! - [`record`]: candidates, messages and their lines in the log files.
//! - [`rotation`]: the log writer and its numbered files.
//! - [`results`]: the result writer, its ledger and the termination flag.
//! - [`text`]: decimal numbers as text.

pub mod text;
pub mod prefix;
pub mod record;
pub mod keys;
pub mod clock;
pub mod sequence;
pub mod worker;
pub mod rotation;
pub mod results;
pub mod config;
