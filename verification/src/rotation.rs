//! Splitting the attempt log into numbered files of bounded length.

use vstd::prelude::*;
use vstd::string::*;
use crate::record::{attempt_line, attempt_line_spec, event_view, LogMessage, MessageView};
use crate::text::{zero_padded, zero_padded_string};

verus! {

/// The number of lines after which an attempt log file is closed and the
/// next one begun.
pub const MAX_LINES_PER_FILE: u64 = 1_000_000;

/// The name of the attempt log file with the given index.
pub open spec fn log_file_name_spec(index: nat) -> Seq<char> {
    "keypairs_"@ + zero_padded(index, 4) + ".log"@
}

/// The name of the attempt log file with the given index: the index is
/// written with at least four digits.
pub fn log_file_name(index: u32) -> (name: String)
    ensures
        name@ == log_file_name_spec(index as nat),
{
    let mut name = String::from_str("keypairs_");
    let number = zero_padded_string(index as u64, 4);
    name.append(number.as_str());
    name.append(".log");
    name
}

/// What the rotation state stands for: the index of the file that is open
/// and the number of lines already written to it.
pub struct RotationView {
    pub file_index: nat,
    pub line_count: nat,
}

/// The state before the first line: file 0, empty.
pub open spec fn fresh_rotation() -> RotationView {
    RotationView { file_index: 0, line_count: 0 }
}

/// The state after one more line has been written: the line goes to the open
/// file, and the file that it fills is replaced by an empty one with the next
/// index.
pub open spec fn after_line(v: RotationView) -> RotationView {
    if v.line_count + 1 >= MAX_LINES_PER_FILE {
        RotationView { file_index: v.file_index + 1, line_count: 0 }
    } else {
        RotationView { file_index: v.file_index, line_count: v.line_count + 1 }
    }
}

/// The state after `n` more lines.
pub open spec fn after_lines(v: RotationView, n: nat) -> RotationView
    decreases n,
{
    if n == 0 {
        v
    } else {
        after_line(after_lines(v, (n - 1) as nat))
    }
}

/// The bookkeeping of the attempt log writer: which file is open and how
/// many lines it holds. The open file always has room for one more line.
pub struct LogRotation {
    file_index: u32,
    line_count: u64,
}

impl View for LogRotation {
    type V = RotationView;

    closed spec fn view(&self) -> RotationView {
        RotationView { file_index: self.file_index as nat, line_count: self.line_count as nat }
    }
}

impl LogRotation {
    #[verifier::type_invariant]
    spec fn well_formed(self) -> bool {
        self.line_count < MAX_LINES_PER_FILE
    }

    /// Whether one more line can be accounted for: either the open file is
    /// not about to fill up, or a further file index exists.
    pub open spec fn has_room(self) -> bool {
        self@.line_count + 1 < MAX_LINES_PER_FILE || self@.file_index < u32::MAX
    }

    /// The state in which the first log file has just been opened.
    pub fn new() -> (r: Self)
        ensures
            r@ == fresh_rotation(),
    {
        LogRotation { file_index: 0, line_count: 0 }
    }

    /// The index of the open file.
    pub fn file_index(&self) -> (r: u32)
        ensures
            r == self@.file_index,
    {
        self.file_index
    }

    /// The number of lines written to the open file.
    pub fn line_count(&self) -> (r: u64)
        ensures
            r == self@.line_count,
            r < MAX_LINES_PER_FILE,
    {
        proof {
            use_type_invariant(self);
        }
        self.line_count
    }

    /// The name of the open file.
    pub fn file_name(&self) -> (name: String)
        ensures
            name@ == log_file_name_spec(self@.file_index),
    {
        log_file_name(self.file_index)
    }

    /// Tells whether `write_line` may be called.
    pub fn can_write(&self) -> (r: bool)
        ensures
            r == self.has_room(),
    {
        proof {
            use_type_invariant(self);
        }
        self.line_count + 1 < MAX_LINES_PER_FILE || self.file_index < u32::MAX
    }

    /// Closes the open file and opens the next one: the index goes up by one
    /// and the line count starts again at zero. Returns the new file's name.
    pub fn rotate_file(&mut self) -> (name: String)
        requires
            old(self)@.file_index < u32::MAX,
        ensures
            final(self)@ == (RotationView { file_index: old(self)@.file_index + 1, line_count: 0 }),
            name@ == log_file_name_spec(final(self)@.file_index),
    {
        proof {
            use_type_invariant(&*self);
        }
        self.file_index = self.file_index + 1;
        self.line_count = 0;
        log_file_name(self.file_index)
    }

    /// Accounts for one line written to the open file. When that line fills
    /// the file, the state moves on to the next file, whose name is returned
    /// so that the caller can open it; otherwise nothing is returned.
    pub fn write_line(&mut self) -> (rotated: Option<String>)
        requires
            old(self).has_room(),
        ensures
            final(self)@ == after_line(old(self)@),
            rotated is Some <==> old(self)@.line_count + 1 == MAX_LINES_PER_FILE,
            rotated is Some ==> rotated->0@ == log_file_name_spec(final(self)@.file_index),
    {
        proof {
            use_type_invariant(&*self);
        }
        let next = self.line_count + 1;
        if next >= MAX_LINES_PER_FILE {
            Some(self.rotate_file())
        } else {
            self.line_count = next;
            None
        }
    }
}

/// What the log writer has to do about an event on the attempt channel.
#[derive(Debug, Clone, PartialEq, Eq)]
pub enum LogAction {
    /// Append the line to the open file and flush it; then, if a file name is
    /// given, close the file and open the file of that name.
    Write { line: String, next_file: Option<String> },
    /// Nothing: the message is not for the attempt log.
    Skip,
    /// Flush the open file and stop: the channel is closed.
    Stop,
}

/// An action of the log writer as plain values.
pub enum LogActionView {
    Write { line: Seq<char>, next_file: Option<Seq<char>> },
    Skip,
    Stop,
}

impl View for LogAction {
    type V = LogActionView;

    open spec fn view(&self) -> LogActionView {
        match self {
            LogAction::Write { line, next_file } => LogActionView::Write {
                line: line@,
                next_file: match next_file {
                    Some(name) => Some(name@),
                    None => None,
                },
            },
            LogAction::Skip => LogActionView::Skip,
            LogAction::Stop => LogActionView::Stop,
        }
    }
}

/// The action that an event on the attempt channel calls for: a message, or
/// nothing once every sender is gone. An attempt is written as one line, and
/// the line that fills the open file is followed by the opening of the next
/// file; a found record is not the log writer's business.
pub open spec fn log_action_spec(rotation: RotationView, event: Option<MessageView>) -> LogActionView {
    match event {
        Some(MessageView::Regular(candidate)) => LogActionView::Write {
            line: attempt_line_spec(candidate),
            next_file: if rotation.line_count + 1 >= MAX_LINES_PER_FILE {
                Some(log_file_name_spec(rotation.file_index + 1))
            } else {
                None
            },
        },
        Some(MessageView::Found(_)) => LogActionView::Skip,
        None => LogActionView::Stop,
    }
}

/// The rotation state after an event on the attempt channel: one line
/// further for an attempt, unchanged otherwise.
pub open spec fn rotation_after_event(rotation: RotationView, event: Option<MessageView>) -> RotationView {
    match event {
        Some(MessageView::Regular(_)) => after_line(rotation),
        _ => rotation,
    }
}

/// One step of the log writer: takes what the attempt channel delivered
/// (`None` once the channel is closed), updates the rotation state and says
/// what is to be done.
pub fn log_writer_step(rotation: &mut LogRotation, event: &Option<LogMessage>) -> (action: LogAction)
    requires
        old(rotation).has_room(),
    ensures
        action@ == log_action_spec(old(rotation)@, event_view(*event)),
        final(rotation)@ == rotation_after_event(old(rotation)@, event_view(*event)),
{
    proof {
        use_type_invariant(&*rotation);
    }
    match event {
        Some(LogMessage::Regular(candidate)) => {
            let line = attempt_line(candidate);
            let next_file = rotation.write_line();
            LogAction::Write { line, next_file }
        },
        Some(LogMessage::Found(_)) => LogAction::Skip,
        None => LogAction::Stop,
    }
}

/// Counting lines from zero, line `n` of a run is written to the file with
/// index `n / MAX_LINES_PER_FILE`, as that file's line number
/// `n % MAX_LINES_PER_FILE`: every file but the last holds exactly
/// `MAX_LINES_PER_FILE` lines, and none holds more.
pub proof fn lemma_line_placement(n: nat)
    ensures
        after_lines(fresh_rotation(), n) == (RotationView {
            file_index: n / (MAX_LINES_PER_FILE as nat),
            line_count: n % (MAX_LINES_PER_FILE as nat),
        }),
    decreases n,
{
    if n > 0 {
        lemma_line_placement((n - 1) as nat);
    }
}

} // verus!
