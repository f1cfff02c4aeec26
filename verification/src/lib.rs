//! A streaming decoder for the `.nettrace` (EventPipe) binary trace format,
//! together with a normalizer that lifts the decoded wire events into a small
//! runtime-agnostic event vocabulary (module loads, JIT method loads, GC
//! lifecycle, sampled allocations, ready-to-run entry points), and an adapter
//! that ingests the equivalent ETW rows into the same vocabulary.
use vstd::prelude::*;

pub mod blob;
pub mod bytes;
pub mod enums;
pub mod etw;
pub mod eventpipe;
pub mod frame_table;
pub mod events;
pub mod gfx;
pub mod helpers;
pub mod markers;
pub mod metadata;
pub mod nettrace;
pub mod normalize;
pub mod parser;
pub mod provider;
pub mod registry;
pub mod string_table;
pub mod text;

verus! {

/// The single fatal error type of the decoder. After any of these is
/// returned the parser must not be polled again.
#[derive(Debug)]
pub enum EventPipeError {
    /// The file magic or the serialization ident did not match.
    BadMagic,
    /// An object tag other than the one the framing requires.
    UnexpectedTag,
    /// A type object named a block type the decoder does not know.
    UnknownObjectType,
    /// An event blob referenced a metadata id with no registered schema.
    MissingMetadata(u32),
    /// The stream ended inside a value, or a varint ran past its longest form.
    Truncated,
    /// A value was present but malformed.
    Malformed,
}

/// Source-independent description that accompanies every normalized event.
#[derive(Debug, Clone)]
pub struct EventMetadata {
    /// Raw QPC ticks.
    pub timestamp: u64,
    /// `u32::MAX` for EventPipe streams, which are single-process.
    pub process_id: u32,
    pub thread_id: u32,
    pub stack: Option<Vec<u64>>,
    pub is_rundown: bool,
}

impl EventMetadata {
    pub fn with_stack(self, stack: Vec<u64>) -> (r: Self)
        ensures
            r.stack matches Some(s) && s@ == stack@,
            r.timestamp == self.timestamp,
            r.process_id == self.process_id,
            r.thread_id == self.thread_id,
            r.is_rundown == self.is_rundown,
    {
        let mut m = self;
        m.stack = Some(stack);
        m
    }

    pub fn with_pid(self, pid: u32) -> (r: Self)
        ensures
            r.process_id == pid,
            r.timestamp == self.timestamp,
            r.thread_id == self.thread_id,
            r.stack == self.stack,
            r.is_rundown == self.is_rundown,
    {
        let mut m = self;
        m.process_id = pid;
        m
    }
}

} // verus!
