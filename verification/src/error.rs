//! The ways in which collecting telemetry fails.

use vstd::prelude::*;

verus! {

/// The counter files that the agent reads.
#[derive(Clone, Copy, Debug, PartialEq, Eq, Structural)]
pub enum CounterFile {
    /// The memory counters.
    MemInfo,
    /// The interrupt counts.
    Interrupts,
}

/// Why a telemetry source gave no snapshot.
#[derive(Clone, Debug, PartialEq, Eq)]
pub enum CollectError {
    /// The source could not be read; the text says why. Mostly this passes.
    Unreadable(String),
    /// The file was read, and a line of it holds no key with its value. No
    /// snapshot is made of a part of such a file.
    Malformed(CounterFile),
}

impl CollectError {
    /// The error in words.
    pub open spec fn spec_message(&self) -> Seq<char> {
        match self {
            CollectError::Unreadable(why) => why@,
            CollectError::Malformed(CounterFile::MemInfo) => "No key/value pair in memory info."@,
            CollectError::Malformed(CounterFile::Interrupts) => {
                "No key/value pair in interrupt counts."@
            },
        }
    }

    /// The error in words.
    pub fn message(&self) -> (r: String)
        ensures
            r@ == self.spec_message(),
    {
        match self {
            CollectError::Unreadable(why) => why.clone(),
            CollectError::Malformed(CounterFile::MemInfo) => {
                "No key/value pair in memory info.".to_owned()
            },
            CollectError::Malformed(CounterFile::Interrupts) => {
                "No key/value pair in interrupt counts.".to_owned()
            },
        }
    }
}

} // verus!
