//! Severity levels of the messages that the managed side reports.

use vstd::prelude::*;

verus! {

/// How severe a message is. The levels are ordered `Info < Warning < Error`.
#[derive(Debug, Clone, Copy, PartialEq, Eq, PartialOrd, Ord, Structural)]
pub enum MessageLevel {
    Info,
    Warning,
    Error,
}

impl MessageLevel {
    /// The position of the level in the order `Info < Warning < Error`.
    pub open spec fn rank(self) -> int {
        match self {
            MessageLevel::Info => 0,
            MessageLevel::Warning => 1,
            MessageLevel::Error => 2,
        }
    }

    /// The number that stands for the level on the foreign boundary: one bit
    /// for each level.
    pub open spec fn spec_raw(self) -> u8 {
        match self {
            MessageLevel::Info => 1,
            MessageLevel::Warning => 2,
            MessageLevel::Error => 4,
        }
    }

    /// The name of the level as it is shown in a message.
    pub open spec fn spec_label(self) -> Seq<char> {
        match self {
            MessageLevel::Info => "Info"@,
            MessageLevel::Warning => "Warn"@,
            MessageLevel::Error => "Error"@,
        }
    }

    /// Whether a message of severity `level` passes when `self` is the least
    /// severity that is let through.
    pub fn filter(self, level: Self) -> (passes: bool)
        ensures
            passes == (self.rank() <= level.rank()),
    {
        match self {
            MessageLevel::Info => true,
            MessageLevel::Warning => !matches!(level, MessageLevel::Info),
            MessageLevel::Error => matches!(level, MessageLevel::Error),
        }
    }

    /// The number that stands for the level on the foreign boundary.
    pub fn raw(self) -> (raw: u8)
        ensures
            raw == self.spec_raw(),
    {
        match self {
            MessageLevel::Info => 1,
            MessageLevel::Warning => 2,
            MessageLevel::Error => 4,
        }
    }

    /// Reads a level received from the managed side. Any number but 1, 2
    /// and 4 is no level.
    pub fn from_raw(raw: i32) -> (level: Option<MessageLevel>)
        ensures
            level is Some <==> (raw == 1 || raw == 2 || raw == 4),
            level matches Some(l) ==> l.spec_raw() == raw,
    {
        match raw {
            1 => Some(MessageLevel::Info),
            2 => Some(MessageLevel::Warning),
            4 => Some(MessageLevel::Error),
            _ => None,
        }
    }

    /// The name of the level as it is shown in a message.
    pub fn label(self) -> (label: &'static str)
        ensures
            label@ == self.spec_label(),
    {
        match self {
            MessageLevel::Info => "Info",
            MessageLevel::Warning => "Warn",
            MessageLevel::Error => "Error",
        }
    }
}

/// A set of levels, one bit for each.
pub struct MessageLevelFilter {
    filter: u8,
}

impl MessageLevelFilter {
    /// Whether the set holds `level`.
    pub closed spec fn holds(&self, level: MessageLevel) -> bool {
        self.filter & level.spec_raw() != 0
    }

    /// The empty set.
    pub fn new() -> (made: Self)
        ensures
            forall|level: MessageLevel| !made.holds(level),
    {
        assert(0u8 & 1u8 == 0u8 && 0u8 & 2u8 == 0u8 && 0u8 & 4u8 == 0u8) by (bit_vector);
        Self { filter: 0 }
    }

    /// The set with `level` added.
    pub fn allow(self, level: MessageLevel) -> (made: Self)
        ensures
            forall|other: MessageLevel|
                made.holds(other) == (self.holds(other) || other == level),
    {
        let old_bits = self.filter;
        let added = level.raw();
        assert forall|other: MessageLevel|
            ((old_bits | added) & other.spec_raw() != 0) == (old_bits & other.spec_raw() != 0
                || other == level) by {
            let bit = other.spec_raw();
            assert((added == 1 || added == 2 || added == 4) && (bit == 1 || bit == 2 || bit == 4)
                ==> (((old_bits | added) & bit != 0) == (old_bits & bit != 0 || bit == added)))
                by (bit_vector);
        }
        Self { filter: old_bits | added }
    }

    /// Whether the set holds `level`.
    pub fn allows(&self, level: MessageLevel) -> (held: bool)
        ensures
            held == self.holds(level),
    {
        self.filter & level.raw() != 0
    }
}

} // verus!
