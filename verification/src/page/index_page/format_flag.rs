use vstd::prelude::*;
use vstd::std_specs::convert::FromSpecImpl;

verus! {

/// The row format of the records of an index page.
#[derive(Debug, Eq, PartialEq, Copy, Clone, Structural)]
pub enum RecordFormat {
    Redundant,
    Compact,
    /// A value that is neither 0 nor 1.
    Unknown,
}

/// The row format that a flag value stands for: 0 redundant, 1 compact.
pub open spec fn record_format_of(value: u8) -> RecordFormat {
    if value == 0 {
        RecordFormat::Redundant
    } else if value == 1 {
        RecordFormat::Compact
    } else {
        RecordFormat::Unknown
    }
}

impl From<u8> for RecordFormat {
    fn from(value: u8) -> (r: RecordFormat) {
        match value {
            0 => RecordFormat::Redundant,
            1 => RecordFormat::Compact,
            _ => RecordFormat::Unknown,
        }
    }
}

impl FromSpecImpl<u8> for RecordFormat {
    open spec fn obeys_from_spec() -> bool {
        true
    }

    open spec fn from_spec(value: u8) -> RecordFormat {
        record_format_of(value)
    }
}

} // verus!
