//! The two tiers that keep period records: the append-only local log and
//! the day buckets of the remote store.
//!
//! A record is written to the local log first and to the remote store
//! second, and it is let go only when both have taken it. A record that
//! one tier took and the other did not goes out again with the next flush,
//! so each tier may hold a record more than once but never misses one.
//! Where the two differ, the local log is the one to trust: the remote
//! store can be filled again from it.
use vstd::prelude::*;
use crate::error::ErrorClass;

pub mod local_cache;
pub mod pika;

verus! {

/// A failure of one of the two tiers.
#[derive(Debug, Clone, PartialEq, Eq)]
pub enum Error {
    /// A file could not be read or written.
    IoErr(String),
    /// The remote store could not be reached or refused a command.
    RedisErr(String),
    InvalidVehicleState,
    /// The timestamp of a record names no calendar day.
    FromTimestampErr,
    /// A stored value is no period record.
    DecodeErr(String),
    /// A period record could not be serialised.
    EncodeErr(String),
    /// A serialised record is longer than a length prefix can say.
    RecordTooLong,
}

impl Error {
    /// The class of the failure: a value that cannot be read is a decoding
    /// failure, everything else a failure of persistence.
    pub open spec fn class_of(self) -> ErrorClass {
        match self {
            Error::DecodeErr(_) => ErrorClass::Decode,
            _ => ErrorClass::Persistence,
        }
    }

    /// The class of the failure.
    pub fn class(&self) -> (c: ErrorClass)
        ensures
            c == self.class_of(),
    {
        match self {
            Error::DecodeErr(_) => ErrorClass::Decode,
            _ => ErrorClass::Persistence,
        }
    }
}

} // verus!
