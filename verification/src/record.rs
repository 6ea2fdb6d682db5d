//! The log record as the delivery core sees it.
//!
//! The structured data model (field flattening, timestamping, JSON rendering)
//! is owned by the caller's formatter: the core receives each record as an
//! opaque, already-rendered payload together with its severity level, and
//! only decides when and in what order payloads are delivered.

use vstd::prelude::*;

use crate::level::GelfLevel;

verus! {

/// One log record, ready for delivery: its severity level and its rendered
/// body (one JSON object, not yet framed). The core never inspects or alters
/// the payload; it only frames it and forwards it.
#[derive(Debug)]
pub struct GelfRecord {
    /// The severity level of the record.
    pub level: GelfLevel,
    /// The rendered body of the record, without framing.
    pub payload: Vec<u8>,
}

impl GelfRecord {
    /// Build a record from its severity level and rendered body.
    pub fn new(level: GelfLevel, payload: Vec<u8>) -> (record: GelfRecord)
        ensures
            record.level == level,
            record.payload@ == payload@,
    {
        GelfRecord { level, payload }
    }
}

impl Clone for GelfRecord {
    /// The copy carries the same level and the same payload bytes, so a
    /// record can cross a thread boundary while the caller keeps its own.
    fn clone(&self) -> (cloned: Self)
        ensures
            cloned.level == self.level,
            cloned.payload@ == self.payload@,
    {
        let payload = self.payload.clone();
        proof {
            assert forall|i: int| 0 <= i < self.payload@.len() implies payload@[i]
                == self.payload@[i] by {
                assert(cloned::<u8>(self.payload@[i], payload@[i]));
            }
            assert(payload@ =~= self.payload@);
        }
        GelfRecord { level: self.level, payload }
    }
}

} // verus!
