//! The Get command: query the ledger summary over an inclusive range of
//! millisecond timestamps.

use vstd::prelude::*;

use crate::db::{count_matching, sum_matching, PaymentDb};
use crate::json::spec_summary_json;
use crate::wire::{be_bytes_to_i64, read_i64_be};
use crate::{PaymentType, ProtocolError};

verus! {

/// A decoded Get command: the inclusive query bounds, in milliseconds.
pub struct Get {
    pub start_timestamp: i64,
    pub end_timestamp: i64,
}

impl Get {
    /// Decodes a Get body: two 8-byte big-endian signed millisecond
    /// timestamps, start then end. Exactly 16-byte bodies decode.
    pub fn parse_data(data: &Vec<u8>) -> (r: Result<Get, ProtocolError>)
        ensures
            r is Ok <==> data@.len() == 16,
            match r {
                Ok(g) => g.start_timestamp as int == be_bytes_to_i64(data@.subrange(0, 8))
                    && g.end_timestamp as int == be_bytes_to_i64(data@.subrange(8, 16)),
                Err(e) => e == ProtocolError::BadBodyLength,
            },
    {
        if data.len() != 16 {
            return Err(ProtocolError::BadBodyLength);
        }
        let start_timestamp = read_i64_be(data, 0);
        let end_timestamp = read_i64_be(data, 8);
        Ok(Get { start_timestamp, end_timestamp })
    }

    /// Queries the ledger and returns the JSON summary body.
    pub fn execute(self, db: &PaymentDb) -> (response: String)
        ensures
            response@ == spec_summary_json(
                count_matching(
                    db.records(),
                    PaymentType::Default,
                    self.start_timestamp as int,
                    self.end_timestamp as int,
                ),
                sum_matching(
                    db.records(),
                    PaymentType::Default,
                    self.start_timestamp as int,
                    self.end_timestamp as int,
                ),
                count_matching(
                    db.records(),
                    PaymentType::Fallback,
                    self.start_timestamp as int,
                    self.end_timestamp as int,
                ),
                sum_matching(
                    db.records(),
                    PaymentType::Fallback,
                    self.start_timestamp as int,
                    self.end_timestamp as int,
                ),
            ),
    {
        db.get_payments_by_date_range(self.start_timestamp, self.end_timestamp)
    }
}

} // verus!
