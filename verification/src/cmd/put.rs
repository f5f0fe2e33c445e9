//! The Put command: submit one payment for processing. Executing a Put
//! only enqueues; the submitter never waits for upstream confirmation.

use vstd::prelude::*;

use crate::processor::{decode_payment, spec_payment_amount, spec_payment_id,
    well_formed_payment, Payment};
use crate::ProtocolError;

verus! {

/// A decoded Put command: the payment to hand to the submission queue.
pub struct Put {
    pub payment: Payment,
}

impl Put {
    /// Decodes a Put body: the compact binary encoding of one payment.
    /// Exactly well-formed encodings decode.
    pub fn parse_data(data: &Vec<u8>) -> (r: Result<Put, ProtocolError>)
        ensures
            r is Ok <==> well_formed_payment(data@),
            match r {
                Ok(put) => put.payment.correlation_id@ == spec_payment_id(data@)
                    && put.payment.amount_cents as int == spec_payment_amount(data@),
                Err(e) => e == ProtocolError::MalformedPayment,
            },
    {
        match decode_payment(data) {
            Ok(payment) => Ok(Put { payment }),
            Err(e) => Err(e),
        }
    }
}

} // verus!
