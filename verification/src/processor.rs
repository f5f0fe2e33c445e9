//! The payment as it crosses the private protocol, and its compact binary
//! encoding: a 2-byte big-endian correlation id length, the id bytes, then
//! the amount as an 8-byte big-endian signed integer.

use vstd::prelude::*;

use crate::wire::{be_bytes_to_i64, be_bytes_to_nat, push_i64_be, push_u16_be, read_i64_be,
    read_u16_be};
use crate::ProtocolError;

verus! {

/// The most bytes a correlation id may hold: together with the 2-byte
/// length prefix and the 8-byte amount, the encoding must still fit a
/// frame whose length field is 2 bytes.
pub const MAX_CORRELATION_ID_LEN: usize = 65525;

/// One payment submission. The correlation id is the opaque, client-chosen
/// identifier the provider deduplicates by; the amount is in hundredths of
/// the provider currency unit.
#[derive(Debug, PartialEq, Eq)]
pub struct Payment {
    pub correlation_id: Vec<u8>,
    pub amount_cents: i64,
}

impl Payment {
    /// Whether this payment fits the wire encoding.
    pub open spec fn valid(&self) -> bool {
        self.correlation_id@.len() <= MAX_CORRELATION_ID_LEN
    }
}

/// Whether `data` is a well-formed payment encoding: long enough for the
/// fixed parts, with a length prefix that accounts for exactly the rest.
pub open spec fn well_formed_payment(data: Seq<u8>) -> bool {
    data.len() >= 10 && data.len() == 10 + be_bytes_to_nat(data.subrange(0, 2))
}

/// The correlation id bytes of a well-formed payment encoding.
pub open spec fn spec_payment_id(data: Seq<u8>) -> Seq<u8> {
    data.subrange(2, data.len() - 8)
}

/// The amount of a well-formed payment encoding.
pub open spec fn spec_payment_amount(data: Seq<u8>) -> int {
    be_bytes_to_i64(data.subrange(data.len() - 8, data.len() as int))
}

/// Encodes a payment for the wire.
pub fn encode_payment(payment: &Payment) -> (data: Vec<u8>)
    requires
        payment.valid(),
    ensures
        data@.len() == 10 + payment.correlation_id@.len(),
        well_formed_payment(data@),
        spec_payment_id(data@) == payment.correlation_id@,
        spec_payment_amount(data@) == payment.amount_cents as int,
{
    let id_len = payment.correlation_id.len();
    let mut data: Vec<u8> = Vec::new();
    push_u16_be(&mut data, id_len as u16);
    let ghost header = data@;
    let mut i: usize = 0;
    while i < id_len
        invariant
            i <= id_len,
            id_len == payment.correlation_id@.len(),
            header.len() == 2,
            be_bytes_to_nat(header) == id_len,
            data@ == header + payment.correlation_id@.take(i as int),
        decreases id_len - i,
    {
        let b = payment.correlation_id[i];
        data.push(b);
        proof {
            assert(data@ =~= header + payment.correlation_id@.take(i as int + 1));
        }
        i = i + 1;
    }
    proof {
        assert(payment.correlation_id@.take(id_len as int) =~= payment.correlation_id@);
    }
    push_i64_be(&mut data, payment.amount_cents);
    proof {
        let n = (2 + id_len) as int;
        let tail = data@.skip(n);
        assert(data@.subrange(0, 2) =~= header);
        assert(spec_payment_id(data@) =~= payment.correlation_id@);
        assert(data@.subrange(data@.len() - 8, data@.len() as int) =~= tail);
    }
    data
}

/// Decodes a payment from the wire. Succeeds exactly on well-formed
/// encodings; anything else is a decode error, fatal to the command.
pub fn decode_payment(data: &Vec<u8>) -> (r: Result<Payment, ProtocolError>)
    ensures
        r is Ok <==> well_formed_payment(data@),
        match r {
            Ok(p) => p.correlation_id@ == spec_payment_id(data@) && p.amount_cents as int
                == spec_payment_amount(data@),
            Err(e) => e == ProtocolError::MalformedPayment,
        },
{
    let total = data.len();
    if total < 10 {
        return Err(ProtocolError::MalformedPayment);
    }
    let id_len = read_u16_be(data, 0);
    if total - 10 != id_len as usize {
        return Err(ProtocolError::MalformedPayment);
    }
    let mut correlation_id: Vec<u8> = Vec::new();
    let mut i: usize = 0;
    while i < id_len as usize
        invariant
            i <= id_len,
            data@.len() == 10 + id_len,
            correlation_id@ == data@.subrange(2, 2 + i as int),
        decreases id_len - i,
    {
        let b = data[2 + i];
        correlation_id.push(b);
        proof {
            assert(correlation_id@ =~= data@.subrange(2, 2 + i as int + 1));
        }
        i = i + 1;
    }
    let amount_cents = read_i64_be(data, total - 8);
    proof {
        assert(data@.subrange(2, data@.len() - 8) =~= data@.subrange(2, 2 + id_len as int));
    }
    Ok(Payment { correlation_id, amount_cents })
}

} // verus!
