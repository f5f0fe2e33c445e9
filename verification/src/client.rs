//! The client half of the private protocol: the request frames a caller
//! writes on its connection, and the connection-pool manager's state. The
//! socket itself, and the pooling around it, live with the caller.

use vstd::prelude::*;

use crate::cmd::{CMD_GET_OPCODE, CMD_PURGE_OPCODE, CMD_PUT_OPCODE};
use crate::processor::{encode_payment, spec_payment_amount, spec_payment_id,
    well_formed_payment, Payment};
use crate::wire::{be_bytes_to_i64, be_bytes_to_nat, push_i64_be, push_u16_be};

verus! {

/// What a connection-pool manager is configured with: the path of the
/// Unix-domain socket new connections are opened on.
#[derive(Debug)]
pub struct Manager(pub String);

impl Manager {
    /// A manager that opens its connections on `uds_path`.
    pub fn new(uds_path: String) -> (manager: Manager)
        ensures
            manager.0 == uds_path,
    {
        Manager(uds_path)
    }
}

/// Frames a Put request: the Put opcode, the 2-byte big-endian length of
/// the payment encoding, then the encoding itself.
pub fn frame_put_payment(payment: &Payment) -> (frame: Vec<u8>)
    requires
        payment.valid(),
    ensures
        frame@.len() == 13 + payment.correlation_id@.len(),
        frame@[0] == CMD_PUT_OPCODE,
        be_bytes_to_nat(frame@.subrange(1, 3)) == frame@.len() - 3,
        well_formed_payment(frame@.skip(3)),
        spec_payment_id(frame@.skip(3)) == payment.correlation_id@,
        spec_payment_amount(frame@.skip(3)) == payment.amount_cents as int,
{
    let encoded = encode_payment(payment);
    let mut frame: Vec<u8> = Vec::new();
    frame.push(CMD_PUT_OPCODE);
    push_u16_be(&mut frame, encoded.len() as u16);
    let ghost header = frame@;
    let mut i: usize = 0;
    while i < encoded.len()
        invariant
            i <= encoded@.len(),
            header.len() == 3,
            frame@ == header + encoded@.take(i as int),
        decreases encoded@.len() - i,
    {
        let b = encoded[i];
        frame.push(b);
        proof {
            assert(frame@ =~= header + encoded@.take(i as int + 1));
        }
        i = i + 1;
    }
    proof {
        assert(encoded@.take(encoded@.len() as int) =~= encoded@);
        assert(frame@.skip(3) =~= encoded@);
        assert(frame@.subrange(1, 3) =~= header.subrange(1, 3));
        assert(header.subrange(1, 3) =~= header.skip(1));
    }
    frame
}

/// Frames a Get request: the Get opcode, then the two inclusive bounds as
/// 8-byte big-endian signed millisecond timestamps, start then end.
pub fn frame_get(start_timestamp: i64, end_timestamp: i64) -> (frame: Vec<u8>)
    ensures
        frame@.len() == 17,
        frame@[0] == CMD_GET_OPCODE,
        be_bytes_to_i64(frame@.subrange(1, 9)) == start_timestamp as int,
        be_bytes_to_i64(frame@.subrange(9, 17)) == end_timestamp as int,
{
    let mut frame: Vec<u8> = Vec::new();
    frame.push(CMD_GET_OPCODE);
    push_i64_be(&mut frame, start_timestamp);
    let ghost first = frame@;
    push_i64_be(&mut frame, end_timestamp);
    proof {
        assert(frame@.subrange(1, 9) =~= first.skip(1));
        assert(frame@.subrange(9, 17) =~= frame@.skip(first.len() as int));
    }
    frame
}

/// Frames a Purge request: the Purge opcode alone.
pub fn frame_purge() -> (frame: Vec<u8>)
    ensures
        frame@ == seq![CMD_PURGE_OPCODE],
{
    let mut frame: Vec<u8> = Vec::new();
    frame.push(CMD_PURGE_OPCODE);
    proof {
        assert(frame@ =~= seq![CMD_PURGE_OPCODE]);
    }
    frame
}

} // verus!
