//! The command protocol layer: one opcode byte selects a command, an
//! opcode-specific body follows, and executing the decoded command either
//! queries or clears the ledger or hands a payment to the submission queue.
//! An unknown opcode or a malformed body is fatal to its connection only.

use vstd::prelude::*;
use vstd::string::{StrSliceExecFns, StringSliceAdditionalSpecFns};

mod get;
mod purge;
mod put;

pub use get::Get;
pub use purge::Purge;
pub use put::Put;

use crate::db::{count_matching, sum_matching, PaymentDb};
use crate::json::spec_summary_json;
use crate::processor::{spec_payment_amount, spec_payment_id, well_formed_payment, Payment};
use crate::wire::{be_bytes_to_i64, be_bytes_to_nat, push_u16_be};
use crate::{PaymentType, ProtocolError};

verus! {

/// The opcode of a Put frame: submit one payment.
pub const CMD_PUT_OPCODE: u8 = 42;

/// The opcode of a Get frame: query a summary over a timestamp range.
pub const CMD_GET_OPCODE: u8 = 43;

/// The opcode of a Purge frame: clear the ledger.
pub const CMD_PURGE_OPCODE: u8 = 44;

/// A decoded protocol command; it lives only from decode to dispatch.
pub enum Command {
    Put(Put),
    Get(Get),
    Purge(Purge),
}

/// What follows an opcode byte on the wire.
#[derive(Clone, Copy, Debug, PartialEq, Eq, Structural)]
pub enum BodyShape {
    /// Exactly this many body bytes follow.
    Fixed(u16),
    /// A 2-byte big-endian body length follows, then that many bytes.
    LengthPrefixed,
    /// No command has this opcode: the connection must be dropped.
    Invalid,
}

/// The opcode table: how much body each opcode asks a connection to read.
pub fn body_shape(opcode: u8) -> (shape: BodyShape)
    ensures
        shape == (if opcode == CMD_PUT_OPCODE {
            BodyShape::LengthPrefixed
        } else if opcode == CMD_GET_OPCODE {
            BodyShape::Fixed(16u16)
        } else if opcode == CMD_PURGE_OPCODE {
            BodyShape::Fixed(0u16)
        } else {
            BodyShape::Invalid
        }),
{
    match opcode {
        42 => BodyShape::LengthPrefixed,
        43 => BodyShape::Fixed(16),
        44 => BodyShape::Fixed(0),
        _ => BodyShape::Invalid,
    }
}

/// What executing one command asks of the connection loop: hand a payment
/// to the submission queue, write a response body back, or nothing more.
pub enum Effect {
    Enqueue(Payment),
    Respond(String),
    Done,
}

impl Command {
    /// Decodes the command whose opcode byte is `cmd` from its body bytes.
    /// Exactly the three known opcodes with well-formed bodies decode; any
    /// other opcode, and any malformed body, is rejected.
    pub fn from_data(cmd: u8, data: &Vec<u8>) -> (r: Result<Command, ProtocolError>)
        ensures
            r is Ok <==> ((cmd == CMD_PUT_OPCODE && well_formed_payment(data@)) || (cmd
                == CMD_GET_OPCODE && data@.len() == 16) || cmd == CMD_PURGE_OPCODE),
            match r {
                Ok(c) => match c {
                    Command::Put(put) => cmd == CMD_PUT_OPCODE && put.payment.correlation_id@
                        == spec_payment_id(data@) && put.payment.amount_cents as int
                        == spec_payment_amount(data@),
                    Command::Get(g) => cmd == CMD_GET_OPCODE && g.start_timestamp as int
                        == be_bytes_to_i64(data@.subrange(0, 8)) && g.end_timestamp as int
                        == be_bytes_to_i64(data@.subrange(8, 16)),
                    Command::Purge(_) => cmd == CMD_PURGE_OPCODE,
                },
                Err(e) => e == (if cmd == CMD_PUT_OPCODE {
                    ProtocolError::MalformedPayment
                } else if cmd == CMD_GET_OPCODE {
                    ProtocolError::BadBodyLength
                } else {
                    ProtocolError::UnknownOpcode
                }),
            },
    {
        match cmd {
            42 => match Put::parse_data(data) {
                Ok(put) => Ok(Command::Put(put)),
                Err(e) => Err(e),
            },
            43 => match Get::parse_data(data) {
                Ok(g) => Ok(Command::Get(g)),
                Err(e) => Err(e),
            },
            44 => Ok(Command::Purge(Purge {  })),
            _ => Err(ProtocolError::UnknownOpcode),
        }
    }

    /// Executes one decoded command against the ledger. A Get queries and
    /// asks for its summary to be written back; a Purge clears the ledger;
    /// a Put only hands its payment on — it never waits for upstream
    /// confirmation, so the submitter learns nothing beyond "accepted for
    /// processing".
    pub fn execute(self, db: &mut PaymentDb) -> (effect: Effect)
        ensures
            match self {
                Command::Put(put) => *final(db) == *old(db) && effect == Effect::Enqueue(
                    put.payment,
                ),
                Command::Get(g) => *final(db) == *old(db) && (effect matches Effect::Respond(
                    response,
                ) && response@ == spec_summary_json(
                    count_matching(
                        old(db).records(),
                        PaymentType::Default,
                        g.start_timestamp as int,
                        g.end_timestamp as int,
                    ),
                    sum_matching(
                        old(db).records(),
                        PaymentType::Default,
                        g.start_timestamp as int,
                        g.end_timestamp as int,
                    ),
                    count_matching(
                        old(db).records(),
                        PaymentType::Fallback,
                        g.start_timestamp as int,
                        g.end_timestamp as int,
                    ),
                    sum_matching(
                        old(db).records(),
                        PaymentType::Fallback,
                        g.start_timestamp as int,
                        g.end_timestamp as int,
                    ),
                )),
                Command::Purge(_) => final(db).records() == Seq::<crate::db::Payment>::empty()
                    && final(db).current_health() == old(db).current_health() && effect
                    == Effect::Done,
            },
    {
        match self {
            Command::Put(put) => Effect::Enqueue(put.payment),
            Command::Get(g) => Effect::Respond(g.execute(db)),
            Command::Purge(purge) => {
                purge.execute(db);
                Effect::Done
            },
        }
    }
}

/// Frames a Get response for the wire: a 2-byte big-endian byte length,
/// then the UTF-8 bytes of the response body.
pub fn frame_response(response: &str) -> (out: Vec<u8>)
    requires
        response.spec_bytes().len() <= 0xFFFF,
    ensures
        out@.len() == 2 + response.spec_bytes().len(),
        be_bytes_to_nat(out@.subrange(0, 2)) == response.spec_bytes().len(),
        out@.skip(2) == response.spec_bytes(),
{
    let bytes = response.as_bytes_vec();
    let mut out: Vec<u8> = Vec::new();
    push_u16_be(&mut out, bytes.len() as u16);
    let ghost header = out@;
    let mut i: usize = 0;
    while i < bytes.len()
        invariant
            i <= bytes@.len(),
            bytes@ == response.spec_bytes(),
            header.len() == 2,
            be_bytes_to_nat(header) == bytes@.len(),
            out@ == header + bytes@.take(i as int),
        decreases bytes@.len() - i,
    {
        let b = bytes[i];
        out.push(b);
        proof {
            assert(out@ =~= header + bytes@.take(i as int + 1));
        }
        i = i + 1;
    }
    proof {
        assert(bytes@.take(bytes@.len() as int) =~= bytes@);
        assert(out@.subrange(0, 2) =~= header);
        assert(out@.skip(2) =~= bytes@);
    }
    out
}

} // verus!
