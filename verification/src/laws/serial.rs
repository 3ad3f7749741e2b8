//! Exchanges with a serial port.

use crate::domain::error::Psk31Result;
use crate::ports::serial::{SerialConnection, SerialOp};
use vstd::prelude::*;
use vstd::utf8::encode_utf8;

verus! {

/// An exchange writes the whole command, once, and reads once if and only if that worked.
/// The outcome is that of the read, or the failure of the write, after which the buffer is
/// as it was. The traffic before stays on record.
pub proof fn exchanges_write_and_read<P: SerialConnection>(command: &str)
    ensures
        forall|port: &mut P, buffer: &mut [u8], outcome: Psk31Result<usize>| #[trigger]
            call_ensures(P::write_read, (port, command, buffer), outcome) ==> {
                let before = (*port).traffic();
                let after = final(port).traffic();
                let written = after[before.len() as int];
                &&& after.len() == before.len() + 1 || after.len() == before.len() + 2
                &&& forall|i: int| 0 <= i < before.len() ==> #[trigger] after[i] == before[i]
                &&& written is Write
                &&& written->Write_0 == encode_utf8(command@)
                &&& written->Write_1 is Ok <==> after.len() == before.len() + 2
                &&& written->Write_1 is Ok ==> after[before.len() as int + 1] == SerialOp::Read(
                    final(buffer)@,
                    outcome,
                )
                &&& written->Write_1 is Err ==> outcome == written->Write_1 && final(buffer)@
                    == (*buffer)@
                &&& final(buffer)@.len() == (*buffer)@.len()
            },
{
}

/// The read of an exchange gets the buffer as it came and leaves it as it is handed out, in
/// the port that the write left.
pub proof fn exchanges_read_into_the_buffer<P: SerialConnection>(command: &str)
    ensures
        forall|port: &mut P, buffer: &mut [u8], outcome: Psk31Result<usize>|
            (#[trigger] call_ensures(P::write_read, (port, command, buffer), outcome)
                && final(port).traffic().len() == (*port).traffic().len() + 2) ==> exists|
                reading: &mut P,
                given: &mut [u8],
            |
                {
                    &&& #[trigger] call_ensures(P::read, (reading, given), outcome)
                    &&& (*given)@ == (*buffer)@
                    &&& (*final(given))@ == final(buffer)@
                    &&& *final(reading) == *final(port)
                },
{
}

} // verus!
