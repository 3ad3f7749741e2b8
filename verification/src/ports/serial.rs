//! Serial port traits.
//!
//! - [`SerialFactory`] lists ports and opens one.
//! - [`SerialConnection`] reads and writes through an open port.

use crate::domain::error::Psk31Result;
use crate::domain::types::SerialPortInfo;
use vstd::prelude::*;
use vstd::utf8::encode_utf8;

verus! {

/// One exchange with a port: what went through, and what the port answered.
pub enum SerialOp {
    /// The bytes handed over, and the outcome.
    Write(Seq<u8>, Psk31Result<usize>),
    /// What the buffer held afterwards, and the outcome.
    Read(Seq<u8>, Psk31Result<usize>),
}

/// Factory for serial connections.
pub trait SerialFactory {
    /// List the serial ports of the system.
    fn list_ports() -> Psk31Result<Vec<SerialPortInfo>>;

    /// Open a serial port at the given baud rate.
    fn open(port: &str, baud_rate: u32) -> Psk31Result<Box<dyn SerialConnection>>;
}

/// What [`SerialConnection::write_read`] leaves in the log: one write of the whole
/// command, and one read unless the write failed.
pub open spec fn exchange(
    command: Seq<u8>,
    written: Psk31Result<usize>,
    received: Seq<u8>,
    outcome: Psk31Result<usize>,
) -> Seq<SerialOp> {
    match written {
        Ok(_) => seq![SerialOp::Write(command, written), SerialOp::Read(received, outcome)],
        Err(_) => seq![SerialOp::Write(command, written)],
    }
}

/// An open serial port.
pub trait SerialConnection: Send {
    /// Every read and write so far, in order.
    ///
    /// The body given here keeps none. Only an implementation that Verus does not check can
    /// leave it at that: the contracts below hold of no such log.
    open spec fn traffic(&self) -> Seq<SerialOp> {
        Seq::empty()
    }

    /// Write bytes to the port.
    fn write(&mut self, data: &[u8]) -> (outcome: Psk31Result<usize>)
        ensures
            final(self).traffic() == old(self).traffic().push(SerialOp::Write(data@, outcome)),
    ;

    /// Read bytes from the port, with a timeout.
    fn read(&mut self, buffer: &mut [u8]) -> (outcome: Psk31Result<usize>)
        ensures
            final(self).traffic() == old(self).traffic().push(
                SerialOp::Read(final(buffer)@, outcome),
            ),
            final(buffer)@.len() == old(buffer)@.len(),
    ;

    /// Write a command and read the response.
    ///
    /// The port is written to once, with the whole command, and read from once, into the
    /// buffer as it came, unless the write failed. So what an implementation promises of its
    /// own `write` and `read` holds of the exchange too.
    fn write_read(&mut self, command: &str, response_buf: &mut [u8]) -> (outcome: Psk31Result<
        usize,
    >)
        ensures
            final(response_buf)@.len() == old(response_buf)@.len(),
            exists|written: Psk31Result<usize>|
                #![trigger exchange(encode_utf8(command@), written, final(response_buf)@, outcome)]
                {
                    &&& final(self).traffic() == old(self).traffic() + exchange(
                        encode_utf8(command@),
                        written,
                        final(response_buf)@,
                        outcome,
                    )
                    &&& written is Err ==> outcome == written && final(response_buf)@ == old(
                        response_buf,
                    )@
                    &&& exists|writing: &mut Self, data: &[u8]|
                        {
                            &&& #[trigger] call_ensures(Self::write, (writing, data), written)
                            &&& &*writing == &*old(self)
                            &&& data@ == encode_utf8(command@)
                            &&& written is Err ==> &*final(self) == &*final(writing)
                            &&& written is Ok ==> exists|reading: &mut Self, given: &mut [u8]|
                                {
                                    &&& #[trigger] call_ensures(
                                        Self::read,
                                        (reading, given),
                                        outcome,
                                    )
                                    &&& &*reading == &*final(writing)
                                    &&& &*final(reading) == &*final(self)
                                    &&& (*given)@ == old(response_buf)@
                                    &&& (*final(given))@ == final(response_buf)@
                                }
                        }
                },
    {
        let ghost before = self.traffic();
        let written = self.write(command.as_bytes());
        let ghost first = written;
        match written {
            Ok(_) => {
                let outcome = self.read(response_buf);
                assert(self.traffic() =~= before + exchange(
                    encode_utf8(command@),
                    first,
                    response_buf@,
                    outcome,
                ));
                outcome
            },
            Err(e) => {
                assert(self.traffic() =~= before + exchange(
                    encode_utf8(command@),
                    first,
                    response_buf@,
                    first,
                ));
                Err(e)
            },
        }
    }

    /// Close the connection.
    fn close(&mut self) -> Psk31Result<()>;

    /// Whether the port is still connected.
    fn is_connected(&self) -> bool;
}

} // verus!
