use baudacious::domain::error::{Psk31Error, Psk31Result};
use baudacious::domain::types::SerialPortInfo;
use baudacious::ports::serial::{SerialConnection, SerialFactory};

struct EchoSerial {
    response: Vec<u8>,
}

impl SerialConnection for EchoSerial {
    fn write(&mut self, data: &[u8]) -> Psk31Result<usize> {
        Ok(data.len())
    }
    fn read(&mut self, buf: &mut [u8]) -> Psk31Result<usize> {
        let n = self.response.len().min(buf.len());
        buf[..n].copy_from_slice(&self.response[..n]);
        Ok(n)
    }
    fn close(&mut self) -> Psk31Result<()> {
        Ok(())
    }
    fn is_connected(&self) -> bool {
        true
    }
}

#[test]
fn write_read_combines_write_and_read() {
    let mut serial = EchoSerial { response: b"FA00014070000;".to_vec() };
    let mut buf = [0u8; 64];
    let n = serial.write_read("FA;", &mut buf).unwrap();
    assert!(n > 0);
    assert_eq!(&buf[..n], b"FA00014070000;");
}

/// A port that records what it is asked, and whose writes fail if told so.
struct Recorder {
    written: Vec<Vec<u8>>,
    reads: usize,
    broken: bool,
}

impl SerialConnection for Recorder {
    fn write(&mut self, data: &[u8]) -> Psk31Result<usize> {
        self.written.push(data.to_vec());
        if self.broken {
            return Err(Psk31Error::Serial("gone".to_string()));
        }
        Ok(data.len())
    }
    fn read(&mut self, buf: &mut [u8]) -> Psk31Result<usize> {
        self.reads += 1;
        buf[0] = b';';
        Ok(1)
    }
    fn close(&mut self) -> Psk31Result<()> {
        Ok(())
    }
    fn is_connected(&self) -> bool {
        !self.broken
    }
}

impl SerialFactory for Recorder {
    fn list_ports() -> Psk31Result<Vec<SerialPortInfo>> {
        Ok(vec![SerialPortInfo {
            name: "/dev/ttyUSB0".to_string(),
            port_type: "USB (10C4:EA60)".to_string(),
            device_hint: None,
        }])
    }
    fn open(_port: &str, _baud_rate: u32) -> Psk31Result<Box<dyn SerialConnection>> {
        Ok(Box::new(Recorder { written: Vec::new(), reads: 0, broken: false }))
    }
}

#[test]
fn write_read_writes_the_whole_command_once() {
    let mut port = Recorder { written: Vec::new(), reads: 0, broken: false };
    let mut buf = [0u8; 4];
    assert_eq!(port.write_read("MD0;", &mut buf).unwrap(), 1);
    assert_eq!(port.written, vec![b"MD0;".to_vec()]);
    assert_eq!(port.reads, 1);
    assert_eq!(buf, [b';', 0, 0, 0]);
}

#[test]
fn write_read_keeps_the_unread_rest_of_the_buffer() {
    let mut serial = EchoSerial { response: b"FA00014070000;".to_vec() };
    let mut buf = [9u8; 64];
    assert_eq!(serial.write_read("FA;", &mut buf).unwrap(), 14);
    assert_eq!(&buf[..14], b"FA00014070000;");
    assert!(buf[14..].iter().all(|b| *b == 9));
}

#[test]
fn write_read_does_not_read_after_a_failed_write() {
    let mut port = Recorder { written: Vec::new(), reads: 0, broken: true };
    let mut buf = [7u8; 4];
    let result = port.write_read("MD0;", &mut buf);
    assert!(matches!(result, Err(Psk31Error::Serial(m)) if m == "gone"));
    assert_eq!(port.reads, 0);
    assert_eq!(buf, [7u8; 4]);
}

#[test]
fn a_factory_hands_out_connections() {
    assert_eq!(Recorder::list_ports().unwrap()[0].name, "/dev/ttyUSB0");
    let mut port = Recorder::open("/dev/ttyUSB0", 38400).unwrap();
    let mut buf = [0u8; 4];
    assert_eq!(port.write_read("ID;", &mut buf).unwrap(), 1);
    assert!(port.is_connected());
}
