use std::cell::RefCell;
use std::rc::Rc;

use gc_adapter::{
    controllers_of_packet, rumble_command, AdapterHardware, GcAdapter, Packet,
};

#[derive(Debug, Clone, PartialEq)]
enum Call {
    Write(Vec<u8>),
    Read(usize),
}

type Log = Rc<RefCell<Vec<Call>>>;

struct MockUsb {
    calls: Log,
    frames: Vec<[u8; 37]>,
    reads: usize,
    writes: usize,
    fail_write_at: Option<usize>,
    fail_read_at: Option<usize>,
}

impl MockUsb {
    fn new(frames: Vec<[u8; 37]>) -> (Self, Log) {
        let log: Log = Rc::new(RefCell::new(Vec::new()));
        let usb = MockUsb {
            calls: log.clone(),
            frames,
            reads: 0,
            writes: 0,
            fail_write_at: None,
            fail_read_at: None,
        };
        (usb, log)
    }
}

impl AdapterHardware for MockUsb {
    type Error = String;

    fn write_interrupt(&mut self, data: &[u8]) -> Result<(), String> {
        self.calls.borrow_mut().push(Call::Write(data.to_vec()));
        let n = self.writes;
        self.writes += 1;
        if self.fail_write_at == Some(n) {
            return Err("write failed".to_string());
        }
        Ok(())
    }

    fn read_interrupt(&mut self, data: &mut [u8]) -> Result<(), String> {
        self.calls.borrow_mut().push(Call::Read(data.len()));
        let n = self.reads;
        self.reads += 1;
        if self.fail_read_at == Some(n) {
            return Err(format!("read {} failed", n));
        }
        let frame = self.frames.get(n).copied().unwrap_or([0u8; 37]);
        data.copy_from_slice(&frame[..data.len()]);
        Ok(())
    }
}

fn reads(log: &Log) -> usize {
    log.borrow().iter().filter(|c| matches!(c, Call::Read(_))).count()
}

fn port3_frame() -> [u8; 37] {
    let mut b = [0u8; 37];
    b[0] = 0x21;
    b[28] = 0x10;
    b[31] = 200;
    b[32] = 55;
    b
}

#[test]
fn rumble_command_bytes() {
    assert_eq!(rumble_command([false, false, false, true]), [0x11, 0, 0, 0, 1]);
    assert_eq!(rumble_command([true, false, true, false]), [0x11, 1, 0, 1, 0]);
    assert_eq!(rumble_command([false; 4]), [0x11, 0, 0, 0, 0]);
}

#[test]
fn session_starts_with_init() {
    let (usb, log) = MockUsb::new(vec![]);
    let _adapter = GcAdapter::new(usb).ok().unwrap();
    assert_eq!(*log.borrow(), vec![Call::Write(vec![0x13])]);
}

#[test]
fn failed_init_returns_transport() {
    let (mut usb, log) = MockUsb::new(vec![]);
    usb.fail_write_at = Some(0);
    let (usb, err) = GcAdapter::new(usb).err().unwrap();
    assert_eq!(err, "write failed");
    assert_eq!(usb.writes, 1);
    assert_eq!(reads(&log), 0);
}

#[test]
fn set_rumble_writes_then_reads_ack() {
    let (usb, log) = MockUsb::new(vec![]);
    let mut adapter = GcAdapter::new(usb).ok().unwrap();
    assert_eq!(adapter.set_rumble([false, false, false, true]), Ok(()));
    assert_eq!(
        log.borrow()[1..].to_vec(),
        vec![Call::Write(vec![0x11, 0, 0, 0, 1]), Call::Read(37)]
    );
}

#[test]
fn set_rumble_failed_write_skips_read() {
    let (mut usb, log) = MockUsb::new(vec![]);
    usb.fail_write_at = Some(1);
    let mut adapter = GcAdapter::new(usb).ok().unwrap();
    assert_eq!(adapter.set_rumble([true; 4]), Err("write failed".to_string()));
    assert_eq!(log.borrow().len(), 2);
    assert_eq!(reads(&log), 0);
}

#[test]
fn set_rumble_passes_read_error() {
    let (mut usb, log) = MockUsb::new(vec![]);
    usb.fail_read_at = Some(0);
    let mut adapter = GcAdapter::new(usb).ok().unwrap();
    assert_eq!(adapter.set_rumble([true; 4]), Err("read 0 failed".to_string()));
    assert_eq!(log.borrow().len(), 3);
}

#[test]
fn close_turns_rumble_off() {
    let (usb, log) = MockUsb::new(vec![]);
    let mut adapter = GcAdapter::new(usb).ok().unwrap();
    adapter.set_rumble([true; 4]).unwrap();
    adapter.close();
    assert_eq!(log.borrow().len(), 5);
    assert_eq!(
        log.borrow()[3..].to_vec(),
        vec![Call::Write(vec![0x11, 0, 0, 0, 0]), Call::Read(37)]
    );
}

#[test]
fn close_ignores_read_error() {
    let (mut usb, log) = MockUsb::new(vec![]);
    usb.fail_read_at = Some(0);
    let mut adapter = GcAdapter::new(usb).ok().unwrap();
    adapter.close();
    assert_eq!(log.borrow().last(), Some(&Call::Read(37)));
}

#[test]
fn refresh_reads_ten_frames() {
    let (usb, log) = MockUsb::new(vec![]);
    let mut adapter = GcAdapter::new(usb).ok().unwrap();
    assert_eq!(adapter.refresh_inputs(), Ok(()));
    assert_eq!(log.borrow().len(), 11);
    assert!(log.borrow()[1..].iter().all(|c| *c == Call::Read(37)));
}

#[test]
fn refresh_stops_at_failed_read() {
    let (mut usb, log) = MockUsb::new(vec![]);
    usb.fail_read_at = Some(3);
    let mut adapter = GcAdapter::new(usb).ok().unwrap();
    assert_eq!(adapter.refresh_inputs(), Err("read 3 failed".to_string()));
    assert_eq!(reads(&log), 4);
}

#[test]
fn read_controllers_passes_read_error() {
    let (mut usb, log) = MockUsb::new(vec![]);
    usb.fail_read_at = Some(0);
    let mut adapter = GcAdapter::new(usb).ok().unwrap();
    assert_eq!(adapter.read_controllers().err(), Some("read 0 failed".to_string()));
    assert_eq!(reads(&log), 1);
}

#[test]
fn refresh_and_read_controllers() {
    let mut frames = vec![[0u8; 37]; 10];
    frames.push(port3_frame());
    let mut adapter = GcAdapter::new(MockUsb::new(frames).0).ok().unwrap();
    assert_eq!(adapter.refresh_inputs(), Ok(()));
    let ports = adapter.read_controllers().unwrap();
    assert!(ports[3].connected());
    assert!(!ports[0].connected());
    assert_eq!(ports[3].left_stick.raw(), (200, 55));
}

#[test]
fn unrecognized_frame_reads_as_disconnected() {
    let mut frame = [0x33u8; 37];
    frame[0] = 0x05;
    let mut adapter = GcAdapter::new(MockUsb::new(vec![frame]).0).ok().unwrap();
    let ports = adapter.read_controllers().unwrap();
    for p in ports.iter() {
        assert!(!p.connected());
        assert_eq!(p.describe(), "Controller(Disconnected)");
    }
    let ports = controllers_of_packet(Packet::Unknown(0x05));
    assert!(ports.iter().all(|p| !p.connected()));
}

#[test]
fn test_display_controllers() {
    let mut frames = vec![[0u8; 37]; 10];
    frames.push(port3_frame());
    frames.push(port3_frame());
    let mut adapter = GcAdapter::new(MockUsb::new(frames).0).ok().unwrap();
    adapter.refresh_inputs().unwrap();
    println!("{:?}", adapter.read_controllers().unwrap());
    let (x, y) = adapter.read_controllers().unwrap()[3].left_stick.fractions();
    assert_eq!((x.num, x.den), (145, 255));
    assert_eq!((y.num, y.den), (145, 255));
}
