use std::cell::RefCell;
use std::collections::VecDeque;
use std::time::Duration;

use canlib::embedded_hal::{
    blocking_receive_step, blocking_transmit_step, nb_receive, nb_receive_outcome, nb_transmit,
    nb_transmit_outcome, ErrorKind, NbError,
};
use canlib::{
    BusParams, BusStatus, CanBusControl, CanChannel, CanDiagnostics, CanError, CanMessage, CanRead,
    CanWrite, Channel, EmbeddedCanError, ErrorCounters, MessageFlags, OpenFlags, StandardId,
};
use canlib::{Bitrate, Result};

/// A mock CAN channel for unit testing.
struct MockChannel {
    on_bus: bool,
    rx_queue: RefCell<VecDeque<CanMessage>>,
    tx_log: RefCell<Vec<CanMessage>>,
}

impl MockChannel {
    fn new() -> Self {
        Self {
            on_bus: false,
            rx_queue: RefCell::new(VecDeque::new()),
            tx_log: RefCell::new(Vec::new()),
        }
    }

    fn push_rx(&self, msg: CanMessage) {
        self.rx_queue.borrow_mut().push_back(msg);
    }

    fn take_tx_log(&self) -> Vec<CanMessage> {
        self.tx_log.borrow_mut().drain(..).collect()
    }
}

impl CanBusControl for MockChannel {
    fn bus_on(&mut self) -> Result<()> {
        self.on_bus = true;
        Ok(())
    }
    fn bus_off(&mut self) -> Result<()> {
        self.on_bus = false;
        Ok(())
    }
    fn reset_bus(&mut self) -> Result<()> {
        self.on_bus = false;
        Ok(())
    }
    fn is_on_bus(&self) -> bool {
        self.on_bus
    }
    fn set_bitrate(&self, _bitrate: Bitrate) -> Result<()> {
        Ok(())
    }
    fn set_bus_params(&self, _params: &BusParams) -> Result<()> {
        Ok(())
    }
}

impl CanRead for MockChannel {
    fn read(&self) -> Result<CanMessage> {
        self.rx_queue.borrow_mut().pop_front().ok_or(CanError::NoMsg)
    }
    fn read_wait(&self, _timeout: Duration) -> Result<CanMessage> {
        self.read()
    }
    fn read_specific(&self, id: u32) -> Result<CanMessage> {
        let mut q = self.rx_queue.borrow_mut();
        let pos = q.iter().position(|m| m.id() == id);
        match pos {
            Some(i) => Ok(q.remove(i).unwrap()),
            None => Err(CanError::NoMsg),
        }
    }
    fn read_specific_skip(&self, id: u32) -> Result<CanMessage> {
        self.read_specific(id)
    }
}

impl CanWrite for MockChannel {
    fn write(&self, msg: &CanMessage) -> Result<()> {
        self.tx_log.borrow_mut().push(msg.clone());
        Ok(())
    }
    fn write_wait(&self, msg: &CanMessage, _timeout: Duration) -> Result<()> {
        self.write(msg)
    }
    fn write_sync(&self, _timeout: Duration) -> Result<()> {
        Ok(())
    }
}

impl CanDiagnostics for MockChannel {
    fn set_acceptance_filter(&self, _code: u32, _mask: u32, _extended: bool) -> Result<()> {
        Ok(())
    }
    fn read_status(&self) -> Result<BusStatus> {
        Ok(BusStatus::empty())
    }
    fn read_error_counters(&self) -> Result<ErrorCounters> {
        Ok(ErrorCounters::default())
    }
    fn flush_rx(&self) -> Result<()> {
        self.rx_queue.borrow_mut().clear();
        Ok(())
    }
    fn flush_tx(&self) -> Result<()> {
        self.tx_log.borrow_mut().clear();
        Ok(())
    }
}

fn std_id(id: u16) -> StandardId {
    StandardId::new(id).unwrap()
}

/// Blocking receive as the application layer drives it.
fn blocking_receive<C: CanRead>(chan: &C) -> std::result::Result<CanMessage, EmbeddedCanError> {
    loop {
        if let Some(outcome) = blocking_receive_step(chan.read_wait(Duration::from_millis(canlib::embedded_hal::FOREVER_MS))) {
            return outcome;
        }
    }
}

/// Blocking transmit as the application layer drives it.
fn blocking_transmit<C: CanWrite>(chan: &C, frame: &CanMessage) -> std::result::Result<(), EmbeddedCanError> {
    loop {
        if let Some(outcome) = blocking_transmit_step(chan.write_wait(frame, Duration::from_millis(canlib::embedded_hal::FOREVER_MS))) {
            return outcome;
        }
    }
}

#[test]
fn bus_on_off_state() {
    let mut mock = MockChannel::new();
    assert!(!mock.is_on_bus());
    mock.bus_on().unwrap();
    assert!(mock.is_on_bus());
    mock.bus_off().unwrap();
    assert!(!mock.is_on_bus());
}

#[test]
fn write_captures_to_tx_log() {
    let mock = MockChannel::new();
    let msg = CanMessage::new(std_id(0x100), &[1, 2, 3]).unwrap();
    CanWrite::write(&mock, &msg).unwrap();
    let log = mock.take_tx_log();
    assert_eq!(log.len(), 1);
    assert_eq!(log[0].id(), 0x100);
    assert_eq!(log[0].data(), &[1, 2, 3]);
}

#[test]
fn read_returns_enqueued_messages() {
    let mock = MockChannel::new();
    let msg = CanMessage::from_raw(0x200, vec![0xAA], 1, MessageFlags::STD(), 1000);
    mock.push_rx(msg);
    let rx = CanRead::read(&mock).unwrap();
    assert_eq!(rx.id(), 0x200);
    assert_eq!(rx.data(), &[0xAA]);
}

#[test]
fn empty_read_returns_no_msg() {
    let mock = MockChannel::new();
    let err = CanRead::read(&mock).unwrap_err();
    assert_eq!(err, CanError::NoMsg);
}

#[test]
fn dyn_can_channel_acceptance() {
    let mut mock = MockChannel::new();
    let ch: &mut dyn CanChannel = &mut mock;
    ch.bus_on().unwrap();
    assert!(ch.is_on_bus());
}

#[test]
fn nb_receive_returns_would_block_when_empty() {
    let mock = MockChannel::new();
    let r = nb_receive(&mock);
    assert!(matches!(r, Err(NbError::WouldBlock)));
}

#[test]
fn nb_receive_returns_data_frame() {
    let mock = MockChannel::new();
    let f = canlib::embedded_hal::frame_new(canlib::Id::Standard(std_id(0x42)), &[9, 8, 7]).unwrap();
    mock.push_rx(f);
    let got = nb_receive(&mock).unwrap();
    assert_eq!(got.data(), &[9, 8, 7]);
}

#[test]
fn nb_receive_filters_error_frames_into_bus_errors() {
    let mock = MockChannel::new();
    // Construct a synthetic error frame with a CRC bit set.
    let err = CanMessage::from_raw(0, vec![], 0, MessageFlags::ERROR_FRAME() | MessageFlags::ERR_CRC(), 0);
    mock.push_rx(err);
    let r = nb_receive(&mock);
    match r {
        Err(NbError::Other(EmbeddedCanError::Bus(ErrorKind::Crc))) => {}
        other => panic!("expected Bus(Crc), got {:?}", other),
    }
}

#[test]
fn nb_transmit_records_frame_and_returns_none() {
    let mock = MockChannel::new();
    let f = canlib::embedded_hal::frame_new(canlib::Id::Standard(std_id(0x55)), &[1, 2]).unwrap();
    let r = nb_transmit(&mock, &f).unwrap();
    assert!(r.is_none());
    let log = mock.take_tx_log();
    assert_eq!(log.len(), 1);
    assert_eq!(log[0].data(), &[1, 2]);
}

#[test]
fn blocking_receive_returns_data_frame() {
    let mock = MockChannel::new();
    let f = canlib::embedded_hal::frame_new(canlib::Id::Standard(std_id(0x77)), &[0xDE, 0xAD]).unwrap();
    mock.push_rx(f);
    let got = blocking_receive(&mock).unwrap();
    assert_eq!(got.data(), &[0xDE, 0xAD]);
}

#[test]
fn blocking_receive_surfaces_bus_error() {
    let mock = MockChannel::new();
    let err = CanMessage::from_raw(0, vec![], 0, MessageFlags::ERROR_FRAME() | MessageFlags::ERR_BIT0(), 0);
    mock.push_rx(err);
    match blocking_receive(&mock) {
        Err(EmbeddedCanError::Bus(ErrorKind::Bit)) => {}
        other => panic!("expected Bus(Bit), got {:?}", other.err()),
    }
}

#[test]
fn blocking_transmit_records_frame() {
    let mock = MockChannel::new();
    let f = canlib::embedded_hal::frame_new(canlib::Id::Standard(std_id(0x99)), &[0xC0, 0xDE]).unwrap();
    blocking_transmit(&mock, &f).unwrap();
    let log = mock.take_tx_log();
    assert_eq!(log.len(), 1);
    assert_eq!(log[0].data(), &[0xC0, 0xDE]);
}

#[test]
fn channel_state_follows_driver_statuses() {
    assert_eq!(Channel::open(-9).err(), Some(CanError::NoHandles));
    let mut ch = Channel::open(3).unwrap();
    assert_eq!(ch.raw_handle(), 3);
    assert!(!ch.is_on_bus());
    assert_eq!(ch.bus_on(-15), Err(CanError::Hardware));
    assert!(!ch.is_on_bus());
    assert_eq!(ch.bus_on(0), Ok(()));
    assert!(ch.is_on_bus());
    assert_eq!(ch.bus_off(-10), Err(CanError::InvalidHandle));
    assert!(ch.is_on_bus());
    assert_eq!(ch.reset_bus(0), Ok(()));
    assert!(!ch.is_on_bus());
    assert_eq!(ch.bus_on(1), Ok(()));
    assert_eq!(ch.bus_off(0), Ok(()));
    assert!(!ch.is_on_bus());
    assert_eq!(ch.raw_handle(), 3);
}

#[test]
fn open_flags_compose() {
    let flags = OpenFlags::CAN_FD() | OpenFlags::ACCEPT_VIRTUAL() | OpenFlags::REQUIRE_INIT_ACCESS();
    assert_eq!(flags.bits(), 0x0400 | 0x0020 | 0x0080);
    assert!(flags.contains(OpenFlags::ACCEPT_VIRTUAL()));
    assert!(!flags.contains(OpenFlags::EXCLUSIVE()));
    assert_eq!(OpenFlags::empty().bits(), 0);
}

#[test]
fn nb_and_blocking_outcomes_for_each_error() {
    assert!(matches!(nb_transmit_outcome(Err(CanError::TxBufOverflow)), Err(NbError::WouldBlock)));
    assert!(matches!(
        nb_transmit_outcome(Err(CanError::Hardware)),
        Err(NbError::Other(EmbeddedCanError::Lib(CanError::Hardware)))
    ));
    assert!(matches!(
        nb_receive_outcome(Err(CanError::Timeout)),
        Err(NbError::Other(EmbeddedCanError::Lib(CanError::Timeout)))
    ));
    assert!(blocking_transmit_step(Err(CanError::Timeout)).is_none());
    assert_eq!(blocking_transmit_step(Ok(())), Some(Ok(())));
    assert_eq!(
        blocking_transmit_step(Err(CanError::TxBufOverflow)),
        Some(Err(EmbeddedCanError::Lib(CanError::TxBufOverflow)))
    );
    assert!(blocking_receive_step(Err(CanError::Timeout)).is_none());
    assert!(matches!(
        blocking_receive_step(Err(CanError::NoMsg)),
        Some(Err(EmbeddedCanError::Lib(CanError::NoMsg)))
    ));
}

#[test]
fn on_bus_follows_last_successful_bus_call() {
    let mut ch = Channel::open(5).unwrap();
    let _ = ch.bus_on(0);
    let _ = ch.bus_off(-1);
    let _ = ch.reset_bus(-2);
    assert!(ch.is_on_bus());
    let _ = ch.reset_bus(0);
    let _ = ch.bus_on(-3);
    assert!(!ch.is_on_bus());
    let mut fresh = Channel::open(6).unwrap();
    let _ = fresh.bus_on(-1);
    let _ = fresh.bus_off(-1);
    assert!(!fresh.is_on_bus());
}

#[test]
fn open_flags_set_operations() {
    assert_eq!(OpenFlags::all().bits(), 0x0FF8);
    assert_eq!(OpenFlags::from_bits_truncate(0x7FFF).bits(), 0x0FF8);
    assert_eq!(OpenFlags::from_bits_truncate(0x0401).bits(), 0x0400);
    assert!(OpenFlags::empty().is_empty());
    assert!(!OpenFlags::CAN_FD().is_empty());
    let flags = OpenFlags::CAN_FD() | OpenFlags::EXCLUSIVE();
    assert!(flags.intersects(OpenFlags::EXCLUSIVE()));
    assert!(!flags.intersects(OpenFlags::ACCEPT_VIRTUAL()));
}
