use bassin::definitions::DriverType;
use bassin::driver_cn_pin::{DriverCnPin, GoSequence, PinAction, PinDirection, PinEvent, PulseSequence};
use bassin::drivers_cn_rs232::{BusAction, BusEvent, DriversCnRs232, I2cOp};
use bassin::error::HardwareError;

#[test]
fn driver_lines() {
    let d = DriverCnPin::new(DriverType::EX);
    assert_eq!((d.pin_go, d.pin_reset, d.pin_zero, d.pin_fin_mvt), (44, 32, 73, 65));
    let d = DriverCnPin::new(DriverType::ETHETA);
    assert_eq!((d.pin_go, d.pin_reset, d.pin_zero, d.pin_fin_mvt), (47, 35, 76, 68));
    let d = DriverCnPin::new(DriverType::RTHETA);
    assert_eq!((d.pin_go, d.pin_reset, d.pin_zero, d.pin_fin_mvt), (51, 39, 80, 72));
    assert_eq!(d.get_driver_type(), DriverType::RTHETA);
    let d = DriverCnPin::new(DriverType::ALL);
    assert_eq!((d.pin_go, d.pin_reset, d.pin_zero, d.pin_fin_mvt), (0, 0, 0, 0));
    let d = DriverCnPin::new(DriverType::RY);
    assert_eq!(d.set_export(), vec![49, 37, 78, 70]);
    assert_eq!(d.set_direction(), vec![(49, PinDirection::Out), (37, PinDirection::Out), (78, PinDirection::Out), (70, PinDirection::In)]);
    let d = DriverCnPin::default();
    assert_eq!(d.get_driver_type(), DriverType::EX);
    assert_eq!(d.pin_go, 0);
}

#[test]
fn movement_check() {
    let d = DriverCnPin::new(DriverType::EZ);
    assert_eq!(d.movement_finished(Ok(0), Ok(1)), Ok(()));
    assert_eq!(
        d.movement_finished(Ok(1), Ok(1)),
        Err(HardwareError::MovmentNotFinished(DriverType::EZ))
    );
    assert_eq!(
        d.movement_finished(Ok(0), Ok(0)),
        Err(HardwareError::MovmentNotFinished(DriverType::EZ))
    );
    assert_eq!(d.movement_finished(Err(HardwareError::PinRead(46)), Ok(1)), Err(HardwareError::PinRead(46)));
    assert_eq!(d.movement_finished(Ok(0), Err(HardwareError::PinRead(67))), Err(HardwareError::PinRead(67)));
}

/// Runs a movement exchange against scripted line levels; returns the
/// actions asked and the outcome.
fn run_go(mut s: GoSequence, levels: &mut Vec<u8>, fail_writes: bool) -> (Vec<String>, Result<(), HardwareError>) {
    let mut log = Vec::new();
    let mut ev = PinEvent::Start;
    loop {
        match s.step(ev) {
            PinAction::Read(p) => {
                log.push(format!("read {}", p));
                ev = PinEvent::Level(levels.remove(0));
            }
            PinAction::Write(p, v) => {
                log.push(format!("write {} {}", p, v));
                ev = if fail_writes { PinEvent::Failed(HardwareError::PinWrite(p as u8)) } else { PinEvent::Done };
            }
            PinAction::SleepMs(ms) => {
                log.push(format!("sleep {}", ms));
                ev = PinEvent::Done;
            }
            PinAction::Finish(r) => {
                assert!(s.is_over());
                return (log, r);
            }
        }
    }
}

#[test]
fn go_exchange_moves_and_waits() {
    let d = DriverCnPin::new(DriverType::EX);
    // go low, end of movement high; then the driver moves for two polls
    let mut levels = vec![0, 1, 1, 1, 0];
    let (log, r) = run_go(d.go(), &mut levels, false);
    assert_eq!(r, Ok(()));
    assert_eq!(
        log,
        vec![
            "read 44", "read 65", "write 44 1", "sleep 10", "read 65", "read 65", "read 65",
            "write 44 0"
        ]
    );
}

#[test]
fn go_exchange_refuses_a_busy_driver() {
    let d = DriverCnPin::new(DriverType::RX);
    let (log, r) = run_go(d.go(), &mut vec![1, 1], false);
    assert_eq!(r, Err(HardwareError::MovmentNotFinished(DriverType::RX)));
    assert_eq!(log, vec!["read 48", "read 69"]);
    let (_, r) = run_go(d.go(), &mut vec![0, 0], false);
    assert_eq!(r, Err(HardwareError::MovmentNotFinished(DriverType::RX)));
}

#[test]
fn go_exchange_stops_on_a_failure() {
    let d = DriverCnPin::new(DriverType::RX);
    let (log, r) = run_go(d.go(), &mut vec![0, 1], true);
    assert_eq!(r, Err(HardwareError::PinWrite(48)));
    assert_eq!(log, vec!["read 48", "read 69", "write 48 1"]);
}

fn run_pulse(mut s: PulseSequence) -> (Vec<String>, Result<(), HardwareError>) {
    let mut log = Vec::new();
    let mut ev = PinEvent::Start;
    loop {
        match s.step(ev) {
            PinAction::Write(p, v) => {
                log.push(format!("write {} {}", p, v));
                ev = PinEvent::Done;
            }
            PinAction::SleepMs(ms) => {
                log.push(format!("sleep {}", ms));
                ev = PinEvent::Done;
            }
            PinAction::Read(_) => panic!("a pulse reads nothing"),
            PinAction::Finish(r) => {
                assert!(s.is_over());
                return (log, r);
            }
        }
    }
}

#[test]
fn reset_and_zero_are_pulses() {
    let d = DriverCnPin::new(DriverType::EY);
    let (log, r) = run_pulse(d.reset());
    assert_eq!(r, Ok(()));
    assert_eq!(log, vec!["write 33 1", "sleep 1", "write 33 0"]);
    let (log, _) = run_pulse(d.zero());
    assert_eq!(log, vec!["write 74 1", "sleep 1", "write 74 0"]);
}

#[test]
fn bridge_addresses_and_interrupts() {
    let expected = [
        (DriverType::EX, 0x6C, 100),
        (DriverType::EY, 0x61, 101),
        (DriverType::EZ, 0x64, 102),
        (DriverType::ETHETA, 0x65, 103),
        (DriverType::RX, 0x5C, 100),
        (DriverType::RY, 0x51, 101),
        (DriverType::RZ, 0x54, 102),
        (DriverType::RTHETA, 0x55, 103),
        (DriverType::R, 0x00, 0),
        (DriverType::E, 0x00, 0),
        (DriverType::ALL, 0x00, 0),
    ];
    for (dt, addr, irq) in expected {
        assert_eq!(DriversCnRs232::get_i2c_addr_value(dt), addr);
        assert_eq!(DriversCnRs232::get_iqr_pin(dt), irq);
    }
    assert_eq!(DriversCnRs232::interrupt_lines(), vec![100, 101, 102, 103]);
}

#[test]
fn configuration_sets_up_the_x_and_y_bridges() {
    let ops = DriversCnRs232::configuration();
    assert_eq!(ops.len(), 20);
    assert_eq!(ops[0], I2cOp::SetSlave(0x6C, DriverType::EX));
    assert_eq!(ops[1], I2cOp::Write(0x01, 0x40, DriverType::EX));
    assert_eq!(ops[2], I2cOp::Write(0x0A, 0x08, DriverType::EX));
    assert_eq!(ops[3], I2cOp::Write(0x0B, 0x03, DriverType::EX));
    assert_eq!(ops[4], I2cOp::Write(0x0C, 0x01, DriverType::EX));
    assert_eq!(ops[5], I2cOp::SetSlave(0x61, DriverType::EY));
    assert_eq!(ops[10], I2cOp::SetSlave(0x5C, DriverType::RX));
    assert_eq!(ops[15], I2cOp::SetSlave(0x51, DriverType::RY));
    assert_eq!(ops[19], I2cOp::Write(0x0C, 0x01, DriverType::RY));
}

#[test]
fn frame_of_a_step_count() {
    assert_eq!(
        DriversCnRs232::steps_to_bytes(0x0081_4D41),
        [0x08, 0x51, 0x00, 0x01, 0x81, 0x4D, 0x41, 0x87, 0xff]
    );
    assert_eq!(
        DriversCnRs232::steps_to_bytes(0x1234_5678),
        [0x08, 0x51, 0x00, 0x01, 0x34, 0x56, 0x78, 0x87, 0xff]
    );
    assert_eq!(DriversCnRs232::steps_to_bytes(0), [0x08, 0x51, 0x00, 0x01, 0, 0, 0, 0x87, 0xff]);
}

/// Runs a transfer against a bridge that echoes each byte through `echo`.
fn run_transfer(data: [u8; 9], dt: DriverType, echo: impl Fn(u8) -> u8) -> (Vec<String>, Result<(), HardwareError>) {
    let mut t = DriversCnRs232::write_i2c(data, dt);
    let mut log = Vec::new();
    let mut ev = BusEvent::Start;
    let mut last = 0u8;
    let mut irq_polls = 0;
    loop {
        match t.step(ev) {
            BusAction::SetSlave(a) => {
                log.push(format!("slave {:#x}", a));
                ev = BusEvent::Done;
            }
            BusAction::WriteRegister(r, v) => {
                log.push(format!("write {} {:#x}", r, v));
                last = v;
                ev = BusEvent::Done;
            }
            BusAction::ReadPin(p) => {
                irq_polls += 1;
                // high on the first poll of each byte, then low
                ev = BusEvent::Level(if irq_polls % 2 == 1 { 1 } else { 0 });
                log.push(format!("pin {}", p));
            }
            BusAction::ReadRegister(r) => {
                log.push(format!("read {}", r));
                ev = BusEvent::Byte(if r == 0 { echo(last) } else { 0x08 });
            }
            BusAction::Finish(r) => {
                assert!(t.is_over());
                return (log, r);
            }
        }
    }
}

#[test]
fn transfer_sends_every_byte_and_checks_its_echo() {
    let data = DriversCnRs232::steps_to_bytes(2048);
    let (log, r) = run_transfer(data, DriverType::EZ, |b| b);
    assert_eq!(r, Ok(()));
    assert_eq!(log[0], "slave 0x64");
    assert_eq!(log[1], "write 0 0x8");
    assert_eq!(log[2], "pin 102");
    assert_eq!(log[3], "pin 102");
    assert_eq!(log[4], "read 2");
    assert_eq!(log[5], "read 0");
    // one addressing, then per byte: write, two polls, two reads
    assert_eq!(log.len(), 1 + 9 * 5);
}

#[test]
fn transfer_stops_on_a_bad_echo() {
    let data = DriversCnRs232::steps_to_bytes(2048);
    let (log, r) = run_transfer(data, DriverType::RY, |b| if b == 0x51 { 0x50 } else { b });
    assert_eq!(r, Err(HardwareError::BadI2cResponse(DriverType::RY, 0x50, 0x51)));
    // the first byte went through, the second did not
    assert_eq!(log.len(), 1 + 2 * 5);
}

#[test]
fn transfer_stops_on_a_bus_failure() {
    let mut t = DriversCnRs232::write_i2c([0; 9], DriverType::RX);
    assert!(matches!(t.step(BusEvent::Start), BusAction::SetSlave(0x5C)));
    match t.step(BusEvent::Failed(HardwareError::I2cSetSlave(0x5C, DriverType::RX))) {
        BusAction::Finish(r) => assert_eq!(r, Err(HardwareError::I2cSetSlave(0x5C, DriverType::RX))),
        _ => panic!("the transfer goes on after a failure"),
    }
    assert!(t.is_over());
}

#[test]
fn frame_carries_the_low_24_bits() {
    for steps in [0usize, 1, 255, 256, 65535, 8539473, 16777215, 16777216, 16777217, 0x7fff_ffff] {
        let f = DriversCnRs232::steps_to_bytes(steps);
        let carried = f[4] as usize * 65536 + f[5] as usize * 256 + f[6] as usize;
        assert_eq!(carried, steps % 16777216);
        assert_eq!(&f[..4], &[0x08, 0x51, 0x00, 0x01]);
        assert_eq!(&f[7..], &[0x87, 0xff]);
    }
}

#[test]
fn exchanges_tell_which_event_they_wait_for() {
    let d = DriverCnPin::new(DriverType::EX);
    let mut g = d.go();
    assert!(g.expects(&PinEvent::Start));
    assert!(!g.expects(&PinEvent::Done));
    g.step(PinEvent::Start);
    assert!(g.expects(&PinEvent::Level(0)));
    assert!(g.expects(&PinEvent::Failed(HardwareError::PinRead(44))));
    assert!(!g.expects(&PinEvent::Start));
    let p = d.reset();
    assert!(p.expects(&PinEvent::Start) && !p.expects(&PinEvent::Level(1)));
    let t = DriversCnRs232::write_i2c([0; 9], DriverType::EX);
    assert!(t.expects(&BusEvent::Start) && !t.expects(&BusEvent::Byte(0)));
}
