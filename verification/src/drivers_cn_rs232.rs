//! The serial side of the drivers: each driver receives its targets through
//! a MAX3109 bridge reached over I2C. This module holds which bridge and which
//! interrupt line serve each driver, the register writes that configure the
//! bridges, the frames that carry a target, and the exchange that sends a
//! frame and checks its echo.
use crate::definitions::DriverType;
use crate::error::HardwareError;
use vstd::prelude::*;

verus! {

/// I2C address of the bridge of a driver (0 for a group of drivers).
pub open spec fn bridge_address(dt: DriverType) -> u8 {
    match dt {
        DriverType::EX => 0x6C,
        DriverType::EY => 0x61,
        DriverType::EZ => 0x64,
        DriverType::ETHETA => 0x65,
        DriverType::RX => 0x5C,
        DriverType::RY => 0x51,
        DriverType::RZ => 0x54,
        DriverType::RTHETA => 0x55,
        _ => 0x00,
    }
}

/// GPIO line on which the bridge of a driver raises its interrupt: one line
/// per axis, shared by the two arms (0 for a group of drivers).
pub open spec fn interrupt_line(dt: DriverType) -> u64 {
    if dt.is_axis() {
        (100 + dt.axis_rank() % 4) as u64
    } else {
        0
    }
}

/// One operation on the I2C bus.
#[derive(Clone, Copy, Debug, PartialEq, Eq, Structural)]
pub enum I2cOp {
    /// Address the bridge at this address, for this driver.
    SetSlave(u16, DriverType),
    /// Write the data (second) into the register (first) of the bridge of
    /// the driver.
    Write(u8, u8, DriverType),
}

/// The operations that configure the bridge of one driver: address it,
/// then set its registers so that it raises an interrupt when its receive
/// FIFO is not empty, with 8 bit words.
pub open spec fn bridge_setup(dt: DriverType) -> Seq<I2cOp> {
    seq![
        I2cOp::SetSlave(bridge_address(dt) as u16, dt),
        I2cOp::Write(0x01, 0x40, dt),
        I2cOp::Write(0x0A, 0x08, dt),
        I2cOp::Write(0x0B, 0x03, dt),
        I2cOp::Write(0x0C, 0x01, dt),
    ]
}

/// The configuration of all bridges: the drivers are walked in declaration
/// order and only the X and Y bridges of each arm are set up.
pub open spec fn configuration_ops() -> Seq<I2cOp> {
    bridge_setup(DriverType::EX) + bridge_setup(DriverType::EY) + bridge_setup(DriverType::RX)
        + bridge_setup(DriverType::RY)
}

/// The frame that carries a target of `steps` motor steps: a fixed header,
/// the low 24 bits of `steps` most significant byte first, a fixed trailer.
pub open spec fn frame_of(steps: usize) -> Seq<u8> {
    seq![
        0x08u8,
        0x51u8,
        0x00u8,
        0x01u8,
        (steps >> 16usize) as u8,
        (steps >> 8usize) as u8,
        (steps & 0xffusize) as u8,
        0x87u8,
        0xffu8,
    ]
}

/// What came of the last bus action.
#[derive(Debug)]
pub enum BusEvent {
    /// Nothing was asked yet.
    Start,
    /// The addressing or the register write is done.
    Done,
    /// The register read gave this byte.
    Byte(u8),
    /// The interrupt line read at this level.
    Level(u8),
    /// The action failed.
    Failed(HardwareError),
}

/// What the caller has to do next.
#[derive(Debug)]
pub enum BusAction {
    /// Address the bridge at this address.
    SetSlave(u16),
    /// Write the data (second) into the register (first).
    WriteRegister(u8, u8),
    /// Read this register.
    ReadRegister(u8),
    /// Read the level of this GPIO line.
    ReadPin(u64),
    /// The exchange is over, with this outcome.
    Finish(Result<(), HardwareError>),
}

/// Where a frame transfer stands.
#[derive(Clone, Copy, Debug, PartialEq, Eq, Structural)]
pub enum TransferPhase {
    Begin,
    /// Waiting for the bridge to be addressed.
    Addressing,
    /// Waiting for the current byte to be written to the transmit register.
    Writing,
    /// Waiting on the interrupt line, which stays high until the echo came.
    WaitingIrq,
    /// Waiting for the read of the interrupt register.
    Acknowledging,
    /// Waiting for the echoed byte.
    ReadingEcho,
    Over,
}

/// The exchange that sends a frame to a driver, byte after byte, and checks
/// that each byte comes back unchanged.
#[derive(Clone, Copy)]
pub struct I2cTransfer {
    pub phase: TransferPhase,
    pub data: [u8; 9],
    /// Index of the byte being sent.
    pub index: usize,
    pub driver_type: DriverType,
    pub address: u8,
    pub irq_pin: u64,
    /// The bytes the driver echoed so far.
    pub echoed: Ghost<Seq<u8>>,
}

/// The events a phase of a transfer can receive.
pub open spec fn transfer_accepts(phase: TransferPhase, event: BusEvent) -> bool {
    match phase {
        TransferPhase::Begin => event is Start,
        TransferPhase::Addressing | TransferPhase::Writing => event is Done || event is Failed,
        TransferPhase::WaitingIrq => event is Level || event is Failed,
        TransferPhase::Acknowledging | TransferPhase::ReadingEcho => event is Byte
            || event is Failed,
        TransferPhase::Over => false,
    }
}

/// One step of a transfer.
pub open spec fn transfer_step(s: I2cTransfer, event: BusEvent) -> (I2cTransfer, BusAction) {
    match event {
        BusEvent::Failed(e) => (I2cTransfer { phase: TransferPhase::Over, ..s }, BusAction::Finish(Err(e))),
        _ => match s.phase {
            TransferPhase::Begin => (
                I2cTransfer { phase: TransferPhase::Addressing, ..s },
                BusAction::SetSlave(s.address as u16),
            ),
            TransferPhase::Addressing => (
                I2cTransfer { phase: TransferPhase::Writing, ..s },
                BusAction::WriteRegister(0x00, s.data@[s.index as int]),
            ),
            TransferPhase::Writing => (
                I2cTransfer { phase: TransferPhase::WaitingIrq, ..s },
                BusAction::ReadPin(s.irq_pin),
            ),
            TransferPhase::WaitingIrq => if event->Level_0 == 1 {
                (s, BusAction::ReadPin(s.irq_pin))
            } else {
                (I2cTransfer { phase: TransferPhase::Acknowledging, ..s }, BusAction::ReadRegister(0x02))
            },
            TransferPhase::Acknowledging => (
                I2cTransfer { phase: TransferPhase::ReadingEcho, ..s },
                BusAction::ReadRegister(0x00),
            ),
            TransferPhase::ReadingEcho => {
                let g: u8 = event->Byte_0;
                let n: u8 = s.data@[s.index as int];
                if g != n {
                    (
                        I2cTransfer { phase: TransferPhase::Over, ..s },
                        BusAction::Finish(Err(HardwareError::BadI2cResponse(s.driver_type, g, n))),
                    )
                } else if s.index + 1 == 9 {
                    (
                        I2cTransfer { phase: TransferPhase::Over, echoed: Ghost(s.echoed@.push(g)), ..s },
                        BusAction::Finish(Ok(())),
                    )
                } else {
                    (
                        I2cTransfer {
                            phase: TransferPhase::Writing,
                            index: (s.index + 1) as usize,
                            echoed: Ghost(s.echoed@.push(g)),
                            ..s
                        },
                        BusAction::WriteRegister(0x00, s.data@[s.index + 1]),
                    )
                }
            },
            TransferPhase::Over => (s, BusAction::Finish(Ok(()))),
        },
    }
}

impl I2cTransfer {
    /// The transfer is consistent: the bytes echoed so far are exactly the
    /// bytes of the frame before the current one.
    pub open spec fn wf(&self) -> bool {
        &&& self.index < 9
        &&& self.phase != TransferPhase::Over ==> self.echoed@ == self.data@.take(self.index as int)
    }

    /// Whether the transfer is waiting for `event`.
    pub open spec fn accepts(&self, event: BusEvent) -> bool {
        transfer_accepts(self.phase, event)
    }

    /// Whether the transfer is waiting for `event`.
    pub fn expects(&self, event: &BusEvent) -> (b: bool)
        ensures
            b == self.accepts(*event),
    {
        let (start, done, byte, level, failed) = match event {
            BusEvent::Start => (true, false, false, false, false),
            BusEvent::Done => (false, true, false, false, false),
            BusEvent::Byte(_) => (false, false, true, false, false),
            BusEvent::Level(_) => (false, false, false, true, false),
            BusEvent::Failed(_) => (false, false, false, false, true),
        };
        match self.phase {
            TransferPhase::Begin => start,
            TransferPhase::Addressing | TransferPhase::Writing => done || failed,
            TransferPhase::WaitingIrq => level || failed,
            TransferPhase::Acknowledging | TransferPhase::ReadingEcho => byte || failed,
            TransferPhase::Over => false,
        }
    }

    /// Whether the transfer is over.
    pub fn is_over(&self) -> (b: bool)
        ensures
            b == (self.phase == TransferPhase::Over),
    {
        match self.phase {
            TransferPhase::Over => true,
            _ => false,
        }
    }

    /// Takes the outcome of the last action and gives the next one.
    pub fn step(&mut self, event: BusEvent) -> (a: BusAction)
        requires
            old(self).wf(),
            old(self).accepts(event),
        ensures
            (*final(self), a) == transfer_step(*old(self), event),
            final(self).wf(),
    {
        match event {
            BusEvent::Failed(e) => {
                self.phase = TransferPhase::Over;
                BusAction::Finish(Err(e))
            },
            BusEvent::Level(v) => {
                if v == 1 {
                    BusAction::ReadPin(self.irq_pin)
                } else {
                    self.phase = TransferPhase::Acknowledging;
                    BusAction::ReadRegister(0x02)
                }
            },
            BusEvent::Byte(g) => match self.phase {
                TransferPhase::Acknowledging => {
                    self.phase = TransferPhase::ReadingEcho;
                    BusAction::ReadRegister(0x00)
                },
                _ => {
                    let n: u8 = self.data[self.index];
                    if g != n {
                        self.phase = TransferPhase::Over;
                        BusAction::Finish(Err(HardwareError::BadI2cResponse(self.driver_type, g, n)))
                    } else if self.index + 1 == 9 {
                        self.phase = TransferPhase::Over;
                        self.echoed = Ghost(self.echoed@.push(g));
                        BusAction::Finish(Ok(()))
                    } else {
                        self.phase = TransferPhase::Writing;
                        self.echoed = Ghost(self.echoed@.push(g));
                        self.index = self.index + 1;
                        assert(self.echoed@ =~= self.data@.take(self.index as int));
                        BusAction::WriteRegister(0x00, self.data[self.index])
                    }
                },
            },
            _ => match self.phase {
                TransferPhase::Begin => {
                    self.phase = TransferPhase::Addressing;
                    BusAction::SetSlave(self.address as u16)
                },
                TransferPhase::Addressing => {
                    self.phase = TransferPhase::Writing;
                    BusAction::WriteRegister(0x00, self.data[self.index])
                },
                _ => {
                    self.phase = TransferPhase::WaitingIrq;
                    BusAction::ReadPin(self.irq_pin)
                },
            },
        }
    }
}

/// A transfer reports success only once the driver echoed back, unchanged,
/// every byte of the frame.
pub proof fn lemma_transfer_success_means_echoed(s: I2cTransfer, event: BusEvent)
    requires
        s.wf(),
        s.accepts(event),
        transfer_step(s, event).1 == BusAction::Finish(Ok(())),
    ensures
        transfer_step(s, event).0.echoed@ == s.data@,
{
    let g: u8 = event->Byte_0;
    assert(s.index == 8);
    assert(s.echoed@.push(g) =~= s.data@);
}

/// A transfer that reads back a byte other than the one it sent stops with
/// `BadI2cResponse`, naming the byte read and the byte sent.
pub proof fn lemma_transfer_bad_echo(s: I2cTransfer, g: u8)
    requires
        s.wf(),
        s.phase == TransferPhase::ReadingEcho,
        g != s.data@[s.index as int],
    ensures
        transfer_step(s, BusEvent::Byte(g)).1 == BusAction::Finish(
            Err(HardwareError::BadI2cResponse(s.driver_type, g, s.data@[s.index as int])),
        ),
        transfer_step(s, BusEvent::Byte(g)).0.phase == TransferPhase::Over,
{
}

/// The frame carries the low 24 bits of the step count.
pub proof fn lemma_frame_carries_steps(steps: usize)
    ensures
        frame_of(steps)[4] as int * 65536 + frame_of(steps)[5] as int * 256 + frame_of(steps)[6] as int
            == steps as int % 16777216,
{
    let b4: u8 = (steps >> 16usize) as u8;
    let b5: u8 = (steps >> 8usize) as u8;
    let b6: u8 = (steps & 0xffusize) as u8;
    assert(b4 as usize * 65536 + b5 as usize * 256 + b6 as usize == steps % 16777216) by (bit_vector)
        requires
            b4 == (steps >> 16usize) as u8,
            b5 == (steps >> 8usize) as u8,
            b6 == (steps & 0xffusize) as u8,
    ;
}

/// The MAX3109 bridges of the drivers. The bus itself is held by the caller.
#[derive(Clone, Copy, Debug)]
pub struct DriversCnRs232;

impl DriversCnRs232 {
    /// The interrupt lines of the bridges, which the caller exports and sets
    /// as inputs, in this order.
    pub fn interrupt_lines() -> (v: Vec<u64>)
        ensures
            v@ == seq![100u64, 101u64, 102u64, 103u64],
    {
        let v = vec![100u64, 101u64, 102u64, 103u64];
        assert(v@ =~= seq![100u64, 101u64, 102u64, 103u64]);
        v
    }

    /// I2C address of the bridge of `i2c_type`.
    pub fn get_i2c_addr_value(i2c_type: DriverType) -> (a: u8)
        ensures
            a == bridge_address(i2c_type),
    {
        match i2c_type {
            DriverType::EX => 0x6C,
            DriverType::EY => 0x61,
            DriverType::EZ => 0x64,
            DriverType::ETHETA => 0x65,
            DriverType::RX => 0x5C,
            DriverType::RY => 0x51,
            DriverType::RZ => 0x54,
            DriverType::RTHETA => 0x55,
            _ => 0x00,
        }
    }

    /// Interrupt line of the bridge of `i2c_type`.
    pub fn get_iqr_pin(i2c_type: DriverType) -> (p: u64)
        ensures
            p == interrupt_line(i2c_type),
    {
        match i2c_type {
            DriverType::RX | DriverType::EX => 100,
            DriverType::EY | DriverType::RY => 101,
            DriverType::EZ | DriverType::RZ => 102,
            DriverType::ETHETA | DriverType::RTHETA => 103,
            _ => 0,
        }
    }

    fn push_setup(ops: &mut Vec<I2cOp>, dt: DriverType)
        ensures
            final(ops)@ == old(ops)@ + bridge_setup(dt),
    {
        ops.push(I2cOp::SetSlave(Self::get_i2c_addr_value(dt) as u16, dt));
        ops.push(I2cOp::Write(0x01, 0x40, dt));
        ops.push(I2cOp::Write(0x0A, 0x08, dt));
        ops.push(I2cOp::Write(0x0B, 0x03, dt));
        ops.push(I2cOp::Write(0x0C, 0x01, dt));
        assert(ops@ =~= old(ops)@ + bridge_setup(dt));
    }

    /// The bus operations that configure the bridges, in order.
    pub fn configuration() -> (ops: Vec<I2cOp>)
        ensures
            ops@ == configuration_ops(),
    {
        let mut ops: Vec<I2cOp> = Vec::new();
        Self::push_setup(&mut ops, DriverType::EX);
        Self::push_setup(&mut ops, DriverType::EY);
        Self::push_setup(&mut ops, DriverType::RX);
        Self::push_setup(&mut ops, DriverType::RY);
        assert(ops@ =~= configuration_ops());
        ops
    }

    /// The exchange that sends `data` to the bridge of `type_cn`.
    pub fn write_i2c(data: [u8; 9], type_cn: DriverType) -> (t: I2cTransfer)
        ensures
            t.phase == TransferPhase::Begin,
            t.data == data,
            t.index == 0,
            t.driver_type == type_cn,
            t.address == bridge_address(type_cn),
            t.irq_pin == interrupt_line(type_cn),
            t.echoed@ == Seq::<u8>::empty(),
            t.wf(),
    {
        let t = I2cTransfer {
            phase: TransferPhase::Begin,
            data,
            index: 0,
            driver_type: type_cn,
            address: Self::get_i2c_addr_value(type_cn),
            irq_pin: Self::get_iqr_pin(type_cn),
            echoed: Ghost(Seq::empty()),
        };
        assert(t.data@.take(0) =~= Seq::<u8>::empty());
        t
    }

    /// The frame that carries a target of `steps` motor steps.
    pub fn steps_to_bytes(steps: usize) -> (bytes: [u8; 9])
        ensures
            bytes@ == frame_of(steps),
    {
        [
            0x08,
            0x51,
            0x00,
            0x01,
            (steps >> 16) as u8,
            (steps >> 8) as u8,
            (steps & 0xff) as u8,
            0x87,
            0xff,
        ]
    }
}

} // verus!
