//! The GPIO lines of one motor driver: which lines it uses, and the exchanges
//! that move it, reset it and set its zero. The exchanges are state machines:
//! the caller performs each requested pin action and hands back what came of
//! it.
use crate::definitions::DriverType;
use crate::error::HardwareError;
use vstd::prelude::*;

verus! {

/// Direction given to a GPIO line: input, or output starting high or low
/// (`Out` is an output whose level is left as it is).
#[derive(Clone, Copy, Debug, PartialEq, Eq, Structural)]
pub enum PinDirection {
    In,
    Out,
    High,
    Low,
}

/// What came of the last pin action.
#[derive(Debug)]
pub enum PinEvent {
    /// Nothing was asked yet.
    Start,
    /// The line read at this level.
    Level(u8),
    /// The write or the wait is over.
    Done,
    /// The action failed.
    Failed(HardwareError),
}

/// What the caller has to do next.
#[derive(Debug)]
pub enum PinAction {
    /// Read the level of this GPIO line.
    Read(u64),
    /// Drive this GPIO line to this level.
    Write(u64, u8),
    /// Wait this many milliseconds.
    SleepMs(u64),
    /// The exchange is over, with this outcome.
    Finish(Result<(), HardwareError>),
}

/// GPIO line of the order "go" of a driver (0 for a group of drivers).
pub open spec fn go_line(dt: DriverType) -> u64 {
    if dt.is_axis() {
        (44 + dt.axis_rank()) as u64
    } else {
        0
    }
}

/// GPIO line of the order "reset" of a driver (0 for a group of drivers).
pub open spec fn reset_line(dt: DriverType) -> u64 {
    if dt.is_axis() {
        (32 + dt.axis_rank()) as u64
    } else {
        0
    }
}

/// GPIO line of the order "zero" of a driver (0 for a group of drivers).
pub open spec fn zero_line(dt: DriverType) -> u64 {
    if dt.is_axis() {
        (73 + dt.axis_rank()) as u64
    } else {
        0
    }
}

/// GPIO line of the "end of movement" signal of a driver (0 for a group of
/// drivers).
pub open spec fn fin_mvt_line(dt: DriverType) -> u64 {
    if dt.is_axis() {
        (65 + dt.axis_rank()) as u64
    } else {
        0
    }
}

/// Outcome of the movement check of a driver from the reads of its "go" line
/// and of its "end of movement" line (the second read is made only when the
/// first succeeded): the movement is unfinished while "go" is high or "end of
/// movement" is low.
pub open spec fn movement_outcome(
    dt: DriverType,
    go: Result<u8, HardwareError>,
    fin_mvt: Result<u8, HardwareError>,
) -> Result<(), HardwareError> {
    match go {
        Err(e) => Err(e),
        Ok(g) => match fin_mvt {
            Err(e) => Err(e),
            Ok(f) => if g == 1 || f == 0 {
                Err(HardwareError::MovmentNotFinished(dt))
            } else {
                Ok(())
            },
        },
    }
}

/// The GPIO lines of one driver.
#[derive(Clone, Copy, Debug)]
pub struct DriverCnPin {
    pub pin_go: u64,
    pub pin_reset: u64,
    pub pin_zero: u64,
    pub pin_fin_mvt: u64,
    pub driver_type: DriverType,
}

impl DriverCnPin {
    /// The lines `DriverCnPin::default` gives: all 0, for the X driver of
    /// the emitter arm.
    pub open spec fn spec_default() -> DriverCnPin {
        DriverCnPin { pin_go: 0, pin_reset: 0, pin_zero: 0, pin_fin_mvt: 0, driver_type: DriverType::EX }
    }
}

impl Default for DriverCnPin {
    fn default() -> (d: Self)
        ensures
            d == DriverCnPin::spec_default(),
    {
        DriverCnPin { pin_go: 0, pin_reset: 0, pin_zero: 0, pin_fin_mvt: 0, driver_type: DriverType::EX }
    }
}

impl DriverCnPin {
    /// The lines wired to the driver `driver_type` (all 0 for a group of
    /// drivers). Exporting them and setting their directions is the
    /// caller's part (see `set_export` and `set_direction`).
    pub fn new(driver_type: DriverType) -> (d: Self)
        ensures
            d == (DriverCnPin {
                pin_go: go_line(driver_type),
                pin_reset: reset_line(driver_type),
                pin_zero: zero_line(driver_type),
                pin_fin_mvt: fin_mvt_line(driver_type),
                driver_type,
            }),
    {
        let (pin_go, pin_reset, pin_zero, pin_fin_mvt): (u64, u64, u64, u64) = match driver_type {
            DriverType::EX => (44, 32, 73, 65),
            DriverType::EY => (45, 33, 74, 66),
            DriverType::EZ => (46, 34, 75, 67),
            DriverType::ETHETA => (47, 35, 76, 68),
            DriverType::RX => (48, 36, 77, 69),
            DriverType::RY => (49, 37, 78, 70),
            DriverType::RZ => (50, 38, 79, 71),
            DriverType::RTHETA => (51, 39, 80, 72),
            _ => (0, 0, 0, 0),
        };
        DriverCnPin { pin_go, pin_reset, pin_zero, pin_fin_mvt, driver_type }
    }

    /// The lines to set, in order, with their direction: the three order
    /// lines as outputs, then the "end of movement" line as input.
    pub fn set_direction(&self) -> (v: Vec<(u64, PinDirection)>)
        ensures
            v@ == seq![
                (self.pin_go, PinDirection::Out),
                (self.pin_reset, PinDirection::Out),
                (self.pin_zero, PinDirection::Out),
                (self.pin_fin_mvt, PinDirection::In),
            ],
    {
        let v = vec![
            (self.pin_go, PinDirection::Out),
            (self.pin_reset, PinDirection::Out),
            (self.pin_zero, PinDirection::Out),
            (self.pin_fin_mvt, PinDirection::In),
        ];
        assert(v@ =~= seq![
            (self.pin_go, PinDirection::Out),
            (self.pin_reset, PinDirection::Out),
            (self.pin_zero, PinDirection::Out),
            (self.pin_fin_mvt, PinDirection::In),
        ]);
        v
    }

    /// The lines to export, in order.
    pub fn set_export(&self) -> (v: Vec<u64>)
        ensures
            v@ == seq![self.pin_go, self.pin_reset, self.pin_zero, self.pin_fin_mvt],
    {
        let v = vec![self.pin_go, self.pin_reset, self.pin_zero, self.pin_fin_mvt];
        assert(v@ =~= seq![self.pin_go, self.pin_reset, self.pin_zero, self.pin_fin_mvt]);
        v
    }

    pub fn get_driver_type(&self) -> (dt: DriverType)
        ensures
            dt == self.driver_type,
    {
        self.driver_type
    }

    /// Whether the last movement of the driver is over, from the reads of its
    /// "go" line and of its "end of movement" line.
    pub fn movement_finished(
        &self,
        go: Result<u8, HardwareError>,
        fin_mvt: Result<u8, HardwareError>,
    ) -> (r: Result<(), HardwareError>)
        ensures
            r == movement_outcome(self.driver_type, go, fin_mvt),
    {
        match go {
            Err(e) => Err(e),
            Ok(g) => match fin_mvt {
                Err(e) => Err(e),
                Ok(f) => if g == 1 || f == 0 {
                    Err(HardwareError::MovmentNotFinished(self.get_driver_type()))
                } else {
                    Ok(())
                },
            },
        }
    }

    /// The exchange that starts a movement of the driver and waits for its
    /// end.
    pub fn go(&self) -> (s: GoSequence)
        ensures
            s == (GoSequence {
                phase: GoPhase::Begin,
                go_level: 0,
                pin_go: self.pin_go,
                pin_fin_mvt: self.pin_fin_mvt,
                driver_type: self.driver_type,
            }),
    {
        GoSequence {
            phase: GoPhase::Begin,
            go_level: 0,
            pin_go: self.pin_go,
            pin_fin_mvt: self.pin_fin_mvt,
            driver_type: self.driver_type,
        }
    }

    /// The exchange that resets the driver: a one millisecond pulse on its
    /// "reset" line.
    pub fn reset(&self) -> (s: PulseSequence)
        ensures
            s == (PulseSequence { phase: PulsePhase::Begin, pin: self.pin_reset }),
    {
        PulseSequence { phase: PulsePhase::Begin, pin: self.pin_reset }
    }

    /// The exchange that sets the zero of the driver: a one millisecond pulse
    /// on its "zero" line.
    pub fn zero(&self) -> (s: PulseSequence)
        ensures
            s == (PulseSequence { phase: PulsePhase::Begin, pin: self.pin_zero }),
    {
        PulseSequence { phase: PulsePhase::Begin, pin: self.pin_zero }
    }
}

/// Where a movement exchange stands.
#[derive(Clone, Copy, Debug, PartialEq, Eq, Structural)]
pub enum GoPhase {
    /// Nothing done yet.
    Begin,
    /// Waiting for the level of the "go" line.
    ReadingGo,
    /// Waiting for the level of the "end of movement" line.
    ReadingFinMvt,
    /// Waiting for "go" to be driven high.
    Raising,
    /// Waiting for the settling delay.
    Settling,
    /// Waiting for the level of "end of movement" while the driver moves.
    Polling,
    /// Waiting for "go" to be driven low.
    Lowering,
    /// The exchange is over.
    Over,
}

/// The exchange that moves one driver: check that its last movement is over,
/// raise "go", wait 10 ms, wait while "end of movement" is high, then lower
/// "go".
#[derive(Clone, Copy, Debug)]
pub struct GoSequence {
    pub phase: GoPhase,
    /// Level read on "go" at the start of the exchange.
    pub go_level: u8,
    pub pin_go: u64,
    pub pin_fin_mvt: u64,
    pub driver_type: DriverType,
}

/// The events a phase of a movement exchange can receive: the outcome of
/// the action it asked for.
pub open spec fn go_accepts(phase: GoPhase, event: PinEvent) -> bool {
    match phase {
        GoPhase::Begin => event is Start,
        GoPhase::ReadingGo | GoPhase::ReadingFinMvt | GoPhase::Polling => event is Level
            || event is Failed,
        GoPhase::Raising | GoPhase::Settling | GoPhase::Lowering => event is Done
            || event is Failed,
        GoPhase::Over => false,
    }
}

/// One step of a movement exchange: the next state and the next action.
pub open spec fn go_step(s: GoSequence, event: PinEvent) -> (GoSequence, PinAction) {
    match event {
        PinEvent::Failed(e) => (GoSequence { phase: GoPhase::Over, ..s }, PinAction::Finish(Err(e))),
        _ => match s.phase {
            GoPhase::Begin => (GoSequence { phase: GoPhase::ReadingGo, ..s }, PinAction::Read(s.pin_go)),
            GoPhase::ReadingGo => (
                GoSequence { phase: GoPhase::ReadingFinMvt, go_level: event->Level_0, ..s },
                PinAction::Read(s.pin_fin_mvt),
            ),
            GoPhase::ReadingFinMvt => if s.go_level == 1 || event->Level_0 == 0 {
                (
                    GoSequence { phase: GoPhase::Over, ..s },
                    PinAction::Finish(Err(HardwareError::MovmentNotFinished(s.driver_type))),
                )
            } else {
                (GoSequence { phase: GoPhase::Raising, ..s }, PinAction::Write(s.pin_go, 1))
            },
            GoPhase::Raising => (GoSequence { phase: GoPhase::Settling, ..s }, PinAction::SleepMs(10)),
            GoPhase::Settling => (GoSequence { phase: GoPhase::Polling, ..s }, PinAction::Read(s.pin_fin_mvt)),
            GoPhase::Polling => if event->Level_0 == 1 {
                (s, PinAction::Read(s.pin_fin_mvt))
            } else {
                (GoSequence { phase: GoPhase::Lowering, ..s }, PinAction::Write(s.pin_go, 0))
            },
            GoPhase::Lowering => (GoSequence { phase: GoPhase::Over, ..s }, PinAction::Finish(Ok(()))),
            GoPhase::Over => (s, PinAction::Finish(Ok(()))),
        },
    }
}

impl GoSequence {
    /// Whether the exchange is waiting for `event`.
    pub open spec fn accepts(&self, event: PinEvent) -> bool {
        go_accepts(self.phase, event)
    }

    /// Whether the exchange is waiting for `event`.
    pub fn expects(&self, event: &PinEvent) -> (b: bool)
        ensures
            b == self.accepts(*event),
    {
        let (start, level, done, failed) = match event {
            PinEvent::Start => (true, false, false, false),
            PinEvent::Level(_) => (false, true, false, false),
            PinEvent::Done => (false, false, true, false),
            PinEvent::Failed(_) => (false, false, false, true),
        };
        match self.phase {
            GoPhase::Begin => start,
            GoPhase::ReadingGo | GoPhase::ReadingFinMvt | GoPhase::Polling => level || failed,
            GoPhase::Raising | GoPhase::Settling | GoPhase::Lowering => done || failed,
            GoPhase::Over => false,
        }
    }

    /// Whether the exchange is over.
    pub fn is_over(&self) -> (b: bool)
        ensures
            b == (self.phase == GoPhase::Over),
    {
        match self.phase {
            GoPhase::Over => true,
            _ => false,
        }
    }

    /// Takes the outcome of the last action and gives the next one.
    pub fn step(&mut self, event: PinEvent) -> (a: PinAction)
        requires
            old(self).accepts(event),
        ensures
            (*final(self), a) == go_step(*old(self), event),
    {
        match event {
            PinEvent::Failed(e) => {
                self.phase = GoPhase::Over;
                PinAction::Finish(Err(e))
            },
            PinEvent::Level(v) => match self.phase {
                GoPhase::ReadingGo => {
                    self.phase = GoPhase::ReadingFinMvt;
                    self.go_level = v;
                    PinAction::Read(self.pin_fin_mvt)
                },
                GoPhase::ReadingFinMvt => {
                    if self.go_level == 1 || v == 0 {
                        self.phase = GoPhase::Over;
                        PinAction::Finish(Err(HardwareError::MovmentNotFinished(self.driver_type)))
                    } else {
                        self.phase = GoPhase::Raising;
                        PinAction::Write(self.pin_go, 1)
                    }
                },
                _ => {
                    if v == 1 {
                        PinAction::Read(self.pin_fin_mvt)
                    } else {
                        self.phase = GoPhase::Lowering;
                        PinAction::Write(self.pin_go, 0)
                    }
                },
            },
            _ => match self.phase {
                GoPhase::Begin => {
                    self.phase = GoPhase::ReadingGo;
                    PinAction::Read(self.pin_go)
                },
                GoPhase::Raising => {
                    self.phase = GoPhase::Settling;
                    PinAction::SleepMs(10)
                },
                GoPhase::Settling => {
                    self.phase = GoPhase::Polling;
                    PinAction::Read(self.pin_fin_mvt)
                },
                _ => {
                    self.phase = GoPhase::Over;
                    PinAction::Finish(Ok(()))
                },
            },
        }
    }
}

/// A movement exchange drives "go" high only once the driver showed its last
/// movement over: "go" read low (not 1) and "end of movement" read high (not
/// 0).
pub proof fn lemma_go_raised_only_when_idle(s: GoSequence, event: PinEvent)
    requires
        s.accepts(event),
        go_step(s, event).1 == PinAction::Write(s.pin_go, 1),
    ensures
        s.phase == GoPhase::ReadingFinMvt,
        s.go_level != 1,
        event is Level && event->Level_0 != 0,
{
}

/// A movement exchange reports success only right after it drove "go" low.
pub proof fn lemma_go_succeeds_after_lowering(s: GoSequence, event: PinEvent)
    requires
        s.accepts(event),
        go_step(s, event).1 == PinAction::Finish(Ok(())),
    ensures
        s.phase == GoPhase::Lowering,
        event is Done,
{
}

/// Where a pulse exchange stands.
#[derive(Clone, Copy, Debug, PartialEq, Eq, Structural)]
pub enum PulsePhase {
    Begin,
    /// Waiting for the line to be driven high.
    Raising,
    /// Waiting for the pulse delay.
    Holding,
    /// Waiting for the line to be driven low.
    Lowering,
    Over,
}

/// A one millisecond pulse on one line: drive it high, wait, drive it low.
#[derive(Clone, Copy, Debug)]
pub struct PulseSequence {
    pub phase: PulsePhase,
    pub pin: u64,
}

/// The events a phase of a pulse exchange can receive.
pub open spec fn pulse_accepts(phase: PulsePhase, event: PinEvent) -> bool {
    match phase {
        PulsePhase::Begin => event is Start,
        PulsePhase::Raising | PulsePhase::Holding | PulsePhase::Lowering => event is Done
            || event is Failed,
        PulsePhase::Over => false,
    }
}

/// One step of a pulse exchange.
pub open spec fn pulse_step(s: PulseSequence, event: PinEvent) -> (PulseSequence, PinAction) {
    match event {
        PinEvent::Failed(e) => (PulseSequence { phase: PulsePhase::Over, ..s }, PinAction::Finish(Err(e))),
        _ => match s.phase {
            PulsePhase::Begin => (PulseSequence { phase: PulsePhase::Raising, ..s }, PinAction::Write(s.pin, 1)),
            PulsePhase::Raising => (PulseSequence { phase: PulsePhase::Holding, ..s }, PinAction::SleepMs(1)),
            PulsePhase::Holding => (PulseSequence { phase: PulsePhase::Lowering, ..s }, PinAction::Write(s.pin, 0)),
            _ => (PulseSequence { phase: PulsePhase::Over, ..s }, PinAction::Finish(Ok(()))),
        },
    }
}

impl PulseSequence {
    /// Whether the exchange is waiting for `event`.
    pub open spec fn accepts(&self, event: PinEvent) -> bool {
        pulse_accepts(self.phase, event)
    }

    /// Whether the exchange is waiting for `event`.
    pub fn expects(&self, event: &PinEvent) -> (b: bool)
        ensures
            b == self.accepts(*event),
    {
        let (start, done, failed) = match event {
            PinEvent::Start => (true, false, false),
            PinEvent::Level(_) => (false, false, false),
            PinEvent::Done => (false, true, false),
            PinEvent::Failed(_) => (false, false, true),
        };
        match self.phase {
            PulsePhase::Begin => start,
            PulsePhase::Raising | PulsePhase::Holding | PulsePhase::Lowering => done || failed,
            PulsePhase::Over => false,
        }
    }

    /// Whether the exchange is over.
    pub fn is_over(&self) -> (b: bool)
        ensures
            b == (self.phase == PulsePhase::Over),
    {
        match self.phase {
            PulsePhase::Over => true,
            _ => false,
        }
    }

    /// Takes the outcome of the last action and gives the next one.
    pub fn step(&mut self, event: PinEvent) -> (a: PinAction)
        requires
            old(self).accepts(event),
        ensures
            (*final(self), a) == pulse_step(*old(self), event),
    {
        match event {
            PinEvent::Failed(e) => {
                self.phase = PulsePhase::Over;
                PinAction::Finish(Err(e))
            },
            _ => match self.phase {
                PulsePhase::Begin => {
                    self.phase = PulsePhase::Raising;
                    PinAction::Write(self.pin, 1)
                },
                PulsePhase::Raising => {
                    self.phase = PulsePhase::Holding;
                    PinAction::SleepMs(1)
                },
                PulsePhase::Holding => {
                    self.phase = PulsePhase::Lowering;
                    PinAction::Write(self.pin, 0)
                },
                _ => {
                    self.phase = PulsePhase::Over;
                    PinAction::Finish(Ok(()))
                },
            },
        }
    }
}

} // verus!
