//! A driver wired directly to the BeagleBone GPIO header, one per axis and
//! arm: its lines, and the exchange that starts a movement and waits for its
//! end. Its lines are not assigned yet (all read 0).
use crate::driver_cn_pin::{PinAction, PinDirection, PinEvent};
use crate::error::HardwareError;
use vstd::prelude::*;

verus! {

/// The axis a BeagleBone driver moves.
#[derive(Clone, Copy, Debug, PartialEq, Eq, Structural)]
pub enum DriverType {
    X,
    Y,
    Z,
    THETA,
}

/// The lines of a BeagleBone driver.
#[derive(Clone, Copy, Debug)]
pub struct DriverCN {
    pub pin_go: u8,
    pub pin_reset: u8,
    pub pin_ordre_arr_urg: u8,
    pub pin_ar_mom: u8,
    pub pin_zero: u8,
    pub pin_fin_mvt: u8,
    pub pin_info_arr_urg: u8,
    pub driver_type: DriverType,
}

/// The lines of a driver with its type, as `DriverCN::new` gives them:
/// every line is 0 whatever the arm and the axis.
pub open spec fn unassigned(driver_type: DriverType) -> DriverCN {
    DriverCN {
        pin_go: 0,
        pin_reset: 0,
        pin_ordre_arr_urg: 0,
        pin_ar_mom: 0,
        pin_zero: 0,
        pin_fin_mvt: 0,
        pin_info_arr_urg: 0,
        driver_type,
    }
}

impl Default for DriverCN {
    fn default() -> (d: Self)
        ensures
            d == unassigned(DriverType::X),
    {
        DriverCN {
            pin_go: 0,
            pin_reset: 0,
            pin_ordre_arr_urg: 0,
            pin_ar_mom: 0,
            pin_zero: 0,
            pin_fin_mvt: 0,
            pin_info_arr_urg: 0,
            driver_type: DriverType::X,
        }
    }
}

impl DriverCN {
    /// The lines of the driver of axis `driver_type` on the emitter arm
    /// (`is_emitter`) or the receiver arm. Setting their directions, then
    /// exporting them, is the caller's part (see `set_direction` and
    /// `set_export`).
    pub fn new(is_emitter: bool, driver_type: DriverType) -> (d: Self)
        ensures
            d == unassigned(driver_type),
    {
        let mut driver = DriverCN::default();
        driver.driver_type = driver_type;
        let (pin_go, pin_reset, pin_ordre_arr_urg, pin_ar_mom, pin_zero, pin_fin_mvt, pin_info_arr_urg): (
            u8,
            u8,
            u8,
            u8,
            u8,
            u8,
            u8,
        ) = if is_emitter {
            match driver_type {
                DriverType::X => (0, 0, 0, 0, 0, 0, 0),
                DriverType::Y => (0, 0, 0, 0, 0, 0, 0),
                DriverType::Z => (0, 0, 0, 0, 0, 0, 0),
                DriverType::THETA => (0, 0, 0, 0, 0, 0, 0),
            }
        } else {
            match driver_type {
                DriverType::X => (0, 0, 0, 0, 0, 0, 0),
                DriverType::Y => (0, 0, 0, 0, 0, 0, 0),
                DriverType::Z => (0, 0, 0, 0, 0, 0, 0),
                DriverType::THETA => (0, 0, 0, 0, 0, 0, 0),
            }
        };
        driver.pin_go = pin_go;
        driver.pin_reset = pin_reset;
        driver.pin_ordre_arr_urg = pin_ordre_arr_urg;
        driver.pin_ar_mom = pin_ar_mom;
        driver.pin_zero = pin_zero;
        driver.pin_fin_mvt = pin_fin_mvt;
        driver.pin_info_arr_urg = pin_info_arr_urg;
        driver
    }

    /// The lines to set, in order, with their direction: the five order
    /// lines as outputs, then the two signal lines as inputs.
    pub fn set_direction(&self) -> (v: Vec<(u8, PinDirection)>)
        ensures
            v@ == seq![
                (self.pin_go, PinDirection::Out),
                (self.pin_reset, PinDirection::Out),
                (self.pin_ordre_arr_urg, PinDirection::Out),
                (self.pin_ar_mom, PinDirection::Out),
                (self.pin_zero, PinDirection::Out),
                (self.pin_fin_mvt, PinDirection::In),
                (self.pin_info_arr_urg, PinDirection::In),
            ],
    {
        let v = vec![
            (self.pin_go, PinDirection::Out),
            (self.pin_reset, PinDirection::Out),
            (self.pin_ordre_arr_urg, PinDirection::Out),
            (self.pin_ar_mom, PinDirection::Out),
            (self.pin_zero, PinDirection::Out),
            (self.pin_fin_mvt, PinDirection::In),
            (self.pin_info_arr_urg, PinDirection::In),
        ];
        assert(v@ =~= seq![
            (self.pin_go, PinDirection::Out),
            (self.pin_reset, PinDirection::Out),
            (self.pin_ordre_arr_urg, PinDirection::Out),
            (self.pin_ar_mom, PinDirection::Out),
            (self.pin_zero, PinDirection::Out),
            (self.pin_fin_mvt, PinDirection::In),
            (self.pin_info_arr_urg, PinDirection::In),
        ]);
        v
    }

    /// The lines to export, in order.
    pub fn set_export(&self) -> (v: Vec<u8>)
        ensures
            v@ == seq![
                self.pin_go,
                self.pin_reset,
                self.pin_ordre_arr_urg,
                self.pin_ar_mom,
                self.pin_zero,
                self.pin_fin_mvt,
                self.pin_info_arr_urg,
            ],
    {
        let v = vec![
            self.pin_go,
            self.pin_reset,
            self.pin_ordre_arr_urg,
            self.pin_ar_mom,
            self.pin_zero,
            self.pin_fin_mvt,
            self.pin_info_arr_urg,
        ];
        assert(v@ =~= seq![
            self.pin_go,
            self.pin_reset,
            self.pin_ordre_arr_urg,
            self.pin_ar_mom,
            self.pin_zero,
            self.pin_fin_mvt,
            self.pin_info_arr_urg,
        ]);
        v
    }

    /// The exchange that starts a movement of the driver and waits for its
    /// end.
    pub fn go(&self) -> (s: HeaderGo)
        ensures
            s == (HeaderGo {
                phase: HeaderGoPhase::Begin,
                pin_go: self.pin_go,
                pin_fin_mvt: self.pin_fin_mvt,
            }),
    {
        HeaderGo {
            phase: HeaderGoPhase::Begin,
            pin_go: self.pin_go,
            pin_fin_mvt: self.pin_fin_mvt,
        }
    }
}

/// Where a movement exchange of a BeagleBone driver stands.
#[derive(Clone, Copy, Debug, PartialEq, Eq, Structural)]
pub enum HeaderGoPhase {
    Begin,
    ReadingGo,
    ReadingFinMvt,
    Raising,
    Polling,
    Lowering,
    Over,
}

/// The exchange that moves a BeagleBone driver: read "go" and refuse at once
/// if it is high; else read "end of movement" and refuse if it is low; else
/// raise "go", wait while "end of movement" is high, lower "go". A refusal
/// finishes with the message "Mouvement non fini".
#[derive(Clone, Copy, Debug)]
pub struct HeaderGo {
    pub phase: HeaderGoPhase,
    pub pin_go: u8,
    pub pin_fin_mvt: u8,
}

/// The events a phase of the exchange can receive.
pub open spec fn header_go_accepts(phase: HeaderGoPhase, event: PinEvent) -> bool {
    match phase {
        HeaderGoPhase::Begin => event is Start,
        HeaderGoPhase::ReadingGo | HeaderGoPhase::ReadingFinMvt | HeaderGoPhase::Polling => event is Level
            || event is Failed,
        HeaderGoPhase::Raising | HeaderGoPhase::Lowering => event is Done || event is Failed,
        HeaderGoPhase::Over => false,
    }
}

/// Whether an action refuses the movement as unfinished.
pub open spec fn is_refusal(a: PinAction) -> bool {
    match a {
        PinAction::Finish(Err(HardwareError::UnknownError(m))) => m@ == "Mouvement non fini"@,
        _ => false,
    }
}

/// One step of the exchange: the next state, and the next action or a
/// refusal.
pub open spec fn header_go_step(s: HeaderGo, event: PinEvent, a: PinAction) -> (HeaderGo, bool) {
    match event {
        PinEvent::Failed(e) => (HeaderGo { phase: HeaderGoPhase::Over, ..s }, a == PinAction::Finish(Err(e))),
        _ => match s.phase {
            HeaderGoPhase::Begin => (
                HeaderGo { phase: HeaderGoPhase::ReadingGo, ..s },
                a == PinAction::Read(s.pin_go as u64),
            ),
            HeaderGoPhase::ReadingGo => if event->Level_0 == 1 {
                (HeaderGo { phase: HeaderGoPhase::Over, ..s }, is_refusal(a))
            } else {
                (HeaderGo { phase: HeaderGoPhase::ReadingFinMvt, ..s }, a == PinAction::Read(s.pin_fin_mvt as u64))
            },
            HeaderGoPhase::ReadingFinMvt => if event->Level_0 == 0 {
                (HeaderGo { phase: HeaderGoPhase::Over, ..s }, is_refusal(a))
            } else {
                (HeaderGo { phase: HeaderGoPhase::Raising, ..s }, a == PinAction::Write(s.pin_go as u64, 1))
            },
            HeaderGoPhase::Raising => (
                HeaderGo { phase: HeaderGoPhase::Polling, ..s },
                a == PinAction::Read(s.pin_fin_mvt as u64),
            ),
            HeaderGoPhase::Polling => if event->Level_0 == 1 {
                (s, a == PinAction::Read(s.pin_fin_mvt as u64))
            } else {
                (HeaderGo { phase: HeaderGoPhase::Lowering, ..s }, a == PinAction::Write(s.pin_go as u64, 0))
            },
            _ => (HeaderGo { phase: HeaderGoPhase::Over, ..s }, a == PinAction::Finish(Ok(()))),
        },
    }
}

impl HeaderGo {
    /// Whether the exchange is waiting for `event`.
    pub open spec fn accepts(&self, event: PinEvent) -> bool {
        header_go_accepts(self.phase, event)
    }

    /// Whether the exchange is waiting for `event`.
    pub fn expects(&self, event: &PinEvent) -> (b: bool)
        ensures
            b == self.accepts(*event),
    {
        let (start, level, done, failed) = match event {
            PinEvent::Start => (true, false, false, false),
            PinEvent::Level(_) => (false, true, false, false),
            PinEvent::Done => (false, false, true, false),
            PinEvent::Failed(_) => (false, false, false, true),
        };
        match self.phase {
            HeaderGoPhase::Begin => start,
            HeaderGoPhase::ReadingGo | HeaderGoPhase::ReadingFinMvt | HeaderGoPhase::Polling => level || failed,
            HeaderGoPhase::Raising | HeaderGoPhase::Lowering => done || failed,
            HeaderGoPhase::Over => false,
        }
    }

    /// Takes the outcome of the last action and gives the next one.
    pub fn step(&mut self, event: PinEvent) -> (a: PinAction)
        requires
            old(self).accepts(event),
        ensures
            *final(self) == header_go_step(*old(self), event, a).0,
            header_go_step(*old(self), event, a).1,
    {
        match event {
            PinEvent::Failed(e) => {
                self.phase = HeaderGoPhase::Over;
                PinAction::Finish(Err(e))
            },
            PinEvent::Level(v) => match self.phase {
                HeaderGoPhase::ReadingGo => {
                    if v == 1 {
                        self.phase = HeaderGoPhase::Over;
                        PinAction::Finish(Err(HardwareError::UnknownError(String::from_str("Mouvement non fini"))))
                    } else {
                        self.phase = HeaderGoPhase::ReadingFinMvt;
                        PinAction::Read(self.pin_fin_mvt as u64)
                    }
                },
                HeaderGoPhase::ReadingFinMvt => {
                    if v == 0 {
                        self.phase = HeaderGoPhase::Over;
                        PinAction::Finish(Err(HardwareError::UnknownError(String::from_str("Mouvement non fini"))))
                    } else {
                        self.phase = HeaderGoPhase::Raising;
                        PinAction::Write(self.pin_go as u64, 1)
                    }
                },
                _ => {
                    if v == 1 {
                        PinAction::Read(self.pin_fin_mvt as u64)
                    } else {
                        self.phase = HeaderGoPhase::Lowering;
                        PinAction::Write(self.pin_go as u64, 0)
                    }
                },
            },
            _ => match self.phase {
                HeaderGoPhase::Begin => {
                    self.phase = HeaderGoPhase::ReadingGo;
                    PinAction::Read(self.pin_go as u64)
                },
                HeaderGoPhase::Raising => {
                    self.phase = HeaderGoPhase::Polling;
                    PinAction::Read(self.pin_fin_mvt as u64)
                },
                _ => {
                    self.phase = HeaderGoPhase::Over;
                    PinAction::Finish(Ok(()))
                },
            },
        }
    }
}

} // verus!
