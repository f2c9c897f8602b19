//! The hardware back end of the basin: which GPIO lines it uses, how a status
//! is derived from what the sensors read, how a command from the interface
//! turns into work on the drivers, and how the outcomes of that work are
//! gathered.
use crate::definitions::{Command, Doors, DriverType, Position, Status};
use crate::driver_cn_pin::{fin_mvt_line, go_line, reset_line, zero_line, DriverCnPin, PinDirection};
use crate::error::HardwareError;
use vstd::prelude::*;

verus! {

/// What the sensors of the basin read, as gathered for one status check.
/// Each line read gives its level or the error of the read; each driver
/// gives the outcome of its movement check.
#[derive(Debug)]
pub struct StatusReadings {
    pub porte_droite_bas: Result<u8, HardwareError>,
    /// Consulted only when the lower right door reads closed.
    pub porte_droite_haut: Result<u8, HardwareError>,
    pub porte_gauche_bas: Result<u8, HardwareError>,
    /// Consulted only when the lower left door reads closed.
    pub porte_gauche_haut: Result<u8, HardwareError>,
    pub info_etat: Result<u8, HardwareError>,
    pub on: Result<u8, HardwareError>,
    pub info_ar_urg: Result<u8, HardwareError>,
    pub ar_mom: Result<u8, HardwareError>,
    pub movement_ex: Result<(), HardwareError>,
    pub movement_ey: Result<(), HardwareError>,
    pub movement_ez: Result<(), HardwareError>,
    pub movement_et: Result<(), HardwareError>,
    pub movement_rx: Result<(), HardwareError>,
    pub movement_ry: Result<(), HardwareError>,
    pub movement_rz: Result<(), HardwareError>,
    pub movement_rt: Result<(), HardwareError>,
}

/// A door line: low means open. A failed read counts as open.
pub open spec fn door_probe(r: Result<u8, HardwareError>, door: Doors) -> (bool, Seq<HardwareError>) {
    match r {
        Ok(v) => if v == 0 {
            (true, seq![HardwareError::OpenDoor(door)])
        } else {
            (false, Seq::empty())
        },
        Err(e) => (true, seq![e]),
    }
}

/// Two door lines of one side: the second is consulted only when the first
/// reads closed.
pub open spec fn door_pair_probe(
    first: Result<u8, HardwareError>,
    first_door: Doors,
    second: Result<u8, HardwareError>,
    second_door: Doors,
) -> (bool, Seq<HardwareError>) {
    if door_probe(first, first_door).0 {
        door_probe(first, first_door)
    } else {
        door_probe(second, second_door)
    }
}

/// The state line: low means not started. A failed read counts as low.
pub open spec fn state_probe(r: Result<u8, HardwareError>) -> (bool, Seq<HardwareError>) {
    match r {
        Ok(v) => if v == 0 {
            (false, seq![HardwareError::NotStarted])
        } else {
            (true, Seq::empty())
        },
        Err(e) => (false, seq![e]),
    }
}

/// The power line: 1 means powered. A failed read counts as unpowered.
pub open spec fn power_probe(r: Result<u8, HardwareError>) -> (bool, Seq<HardwareError>) {
    match r {
        Ok(v) => if v == 1 {
            (true, Seq::empty())
        } else {
            (false, seq![HardwareError::NotPowered])
        },
        Err(e) => (false, seq![e]),
    }
}

/// A stop line: 1 means the stop is on, and is reported as `alarm`. A failed
/// read counts as off.
pub open spec fn stop_probe(r: Result<u8, HardwareError>, alarm: HardwareError) -> (bool, Seq<HardwareError>) {
    match r {
        Ok(v) => if v == 1 {
            (true, seq![alarm])
        } else {
            (false, Seq::empty())
        },
        Err(e) => (false, seq![e]),
    }
}

/// The movement check of a driver: its flag is set, meaning a movement is in
/// progress, exactly when the check found the movement unfinished.
pub open spec fn movement_probe(r: Result<(), HardwareError>) -> (bool, Seq<HardwareError>) {
    match r {
        Ok(_) => (false, Seq::empty()),
        Err(e) => (e is MovmentNotFinished, seq![e]),
    }
}

/// The status derived from the readings. The right doors give
/// `door_right_open`, the left doors `door_left_open`; the state line gives
/// `bassin_powered` and the power line `bassin_started`; the emergency stop
/// line gives `arr_urg`, the momentary stop line `arr_mom`; each driver its
/// movement flag, set while its movement is unfinished.
pub open spec fn status_of(rd: StatusReadings) -> Status {
    Status {
        door_right_open: door_pair_probe(rd.porte_droite_bas, Doors::DroiteBas, rd.porte_droite_haut, Doors::DroiteHaut).0,
        door_left_open: door_pair_probe(rd.porte_gauche_bas, Doors::GaucheBas, rd.porte_gauche_haut, Doors::GaucheHaut).0,
        bassin_powered: state_probe(rd.info_etat).0,
        bassin_started: power_probe(rd.on).0,
        arr_urg: stop_probe(rd.info_ar_urg, HardwareError::ArrUrg).0,
        arr_mom: stop_probe(rd.ar_mom, HardwareError::ArrMom).0,
        movement_ex: movement_probe(rd.movement_ex).0,
        movement_ey: movement_probe(rd.movement_ey).0,
        movement_ez: movement_probe(rd.movement_ez).0,
        movement_et: movement_probe(rd.movement_et).0,
        movement_rx: movement_probe(rd.movement_rx).0,
        movement_ry: movement_probe(rd.movement_ry).0,
        movement_rz: movement_probe(rd.movement_rz).0,
        movement_rt: movement_probe(rd.movement_rt).0,
    }
}

/// The errors met while deriving the status, in the order of the checks.
pub open spec fn status_errors(rd: StatusReadings) -> Seq<HardwareError> {
    door_pair_probe(rd.porte_droite_bas, Doors::DroiteBas, rd.porte_droite_haut, Doors::DroiteHaut).1
        + door_pair_probe(rd.porte_gauche_bas, Doors::GaucheBas, rd.porte_gauche_haut, Doors::GaucheHaut).1
        + state_probe(rd.info_etat).1
        + power_probe(rd.on).1
        + stop_probe(rd.info_ar_urg, HardwareError::ArrUrg).1
        + stop_probe(rd.ar_mom, HardwareError::ArrMom).1
        + movement_probe(rd.movement_ex).1
        + movement_probe(rd.movement_ey).1
        + movement_probe(rd.movement_ez).1
        + movement_probe(rd.movement_et).1
        + movement_probe(rd.movement_rx).1
        + movement_probe(rd.movement_ry).1
        + movement_probe(rd.movement_rz).1
        + movement_probe(rd.movement_rt).1
}

/// The single-axis drivers a driver designation stands for, in the order in
/// which sequential work walks them (the emitter arm before the receiver arm).
pub open spec fn axes_of(dt: DriverType) -> Seq<DriverType> {
    match dt {
        DriverType::E => seq![DriverType::EX, DriverType::EY, DriverType::EZ, DriverType::ETHETA],
        DriverType::R => seq![DriverType::RX, DriverType::RY, DriverType::RZ, DriverType::RTHETA],
        DriverType::ALL => seq![
            DriverType::EX,
            DriverType::EY,
            DriverType::EZ,
            DriverType::ETHETA,
            DriverType::RX,
            DriverType::RY,
            DriverType::RZ,
            DriverType::RTHETA,
        ],
        _ => seq![dt],
    }
}

/// One step of starting (or resetting) drivers: run one single-axis driver
/// and keep its outcome, or gather the last `n` outcomes kept into one (see
/// `ArmsBackend::join_results`).
#[derive(Clone, Copy, Debug, PartialEq, Eq, Structural)]
pub enum StartStep {
    Run(DriverType),
    Join(usize),
}

/// The steps that start the four drivers of an arm side by side and gather
/// their outcomes.
pub open spec fn arm_start_steps(x: DriverType, y: DriverType, z: DriverType, t: DriverType) -> Seq<StartStep> {
    seq![StartStep::Run(x), StartStep::Run(y), StartStep::Run(z), StartStep::Run(t), StartStep::Join(4)]
}

/// How the drivers `dt` are started or reset: a single-axis driver alone;
/// an arm's four drivers X, Y, Z, θ, their outcomes gathered together; all
/// the drivers as the receiver arm then the emitter arm, each gathered, and
/// the two outcomes gathered again.
pub open spec fn start_steps(dt: DriverType) -> Seq<StartStep> {
    match dt {
        DriverType::E => arm_start_steps(DriverType::EX, DriverType::EY, DriverType::EZ, DriverType::ETHETA),
        DriverType::R => arm_start_steps(DriverType::RX, DriverType::RY, DriverType::RZ, DriverType::RTHETA),
        DriverType::ALL => arm_start_steps(DriverType::RX, DriverType::RY, DriverType::RZ, DriverType::RTHETA)
            + arm_start_steps(DriverType::EX, DriverType::EY, DriverType::EZ, DriverType::ETHETA)
            + seq![StartStep::Join(2)],
        _ => seq![StartStep::Run(dt)],
    }
}

/// The drivers a list of steps runs, in order.
pub open spec fn runs_of(steps: Seq<StartStep>) -> Seq<DriverType>
    decreases steps.len(),
{
    if steps.len() == 0 {
        Seq::empty()
    } else {
        (match steps[0] {
            StartStep::Run(a) => seq![a],
            StartStep::Join(_) => Seq::<DriverType>::empty(),
        }) + runs_of(steps.drop_first())
    }
}

/// How many outcomes are kept after `steps`, starting with `depth` kept;
/// `None` when a step gathers more outcomes than are kept, or none.
pub open spec fn kept_after(steps: Seq<StartStep>, depth: nat) -> Option<nat>
    decreases steps.len(),
{
    if steps.len() == 0 {
        Some(depth)
    } else {
        match steps[0] {
            StartStep::Run(_) => kept_after(steps.drop_first(), depth + 1),
            StartStep::Join(n) => if 1 <= n <= depth {
                kept_after(steps.drop_first(), (depth - n + 1) as nat)
            } else {
                None
            },
        }
    }
}

/// The coordinate a single-axis driver is sent: the matching coordinate of
/// the emitter target for an emitter driver, of the receiver target for a
/// receiver driver.
pub open spec fn coordinate_for(a: DriverType, pos_e: Position, pos_r: Position) -> u32 {
    match a {
        DriverType::EX => pos_e.x,
        DriverType::EY => pos_e.y,
        DriverType::EZ => pos_e.z,
        DriverType::ETHETA => pos_e.theta,
        DriverType::RX => pos_r.x,
        DriverType::RY => pos_r.y,
        DriverType::RZ => pos_r.z,
        DriverType::RTHETA => pos_r.theta,
        _ => 0,
    }
}

/// The errors among a list of outcomes, in order.
pub open spec fn failures(s: Seq<Result<(), HardwareError>>) -> Seq<HardwareError>
    decreases s.len(),
{
    if s.len() == 0 {
        Seq::empty()
    } else {
        (match s[0] {
            Ok(_) => Seq::<HardwareError>::empty(),
            Err(e) => seq![e],
        }) + failures(s.drop_first())
    }
}

/// The level written back to toggle a line that read `level`.
pub open spec fn toggled(level: u8) -> u8 {
    (!level) & 1u8
}

/// What the back end does for a command.
#[derive(Clone, Copy, Debug)]
pub enum BackendAction {
    /// Send the targets to the drivers (see `write_go`), then start them
    /// (see `pin_go`).
    Go(DriverType, Position, Position),
    /// Reset the drivers (see `reset`).
    Reset(DriverType),
    /// Set the zero of the drivers (see `zero`).
    Zero(DriverType),
    /// Read the first line and write the toggled level to the second.
    Toggle(u64, u64),
    /// Drive the line to the level.
    Write(u64, u8),
}

/// The GPIO lines of the back end, and the lines of its eight drivers.
#[derive(Debug)]
pub struct ArmsBackend {
    pub driver_x_emetteur: DriverCnPin,
    pub driver_y_emetteur: DriverCnPin,
    pub driver_z_emetteur: DriverCnPin,
    pub driver_t_emetteur: DriverCnPin,
    pub driver_x_recepteur: DriverCnPin,
    pub driver_y_recepteur: DriverCnPin,
    pub driver_z_recepteur: DriverCnPin,
    pub driver_t_recepteur: DriverCnPin,
    pub pin_ar_mom: u64,
    pub pin_on: u64,
    pub pin_ordre_ar_urg: u64,
    pub pin_info_etat: u64,
    pub pin_info_ar_urg: u64,
    pub pin_porte_gauche_bas: u64,
    pub pin_porte_gauche_haut: u64,
    pub pin_porte_droite_bas: u64,
    pub pin_porte_droite_haut: u64,
}

/// The lines of the driver `dt`.
pub open spec fn lines_of(dt: DriverType) -> DriverCnPin {
    DriverCnPin {
        pin_go: go_line(dt),
        pin_reset: reset_line(dt),
        pin_zero: zero_line(dt),
        pin_fin_mvt: fin_mvt_line(dt),
        driver_type: dt,
    }
}

impl Default for ArmsBackend {
    /// No line assigned: every driver as `DriverCnPin::default` gives it and
    /// every line of the back end 0.
    fn default() -> (a: Self)
        ensures
            a.driver_x_emetteur == DriverCnPin::spec_default(),
            a.driver_y_emetteur == DriverCnPin::spec_default(),
            a.driver_z_emetteur == DriverCnPin::spec_default(),
            a.driver_t_emetteur == DriverCnPin::spec_default(),
            a.driver_x_recepteur == DriverCnPin::spec_default(),
            a.driver_y_recepteur == DriverCnPin::spec_default(),
            a.driver_z_recepteur == DriverCnPin::spec_default(),
            a.driver_t_recepteur == DriverCnPin::spec_default(),
            a.pin_ar_mom == 0,
            a.pin_on == 0,
            a.pin_ordre_ar_urg == 0,
            a.pin_info_etat == 0,
            a.pin_info_ar_urg == 0,
            a.pin_porte_gauche_bas == 0,
            a.pin_porte_gauche_haut == 0,
            a.pin_porte_droite_bas == 0,
            a.pin_porte_droite_haut == 0,
    {
        ArmsBackend {
            driver_x_emetteur: DriverCnPin::default(),
            driver_y_emetteur: DriverCnPin::default(),
            driver_z_emetteur: DriverCnPin::default(),
            driver_t_emetteur: DriverCnPin::default(),
            driver_x_recepteur: DriverCnPin::default(),
            driver_y_recepteur: DriverCnPin::default(),
            driver_z_recepteur: DriverCnPin::default(),
            driver_t_recepteur: DriverCnPin::default(),
            pin_ar_mom: 0,
            pin_on: 0,
            pin_ordre_ar_urg: 0,
            pin_info_etat: 0,
            pin_info_ar_urg: 0,
            pin_porte_gauche_bas: 0,
            pin_porte_gauche_haut: 0,
            pin_porte_droite_bas: 0,
            pin_porte_droite_haut: 0,
        }
    }
}

impl ArmsBackend {
    /// The lines of the driver `dt`, a single-axis driver.
    pub open spec fn driver_of(&self, dt: DriverType) -> DriverCnPin {
        match dt {
            DriverType::EX => self.driver_x_emetteur,
            DriverType::EY => self.driver_y_emetteur,
            DriverType::EZ => self.driver_z_emetteur,
            DriverType::ETHETA => self.driver_t_emetteur,
            DriverType::RX => self.driver_x_recepteur,
            DriverType::RY => self.driver_y_recepteur,
            DriverType::RZ => self.driver_z_recepteur,
            _ => self.driver_t_recepteur,
        }
    }

    /// The back end with the lines of the emitter θ driver in place of those
    /// of the receiver θ driver, and no momentary stop line.
    pub open spec fn copied(&self) -> Self {
        ArmsBackend { driver_t_recepteur: self.driver_t_emetteur, pin_ar_mom: 0, ..*self }
    }

    /// A copy of the back end as the back end makes one. The lines of the
    /// emitter drivers and of the X, Y and Z receiver drivers, and the lines
    /// of the back end, are copied. The receiver θ driver takes the lines of
    /// the emitter θ driver, and the momentary stop line is left unassigned.
    pub fn clone(&self) -> (c: Self)
        ensures
            c == self.copied(),
    {
        ArmsBackend { driver_t_recepteur: self.driver_t_emetteur, pin_ar_mom: 0, ..*self }
    }

    /// The wiring of the basin.
    pub fn new() -> (a: Self)
        ensures
            a.driver_x_emetteur == lines_of(DriverType::EX),
            a.driver_y_emetteur == lines_of(DriverType::EY),
            a.driver_z_emetteur == lines_of(DriverType::EZ),
            a.driver_t_emetteur == lines_of(DriverType::ETHETA),
            a.driver_x_recepteur == lines_of(DriverType::RX),
            a.driver_y_recepteur == lines_of(DriverType::RY),
            a.driver_z_recepteur == lines_of(DriverType::RZ),
            a.driver_t_recepteur == lines_of(DriverType::RTHETA),
            a.pin_ordre_ar_urg == 60,
            a.pin_on == 61,
            a.pin_ar_mom == 62,
            a.pin_info_etat == 63,
            a.pin_info_ar_urg == 81,
            a.pin_porte_gauche_bas == 86,
            a.pin_porte_gauche_haut == 87,
            a.pin_porte_droite_bas == 88,
            a.pin_porte_droite_haut == 89,
    {
        ArmsBackend {
            driver_x_emetteur: DriverCnPin::new(DriverType::EX),
            driver_y_emetteur: DriverCnPin::new(DriverType::EY),
            driver_z_emetteur: DriverCnPin::new(DriverType::EZ),
            driver_t_emetteur: DriverCnPin::new(DriverType::ETHETA),
            driver_x_recepteur: DriverCnPin::new(DriverType::RX),
            driver_y_recepteur: DriverCnPin::new(DriverType::RY),
            driver_z_recepteur: DriverCnPin::new(DriverType::RZ),
            driver_t_recepteur: DriverCnPin::new(DriverType::RTHETA),
            pin_ordre_ar_urg: 60,
            pin_on: 61,
            pin_ar_mom: 62,
            pin_info_etat: 63,
            pin_info_ar_urg: 81,
            pin_porte_gauche_bas: 86,
            pin_porte_gauche_haut: 87,
            pin_porte_droite_bas: 88,
            pin_porte_droite_haut: 89,
        }
    }

    /// The lines of the back end to export, in order.
    pub fn global_pin_export(&self) -> (v: Vec<u64>)
        ensures
            v@ == seq![
                self.pin_ar_mom,
                self.pin_on,
                self.pin_ordre_ar_urg,
                self.pin_info_etat,
                self.pin_info_ar_urg,
                self.pin_porte_gauche_bas,
                self.pin_porte_gauche_haut,
                self.pin_porte_droite_bas,
                self.pin_porte_droite_haut,
            ],
    {
        let v = vec![
            self.pin_ar_mom,
            self.pin_on,
            self.pin_ordre_ar_urg,
            self.pin_info_etat,
            self.pin_info_ar_urg,
            self.pin_porte_gauche_bas,
            self.pin_porte_gauche_haut,
            self.pin_porte_droite_bas,
            self.pin_porte_droite_haut,
        ];
        assert(v@ =~= seq![
            self.pin_ar_mom,
            self.pin_on,
            self.pin_ordre_ar_urg,
            self.pin_info_etat,
            self.pin_info_ar_urg,
            self.pin_porte_gauche_bas,
            self.pin_porte_gauche_haut,
            self.pin_porte_droite_bas,
            self.pin_porte_droite_haut,
        ]);
        v
    }

    /// The directions to give to the lines of the back end, in order (the
    /// state line is set twice and the upper right door line is left as it
    /// is).
    pub fn global_pin_direction(&self) -> (v: Vec<(u64, PinDirection)>)
        ensures
            v@ == seq![
                (self.pin_on, PinDirection::High),
                (self.pin_ordre_ar_urg, PinDirection::Low),
                (self.pin_ar_mom, PinDirection::Low),
                (self.pin_info_etat, PinDirection::Low),
                (self.pin_info_etat, PinDirection::Low),
                (self.pin_info_ar_urg, PinDirection::In),
                (self.pin_porte_gauche_bas, PinDirection::In),
                (self.pin_porte_gauche_haut, PinDirection::In),
                (self.pin_porte_droite_bas, PinDirection::In),
            ],
    {
        let v = vec![
            (self.pin_on, PinDirection::High),
            (self.pin_ordre_ar_urg, PinDirection::Low),
            (self.pin_ar_mom, PinDirection::Low),
            (self.pin_info_etat, PinDirection::Low),
            (self.pin_info_etat, PinDirection::Low),
            (self.pin_info_ar_urg, PinDirection::In),
            (self.pin_porte_gauche_bas, PinDirection::In),
            (self.pin_porte_gauche_haut, PinDirection::In),
            (self.pin_porte_droite_bas, PinDirection::In),
        ];
        assert(v@ =~= seq![
            (self.pin_on, PinDirection::High),
            (self.pin_ordre_ar_urg, PinDirection::Low),
            (self.pin_ar_mom, PinDirection::Low),
            (self.pin_info_etat, PinDirection::Low),
            (self.pin_info_etat, PinDirection::Low),
            (self.pin_info_ar_urg, PinDirection::In),
            (self.pin_porte_gauche_bas, PinDirection::In),
            (self.pin_porte_gauche_haut, PinDirection::In),
            (self.pin_porte_droite_bas, PinDirection::In),
        ]);
        v
    }

    /// The lines of the single-axis driver `dt`.
    pub fn driver(&self, dt: DriverType) -> (d: DriverCnPin)
        requires
            dt.is_axis(),
        ensures
            d == self.driver_of(dt),
    {
        match dt {
            DriverType::EX => self.driver_x_emetteur,
            DriverType::EY => self.driver_y_emetteur,
            DriverType::EZ => self.driver_z_emetteur,
            DriverType::ETHETA => self.driver_t_emetteur,
            DriverType::RX => self.driver_x_recepteur,
            DriverType::RY => self.driver_y_recepteur,
            DriverType::RZ => self.driver_z_recepteur,
            _ => self.driver_t_recepteur,
        }
    }

    fn probe_door(r: Result<u8, HardwareError>, door: Doors, errs: &mut Vec<HardwareError>) -> (b: bool)
        ensures
            b == door_probe(r, door).0,
            final(errs)@ == old(errs)@ + door_probe(r, door).1,
    {
        match r {
            Ok(v) => {
                if v == 0 {
                    errs.push(HardwareError::OpenDoor(door));
                    true
                } else {
                    assert(errs@ =~= old(errs)@ + Seq::<HardwareError>::empty());
                    false
                }
            },
            Err(e) => {
                errs.push(e);
                true
            },
        }
    }

    fn probe_door_pair(
        first: Result<u8, HardwareError>,
        first_door: Doors,
        second: Result<u8, HardwareError>,
        second_door: Doors,
        errs: &mut Vec<HardwareError>,
    ) -> (b: bool)
        ensures
            b == door_pair_probe(first, first_door, second, second_door).0,
            final(errs)@ == old(errs)@ + door_pair_probe(first, first_door, second, second_door).1,
    {
        if Self::probe_door(first, first_door, errs) {
            true
        } else {
            assert(errs@ =~= old(errs)@);
            Self::probe_door(second, second_door, errs)
        }
    }

    fn probe_state(r: Result<u8, HardwareError>, errs: &mut Vec<HardwareError>) -> (b: bool)
        ensures
            b == state_probe(r).0,
            final(errs)@ == old(errs)@ + state_probe(r).1,
    {
        match r {
            Ok(v) => {
                if v == 0 {
                    errs.push(HardwareError::NotStarted);
                    false
                } else {
                    assert(errs@ =~= old(errs)@ + Seq::<HardwareError>::empty());
                    true
                }
            },
            Err(e) => {
                errs.push(e);
                false
            },
        }
    }

    fn probe_power(r: Result<u8, HardwareError>, errs: &mut Vec<HardwareError>) -> (b: bool)
        ensures
            b == power_probe(r).0,
            final(errs)@ == old(errs)@ + power_probe(r).1,
    {
        match r {
            Ok(v) => {
                if v == 1 {
                    assert(errs@ =~= old(errs)@ + Seq::<HardwareError>::empty());
                    true
                } else {
                    errs.push(HardwareError::NotPowered);
                    false
                }
            },
            Err(e) => {
                errs.push(e);
                false
            },
        }
    }

    fn probe_stop(r: Result<u8, HardwareError>, alarm: HardwareError, errs: &mut Vec<HardwareError>) -> (b: bool)
        ensures
            b == stop_probe(r, alarm).0,
            final(errs)@ == old(errs)@ + stop_probe(r, alarm).1,
    {
        match r {
            Ok(v) => {
                if v == 1 {
                    errs.push(alarm);
                    true
                } else {
                    assert(errs@ =~= old(errs)@ + Seq::<HardwareError>::empty());
                    false
                }
            },
            Err(e) => {
                errs.push(e);
                false
            },
        }
    }

    fn probe_movement(r: Result<(), HardwareError>, errs: &mut Vec<HardwareError>) -> (b: bool)
        ensures
            b == movement_probe(r).0,
            final(errs)@ == old(errs)@ + movement_probe(r).1,
    {
        match r {
            Ok(_) => {
                assert(errs@ =~= old(errs)@ + Seq::<HardwareError>::empty());
                false
            },
            Err(e) => {
                let unfinished = match e {
                    HardwareError::MovmentNotFinished(_) => true,
                    _ => false,
                };
                errs.push(e);
                unfinished
            },
        }
    }

    /// Derives the status of the basin from what its sensors read, and
    /// replaces the content of `err_list` by the errors met, in the order of
    /// the checks.
    pub fn check_status(readings: StatusReadings, err_list: &mut Vec<HardwareError>) -> (s: Status)
        ensures
            s == status_of(readings),
            final(err_list)@ == status_errors(readings),
    {
        let ghost rd = readings;
        let StatusReadings {
            porte_droite_bas,
            porte_droite_haut,
            porte_gauche_bas,
            porte_gauche_haut,
            info_etat,
            on,
            info_ar_urg,
            ar_mom,
            movement_ex,
            movement_ey,
            movement_ez,
            movement_et,
            movement_rx,
            movement_ry,
            movement_rz,
            movement_rt,
        } = readings;
        err_list.clear();
        let ghost e0 = err_list@;
        let door_right_open = Self::probe_door_pair(
            porte_droite_bas,
            Doors::DroiteBas,
            porte_droite_haut,
            Doors::DroiteHaut,
            err_list,
        );
        let door_left_open = Self::probe_door_pair(
            porte_gauche_bas,
            Doors::GaucheBas,
            porte_gauche_haut,
            Doors::GaucheHaut,
            err_list,
        );
        let bassin_powered = Self::probe_state(info_etat, err_list);
        let bassin_started = Self::probe_power(on, err_list);
        let arr_urg = Self::probe_stop(info_ar_urg, HardwareError::ArrUrg, err_list);
        let arr_mom = Self::probe_stop(ar_mom, HardwareError::ArrMom, err_list);
        let m_ex = Self::probe_movement(movement_ex, err_list);
        let m_ey = Self::probe_movement(movement_ey, err_list);
        let m_ez = Self::probe_movement(movement_ez, err_list);
        let m_et = Self::probe_movement(movement_et, err_list);
        let m_rx = Self::probe_movement(movement_rx, err_list);
        let m_ry = Self::probe_movement(movement_ry, err_list);
        let m_rz = Self::probe_movement(movement_rz, err_list);
        let m_rt = Self::probe_movement(movement_rt, err_list);
        assert(e0 =~= Seq::<HardwareError>::empty());
        assert(err_list@ =~= status_errors(rd));
        Status::new(
            door_right_open,
            door_left_open,
            bassin_powered,
            bassin_started,
            arr_urg,
            arr_mom,
            m_ex,
            m_ey,
            m_ez,
            m_et,
            m_rx,
            m_ry,
            m_rz,
            m_rt,
        )
    }

    fn collect_failures(results: Vec<Result<(), HardwareError>>, out: &mut Vec<HardwareError>)
        ensures
            final(out)@ == old(out)@ + failures(results@),
    {
        let mut rest = results;
        let ghost all = rest@;
        assert(out@ + failures(rest@) =~= old(out)@ + failures(all));
        while rest.len() > 0
            invariant
                out@ + failures(rest@) == old(out)@ + failures(all),
            decreases rest.len(),
        {
            let ghost before = rest@;
            let r = rest.remove(0);
            assert(rest@ =~= before.drop_first());
            match r {
                Ok(_) => {
                    assert(failures(before) =~= failures(rest@));
                },
                Err(e) => {
                    assert(failures(before) =~= seq![e] + failures(rest@));
                    out.push(e);
                    assert(out@ + failures(rest@) =~= old(out)@ + failures(all));
                },
            }
        }
        assert(failures(rest@) =~= Seq::<HardwareError>::empty());
        assert(out@ =~= old(out)@ + failures(all));
    }

    /// The errors among the movement checks of the drivers, in order.
    pub fn movement_finished(results: Vec<Result<(), HardwareError>>) -> (errs: Vec<HardwareError>)
        ensures
            errs@ == failures(results@),
    {
        let mut errs: Vec<HardwareError> = Vec::new();
        Self::collect_failures(results, &mut errs);
        assert(errs@ =~= failures(results@));
        errs
    }

    /// Gathers the outcomes of drivers run side by side: their errors join
    /// `err_list` (the errors of the command so far), and the group succeeds
    /// only when that list stays empty.
    pub fn join_results(err_list: &mut Vec<HardwareError>, results: Vec<Result<(), HardwareError>>) -> (r: Result<(), HardwareError>)
        ensures
            final(err_list)@ == old(err_list)@ + failures(results@),
            r is Ok <==> final(err_list)@.len() == 0,
            r is Err ==> (match r {
                Err(HardwareError::UnknownError(s)) => s@ == Seq::<char>::empty(),
                _ => false,
            }),
    {
        Self::collect_failures(results, err_list);
        if err_list.len() == 0 {
            Ok(())
        } else {
            Err(HardwareError::UnknownError(String::new()))
        }
    }

    /// What the back end does for `command`. Both emergency stop commands
    /// toggle the emergency stop order; both momentary stop commands read
    /// the emergency stop order and write its toggle to the momentary stop
    /// line.
    pub fn update(&self, command: Command) -> (a: BackendAction)
        ensures
            a == match command {
                Command::Go(dt, e, r) => BackendAction::Go(dt, e, r),
                Command::Reset(dt) => BackendAction::Reset(dt),
                Command::Zero(dt) => BackendAction::Zero(dt),
                Command::ArrUrg | Command::StopArrUrg => BackendAction::Toggle(
                    self.pin_ordre_ar_urg,
                    self.pin_ordre_ar_urg,
                ),
                Command::ArrMom | Command::StopArrMom => BackendAction::Toggle(
                    self.pin_ordre_ar_urg,
                    self.pin_ar_mom,
                ),
                Command::Start => BackendAction::Write(self.pin_on, 1),
                Command::Stop => BackendAction::Write(self.pin_on, 0),
            },
    {
        match command {
            Command::Go(dt, e, r) => BackendAction::Go(dt, e, r),
            Command::Reset(dt) => BackendAction::Reset(dt),
            Command::Zero(dt) => BackendAction::Zero(dt),
            Command::ArrUrg | Command::StopArrUrg => BackendAction::Toggle(
                self.pin_ordre_ar_urg,
                self.pin_ordre_ar_urg,
            ),
            Command::ArrMom | Command::StopArrMom => BackendAction::Toggle(
                self.pin_ordre_ar_urg,
                self.pin_ar_mom,
            ),
            Command::Start => BackendAction::Write(self.pin_on, 1),
            Command::Stop => BackendAction::Write(self.pin_on, 0),
        }
    }

    /// The level to write to toggle a line that read `level`.
    pub fn toggle(level: u8) -> (r: u8)
        ensures
            r == toggled(level),
    {
        (!level) & 1
    }

    /// The single-axis drivers `dt` stands for, in the order in which the
    /// zero orders and the targets are sent (each stops at the first error).
    pub fn axes(dt: DriverType) -> (v: Vec<DriverType>)
        ensures
            v@ == axes_of(dt),
    {
        let v = match dt {
            DriverType::E => vec![DriverType::EX, DriverType::EY, DriverType::EZ, DriverType::ETHETA],
            DriverType::R => vec![DriverType::RX, DriverType::RY, DriverType::RZ, DriverType::RTHETA],
            DriverType::ALL => vec![
                DriverType::EX,
                DriverType::EY,
                DriverType::EZ,
                DriverType::ETHETA,
                DriverType::RX,
                DriverType::RY,
                DriverType::RZ,
                DriverType::RTHETA,
            ],
            _ => vec![dt],
        };
        assert(v@ =~= axes_of(dt));
        v
    }

    /// The steps that start (or reset) the drivers `dt` (see `start_steps`).
    pub fn start_plan(dt: DriverType) -> (v: Vec<StartStep>)
        ensures
            v@ == start_steps(dt),
    {
        let v = match dt {
            DriverType::E => vec![
                StartStep::Run(DriverType::EX),
                StartStep::Run(DriverType::EY),
                StartStep::Run(DriverType::EZ),
                StartStep::Run(DriverType::ETHETA),
                StartStep::Join(4),
            ],
            DriverType::R => vec![
                StartStep::Run(DriverType::RX),
                StartStep::Run(DriverType::RY),
                StartStep::Run(DriverType::RZ),
                StartStep::Run(DriverType::RTHETA),
                StartStep::Join(4),
            ],
            DriverType::ALL => vec![
                StartStep::Run(DriverType::RX),
                StartStep::Run(DriverType::RY),
                StartStep::Run(DriverType::RZ),
                StartStep::Run(DriverType::RTHETA),
                StartStep::Join(4),
                StartStep::Run(DriverType::EX),
                StartStep::Run(DriverType::EY),
                StartStep::Run(DriverType::EZ),
                StartStep::Run(DriverType::ETHETA),
                StartStep::Join(4),
                StartStep::Join(2),
            ],
            _ => vec![StartStep::Run(dt)],
        };
        assert(v@ =~= start_steps(dt));
        v
    }

    /// The coordinate sent to the single-axis driver `a`.
    pub fn coordinate(a: DriverType, pos_e: Position, pos_r: Position) -> (c: u32)
        ensures
            c == coordinate_for(a, pos_e, pos_r),
    {
        match a {
            DriverType::EX => pos_e.x,
            DriverType::EY => pos_e.y,
            DriverType::EZ => pos_e.z,
            DriverType::ETHETA => pos_e.theta,
            DriverType::RX => pos_r.x,
            DriverType::RY => pos_r.y,
            DriverType::RZ => pos_r.z,
            DriverType::RTHETA => pos_r.theta,
            _ => 0,
        }
    }

    /// The targets to send before starting `driver_type`: each of its
    /// single-axis drivers with its coordinate, in order.
    pub fn write_go(driver_type: DriverType, pos_e: Position, pos_r: Position) -> (v: Vec<(DriverType, u32)>)
        ensures
            v@ == axes_of(driver_type).map_values(|a: DriverType| (a, coordinate_for(a, pos_e, pos_r))),
    {
        let axes = Self::axes(driver_type);
        let mut v: Vec<(DriverType, u32)> = Vec::new();
        let mut i: usize = 0;
        while i < axes.len()
            invariant
                i <= axes@.len(),
                axes@ == axes_of(driver_type),
                v@ == axes@.take(i as int).map_values(|a: DriverType| (a, coordinate_for(a, pos_e, pos_r))),
            decreases axes@.len() - i,
        {
            let a = axes[i];
            v.push((a, Self::coordinate(a, pos_e, pos_r)));
            assert(axes@.take(i + 1) =~= axes@.take(i as int).push(a));
            i = i + 1;
            assert(v@ =~= axes@.take(i as int).map_values(|a: DriverType| (a, coordinate_for(a, pos_e, pos_r))));
        }
        assert(axes@.take(i as int) =~= axes@);
        v
    }

    /// The reply to the interface after a command: the outcome of the
    /// command when no error was gathered, else the gathered errors (which
    /// leave `err_list`).
    pub fn reply(update_result: Result<(), HardwareError>, err_list: &mut Vec<HardwareError>) -> (v: Vec<Result<(), HardwareError>>)
        ensures
            old(err_list)@.len() == 0 ==> v@ == seq![update_result] && final(err_list)@ == old(err_list)@,
            old(err_list)@.len() > 0 ==> v@ == old(err_list)@.map_values(|e: HardwareError| Err::<(), HardwareError>(e))
                && final(err_list)@.len() == 0,
    {
        if err_list.len() == 0 {
            let v = vec![update_result];
            assert(v@ =~= seq![update_result]);
            v
        } else {
            let mut v: Vec<Result<(), HardwareError>> = Vec::new();
            let ghost all = err_list@;
            while err_list.len() > 0
                invariant
                    v@ + err_list@.map_values(|e: HardwareError| Err::<(), HardwareError>(e))
                        == all.map_values(|e: HardwareError| Err::<(), HardwareError>(e)),
                decreases err_list.len(),
            {
                let ghost before = err_list@;
                let e = err_list.remove(0);
                v.push(Err(e));
                assert(err_list@ =~= before.drop_first());
                assert(v@ + err_list@.map_values(|e: HardwareError| Err::<(), HardwareError>(e))
                    =~= all.map_values(|e: HardwareError| Err::<(), HardwareError>(e)));
            }
            assert(v@ =~= all.map_values(|e: HardwareError| Err::<(), HardwareError>(e)));
            v
        }
    }
}

/// What to do next in a run of works made one after the other.
#[derive(Debug)]
pub enum SeqAction {
    /// Run the work of this index.
    Run(usize),
    /// The run is over, with this outcome.
    Finish(Result<(), HardwareError>),
}

/// A run of `count` works made one after the other, in index order, which
/// stops at the first failure (the zero orders of a group of drivers, or the
/// targets sent before a movement).
#[derive(Clone, Copy, Debug)]
pub struct InOrder {
    /// Index of the next work to run.
    pub next: usize,
    pub count: usize,
    pub started: bool,
    pub over: bool,
}

/// The outcomes a run can receive: nothing to start it, then the outcome of
/// the work it asked for.
pub open spec fn in_order_accepts(s: InOrder, outcome: Option<Result<(), HardwareError>>) -> bool {
    !s.over && (s.started <==> outcome is Some)
}

/// One step of a run: the next state and the next action.
pub open spec fn in_order_step(s: InOrder, outcome: Option<Result<(), HardwareError>>) -> (InOrder, SeqAction) {
    match outcome {
        None => if s.count == 0 {
            (InOrder { started: true, over: true, ..s }, SeqAction::Finish(Ok(())))
        } else {
            (InOrder { started: true, next: 1, ..s }, SeqAction::Run(0))
        },
        Some(Err(e)) => (InOrder { over: true, ..s }, SeqAction::Finish(Err(e))),
        Some(Ok(_)) => if s.next >= s.count {
            (InOrder { over: true, ..s }, SeqAction::Finish(Ok(())))
        } else {
            (InOrder { next: (s.next + 1) as usize, ..s }, SeqAction::Run(s.next))
        },
    }
}

impl InOrder {
    /// Whether the run is waiting for `outcome`.
    pub open spec fn accepts(&self, outcome: Option<Result<(), HardwareError>>) -> bool {
        in_order_accepts(*self, outcome)
    }

    /// Whether the run is waiting for `outcome`.
    pub fn expects(&self, outcome: &Option<Result<(), HardwareError>>) -> (b: bool)
        ensures
            b == self.accepts(*outcome),
    {
        !self.over && (self.started == outcome.is_some())
    }

    /// Takes the outcome of the last work (nothing at the start) and gives
    /// the next action.
    pub fn step(&mut self, outcome: Option<Result<(), HardwareError>>) -> (a: SeqAction)
        requires
            old(self).accepts(outcome),
        ensures
            (*final(self), a) == in_order_step(*old(self), outcome),
    {
        match outcome {
            None => {
                self.started = true;
                if self.count == 0 {
                    self.over = true;
                    SeqAction::Finish(Ok(()))
                } else {
                    self.next = 1;
                    SeqAction::Run(0)
                }
            },
            Some(Err(e)) => {
                self.over = true;
                SeqAction::Finish(Err(e))
            },
            Some(Ok(_)) => {
                if self.next >= self.count {
                    self.over = true;
                    SeqAction::Finish(Ok(()))
                } else {
                    let i = self.next;
                    self.next = self.next + 1;
                    SeqAction::Run(i)
                }
            },
        }
    }
}

impl ArmsBackend {
    /// A run of `count` works made one after the other, not started yet.
    pub fn in_order(count: usize) -> (s: InOrder)
        ensures
            s == (InOrder { next: 0, count, started: false, over: false }),
    {
        InOrder { next: 0, count, started: false, over: false }
    }
}

/// In a run, the works are asked for in index order, each once: the work
/// asked next is the one after the last asked, and a run succeeds only
/// after the last work succeeded.
pub proof fn lemma_in_order(s: InOrder, outcome: Option<Result<(), HardwareError>>)
    requires
        s.accepts(outcome),
        s.next <= s.count,
        s.started ==> s.next >= 1,
    ensures
        in_order_step(s, outcome).1 matches SeqAction::Run(i) ==> i == (if s.started { s.next as int } else { 0 })
            && i < s.count && in_order_step(s, outcome).0.next == i + 1,
        in_order_step(s, outcome).1 == SeqAction::Finish(Ok(())) ==> (s.started && s.next == s.count
            && outcome is Some && outcome->Some_0 is Ok) || (!s.started && s.count == 0),
        outcome is Some && outcome->Some_0 is Err ==> in_order_step(s, outcome).1 == SeqAction::Finish(
            outcome->Some_0,
        ),
{
}

/// A status read without any error describes a basin that is ready: doors
/// closed, state and power lines up, no stop, no movement in progress.
pub proof fn lemma_clean_status_is_ready(rd: StatusReadings)
    requires
        status_errors(rd).len() == 0,
    ensures
        !status_of(rd).door_right_open,
        !status_of(rd).door_left_open,
        status_of(rd).bassin_powered,
        status_of(rd).bassin_started,
        !status_of(rd).arr_urg,
        !status_of(rd).arr_mom,
        !status_of(rd).movement_ex && !status_of(rd).movement_ey && !status_of(rd).movement_ez
            && !status_of(rd).movement_et,
        !status_of(rd).movement_rx && !status_of(rd).movement_ry && !status_of(rd).movement_rz
            && !status_of(rd).movement_rt,
{
}

/// A group of drivers succeeds exactly when no error was gathered before and
/// every part succeeded.
pub proof fn lemma_join_success(prior: Seq<HardwareError>, results: Seq<Result<(), HardwareError>>)
    ensures
        (prior + failures(results)).len() == 0 <==> (prior.len() == 0 && forall|i: int|
            0 <= i < results.len() ==> #[trigger] results[i] is Ok),
    decreases results.len(),
{
    if results.len() > 0 {
        lemma_join_success(Seq::empty(), results.drop_first());
        assert forall|i: int| 0 <= i < results.drop_first().len() implies
            #[trigger] results.drop_first()[i] == results[i + 1] by {}
        if (prior + failures(results)).len() == 0 {
            assert forall|i: int| 0 <= i < results.len() implies #[trigger] results[i] is Ok by {
                if i > 0 {
                    assert(results.drop_first()[i - 1] == results[i]);
                }
            }
        }
        if prior.len() == 0 && forall|i: int| 0 <= i < results.len() ==> #[trigger] results[i] is Ok {
            assert(results[0] is Ok);
            assert forall|i: int| 0 <= i < results.drop_first().len() implies
                #[trigger] results.drop_first()[i] is Ok by {
                assert(results[i + 1] is Ok);
            }
        }
    }
}

/// Every driver designation stands for single-axis drivers only, each at
/// most once, and `E` and `R` for the axes of their own arm.
pub proof fn lemma_axes_are_single(dt: DriverType)
    ensures
        forall|i: int| 0 <= i < axes_of(dt).len() ==> (#[trigger] axes_of(dt)[i]).is_axis(),
        forall|i: int, j: int| 0 <= i < j < axes_of(dt).len() ==> axes_of(dt)[i] != axes_of(dt)[j],
        dt is E ==> forall|i: int| 0 <= i < axes_of(dt).len() ==> (#[trigger] axes_of(dt)[i]).is_emitter_axis(),
        dt is R ==> forall|i: int| 0 <= i < axes_of(dt).len() ==> (#[trigger] axes_of(dt)[i]).is_receiver_axis(),
        dt.is_axis() ==> axes_of(dt) == seq![dt],
{
}

/// Toggling a line level twice gives it back, and a toggle is always 0 or 1.
pub proof fn lemma_toggle(level: u8)
    ensures
        toggled(level) == 0 || toggled(level) == 1,
        toggled(level) == (if level % 2 == 0 { 1u8 } else { 0u8 }),
        level <= 1 ==> toggled(toggled(level)) == level,
{
    assert(((!level) & 1u8) == (if level % 2 == 0 { 1u8 } else { 0u8 })) by (bit_vector);
    let t: u8 = (!level) & 1u8;
    assert(level <= 1 ==> ((!t) & 1u8) == level) by (bit_vector)
        requires
            t == (!level) & 1u8,
    ;
}

proof fn lemma_runs_append(a: Seq<StartStep>, b: Seq<StartStep>)
    ensures
        runs_of(a + b) == runs_of(a) + runs_of(b),
    decreases a.len(),
{
    if a.len() == 0 {
        assert(a + b =~= b);
        assert(runs_of(a) + runs_of(b) =~= runs_of(b));
    } else {
        assert((a + b).drop_first() =~= a.drop_first() + b);
        lemma_runs_append(a.drop_first(), b);
        assert(runs_of(a + b) =~= runs_of(a) + runs_of(b));
    }
}

proof fn lemma_kept_append(a: Seq<StartStep>, b: Seq<StartStep>, d: nat)
    requires
        kept_after(a, d) is Some,
    ensures
        kept_after(a + b, d) == kept_after(b, kept_after(a, d)->0),
    decreases a.len(),
{
    if a.len() == 0 {
        assert(a + b =~= b);
    } else {
        assert((a + b).drop_first() =~= a.drop_first() + b);
        assert((a + b)[0] == a[0]);
        match a[0] {
            StartStep::Run(_) => lemma_kept_append(a.drop_first(), b, d + 1),
            StartStep::Join(n) => lemma_kept_append(a.drop_first(), b, (d - n + 1) as nat),
        }
    }
}

proof fn lemma_arm_steps(x: DriverType, y: DriverType, z: DriverType, t: DriverType, d: nat)
    ensures
        runs_of(arm_start_steps(x, y, z, t)) == seq![x, y, z, t],
        kept_after(arm_start_steps(x, y, z, t), d) == Some(d + 1),
{
    let s = arm_start_steps(x, y, z, t);
    assert(s.drop_first() =~= seq![StartStep::Run(y), StartStep::Run(z), StartStep::Run(t), StartStep::Join(4)]);
    assert(s.drop_first().drop_first() =~= seq![StartStep::Run(z), StartStep::Run(t), StartStep::Join(4)]);
    assert(s.drop_first().drop_first().drop_first() =~= seq![StartStep::Run(t), StartStep::Join(4)]);
    assert(s.drop_first().drop_first().drop_first().drop_first() =~= seq![StartStep::Join(4)]);
    assert(s.drop_first().drop_first().drop_first().drop_first().drop_first() =~= Seq::<StartStep>::empty());
    reveal_with_fuel(runs_of, 6);
    reveal_with_fuel(kept_after, 6);
    assert(runs_of(s) =~= seq![x, y, z, t]);
}

/// Starting (or resetting) the drivers `dt` runs single-axis drivers only:
/// each driver that `dt` stands for exactly once and no other, the receiver
/// arm before the emitter arm; and every gathering step finds the outcomes
/// it gathers, so that one outcome is left at the end.
pub proof fn lemma_start_plan(dt: DriverType)
    ensures
        runs_of(start_steps(dt)) == (if dt is ALL {
            axes_of(DriverType::R) + axes_of(DriverType::E)
        } else {
            axes_of(dt)
        }),
        runs_of(start_steps(dt)).to_multiset() == axes_of(dt).to_multiset(),
        forall|i: int| 0 <= i < runs_of(start_steps(dt)).len() ==> (#[trigger] runs_of(start_steps(dt))[i]).is_axis(),
        forall|i: int, j: int|
            0 <= i < j < runs_of(start_steps(dt)).len() ==> runs_of(start_steps(dt))[i] != runs_of(start_steps(dt))[j],
        kept_after(start_steps(dt), 0) == Some(1nat),
{
    match dt {
        DriverType::ALL => {
            let r = arm_start_steps(DriverType::RX, DriverType::RY, DriverType::RZ, DriverType::RTHETA);
            let e = arm_start_steps(DriverType::EX, DriverType::EY, DriverType::EZ, DriverType::ETHETA);
            let j = seq![StartStep::Join(2)];
            lemma_arm_steps(DriverType::RX, DriverType::RY, DriverType::RZ, DriverType::RTHETA, 0);
            lemma_arm_steps(DriverType::EX, DriverType::EY, DriverType::EZ, DriverType::ETHETA, 1);
            lemma_runs_append(r, e);
            lemma_runs_append(r + e, j);
            reveal_with_fuel(runs_of, 2);
            reveal_with_fuel(kept_after, 2);
            assert(runs_of(j) =~= Seq::<DriverType>::empty());
            lemma_kept_append(r, e, 0);
            lemma_kept_append(r + e, j, 0);
            assert(runs_of(start_steps(dt)) =~= axes_of(DriverType::R) + axes_of(DriverType::E));
            assert(axes_of(dt) =~= axes_of(DriverType::E) + axes_of(DriverType::R));
            vstd::seq_lib::lemma_seq_union_to_multiset_commutative(axes_of(DriverType::R), axes_of(DriverType::E));
        },
        DriverType::E => {
            lemma_arm_steps(DriverType::EX, DriverType::EY, DriverType::EZ, DriverType::ETHETA, 0);
        },
        DriverType::R => {
            lemma_arm_steps(DriverType::RX, DriverType::RY, DriverType::RZ, DriverType::RTHETA, 0);
        },
        _ => {
            reveal_with_fuel(runs_of, 2);
            reveal_with_fuel(kept_after, 2);
            assert(runs_of(start_steps(dt)) =~= seq![dt]);
        },
    }
}

/// The doors of a side read closed exactly when both of its lines (lower
/// and upper) are read and read non-zero. The first error met is that of
/// the right side when it reads open: the failed read or the open door of
/// its lower line, else those of its upper line; the left side's first
/// error comes right after the right side's.
pub proof fn lemma_door_lines(rd: StatusReadings)
    ensures
        !status_of(rd).door_right_open <==> (match (rd.porte_droite_bas, rd.porte_droite_haut) {
            (Ok(low), Ok(high)) => low != 0 && high != 0,
            _ => false,
        }),
        !status_of(rd).door_left_open <==> (match (rd.porte_gauche_bas, rd.porte_gauche_haut) {
            (Ok(low), Ok(high)) => low != 0 && high != 0,
            _ => false,
        }),
        status_of(rd).door_right_open ==> status_errors(rd).len() > 0 && status_errors(rd)[0] == (match (
            rd.porte_droite_bas,
            rd.porte_droite_haut,
        ) {
            (Err(e), _) => e,
            (Ok(0u8), _) => HardwareError::OpenDoor(Doors::DroiteBas),
            (Ok(_), Err(e)) => e,
            (Ok(_), Ok(_)) => HardwareError::OpenDoor(Doors::DroiteHaut),
        }),
        status_of(rd).door_left_open ==> ({
            let k: int = if status_of(rd).door_right_open { 1 } else { 0 };
            status_errors(rd).len() > k && status_errors(rd)[k] == (match (rd.porte_gauche_bas, rd.porte_gauche_haut) {
                (Err(e), _) => e,
                (Ok(0u8), _) => HardwareError::OpenDoor(Doors::GaucheBas),
                (Ok(_), Err(e)) => e,
                (Ok(_), Ok(_)) => HardwareError::OpenDoor(Doors::GaucheHaut),
            })
        }),
{
}

/// The upper line of a side is consulted only when its lower line reads
/// closed: readings that differ only in that upper line give the same status
/// and the same errors.
pub proof fn lemma_upper_door_after_lower(rd: StatusReadings, other: StatusReadings)
    requires
        other == (StatusReadings { porte_droite_haut: other.porte_droite_haut, ..rd }),
        !(rd.porte_droite_bas matches Ok(v) && v != 0),
    ensures
        status_of(other) == status_of(rd),
        status_errors(other) == status_errors(rd),
{
}

/// Whether a line was read and read non-zero.
pub open spec fn reads_nonzero(r: Result<u8, HardwareError>) -> bool {
    match r {
        Ok(v) => v != 0,
        Err(_) => false,
    }
}

/// Whether a line was read and read 1.
pub open spec fn reads_one(r: Result<u8, HardwareError>) -> bool {
    r == Ok::<u8, HardwareError>(1u8)
}

/// Whether a movement check found the movement unfinished.
pub open spec fn found_unfinished(r: Result<(), HardwareError>) -> bool {
    match r {
        Err(e) => e is MovmentNotFinished,
        Ok(_) => false,
    }
}

/// The other flags of the status, from what the lines read: the basin is
/// powered when its state line reads non-zero, started when its power line
/// reads 1; a stop is on when its line reads 1; a driver moves when its
/// check found the movement unfinished.
pub proof fn lemma_status_lines(rd: StatusReadings)
    ensures
        status_of(rd).bassin_powered == reads_nonzero(rd.info_etat),
        status_of(rd).bassin_started == reads_one(rd.on),
        status_of(rd).arr_urg == reads_one(rd.info_ar_urg),
        status_of(rd).arr_mom == reads_one(rd.ar_mom),
        status_of(rd).movement_ex == found_unfinished(rd.movement_ex),
        status_of(rd).movement_ey == found_unfinished(rd.movement_ey),
        status_of(rd).movement_ez == found_unfinished(rd.movement_ez),
        status_of(rd).movement_et == found_unfinished(rd.movement_et),
        status_of(rd).movement_rx == found_unfinished(rd.movement_rx),
        status_of(rd).movement_ry == found_unfinished(rd.movement_ry),
        status_of(rd).movement_rz == found_unfinished(rd.movement_rz),
        status_of(rd).movement_rt == found_unfinished(rd.movement_rt),
{
}

/// No error is met exactly when every line was read and reads the quiet
/// value (both lines of each door non-zero, the state line non-zero, the
/// power line 1, each stop line not 1) and every movement check succeeded.
pub proof fn lemma_no_error_when_quiet(rd: StatusReadings)
    ensures
        status_errors(rd).len() == 0 <==> {
            &&& reads_nonzero(rd.porte_droite_bas) && reads_nonzero(rd.porte_droite_haut)
            &&& reads_nonzero(rd.porte_gauche_bas) && reads_nonzero(rd.porte_gauche_haut)
            &&& reads_nonzero(rd.info_etat) && reads_one(rd.on)
            &&& rd.info_ar_urg is Ok && !reads_one(rd.info_ar_urg)
            &&& rd.ar_mom is Ok && !reads_one(rd.ar_mom)
            &&& rd.movement_ex is Ok && rd.movement_ey is Ok && rd.movement_ez is Ok && rd.movement_et is Ok
            &&& rd.movement_rx is Ok && rd.movement_ry is Ok && rd.movement_rz is Ok && rd.movement_rt is Ok
        },
{
    let r = door_pair_probe(rd.porte_droite_bas, Doors::DroiteBas, rd.porte_droite_haut, Doors::DroiteHaut).1;
    let l = door_pair_probe(rd.porte_gauche_bas, Doors::GaucheBas, rd.porte_gauche_haut, Doors::GaucheHaut).1;
    assert(r.len() == 0 <==> reads_nonzero(rd.porte_droite_bas) && reads_nonzero(rd.porte_droite_haut));
    assert(l.len() == 0 <==> reads_nonzero(rd.porte_gauche_bas) && reads_nonzero(rd.porte_gauche_haut));
    assert(state_probe(rd.info_etat).1.len() == 0 <==> reads_nonzero(rd.info_etat));
    assert(power_probe(rd.on).1.len() == 0 <==> reads_one(rd.on));
    assert(stop_probe(rd.info_ar_urg, HardwareError::ArrUrg).1.len() == 0 <==> rd.info_ar_urg is Ok && !reads_one(rd.info_ar_urg));
    assert(stop_probe(rd.ar_mom, HardwareError::ArrMom).1.len() == 0 <==> rd.ar_mom is Ok && !reads_one(rd.ar_mom));
    assert(movement_probe(rd.movement_ex).1.len() == 0 <==> rd.movement_ex is Ok);
    assert(movement_probe(rd.movement_ey).1.len() == 0 <==> rd.movement_ey is Ok);
    assert(movement_probe(rd.movement_ez).1.len() == 0 <==> rd.movement_ez is Ok);
    assert(movement_probe(rd.movement_et).1.len() == 0 <==> rd.movement_et is Ok);
    assert(movement_probe(rd.movement_rx).1.len() == 0 <==> rd.movement_rx is Ok);
    assert(movement_probe(rd.movement_ry).1.len() == 0 <==> rd.movement_ry is Ok);
    assert(movement_probe(rd.movement_rz).1.len() == 0 <==> rd.movement_rz is Ok);
    assert(movement_probe(rd.movement_rt).1.len() == 0 <==> rd.movement_rt is Ok);
}

} // verus!

