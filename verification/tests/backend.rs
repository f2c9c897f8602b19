use bassin::arm_backend::{ArmsBackend, BackendAction, StartStep, StatusReadings};
use bassin::driver_cn_pin::PinDirection;
use bassin::definitions::{Command, Doors, DriverType, Position};
use bassin::error::HardwareError;

fn ready() -> StatusReadings {
    StatusReadings {
        porte_droite_bas: Ok(1),
        porte_droite_haut: Ok(1),
        porte_gauche_bas: Ok(1),
        porte_gauche_haut: Ok(1),
        info_etat: Ok(1),
        on: Ok(1),
        info_ar_urg: Ok(0),
        ar_mom: Ok(0),
        movement_ex: Ok(()),
        movement_ey: Ok(()),
        movement_ez: Ok(()),
        movement_et: Ok(()),
        movement_rx: Ok(()),
        movement_ry: Ok(()),
        movement_rz: Ok(()),
        movement_rt: Ok(()),
    }
}

#[test]
fn wiring_of_the_basin() {
    let a = ArmsBackend::new();
    assert_eq!(a.pin_ordre_ar_urg, 60);
    assert_eq!(a.pin_on, 61);
    assert_eq!(a.pin_ar_mom, 62);
    assert_eq!(a.pin_info_etat, 63);
    assert_eq!(a.pin_info_ar_urg, 81);
    assert_eq!(a.driver(DriverType::EX).pin_go, 44);
    assert_eq!(a.driver(DriverType::RTHETA).pin_fin_mvt, 72);
    assert_eq!(a.global_pin_export(), vec![62, 61, 60, 63, 81, 86, 87, 88, 89]);
    assert_eq!(
        a.global_pin_direction(),
        vec![
            (61, PinDirection::High),
            (60, PinDirection::Low),
            (62, PinDirection::Low),
            (63, PinDirection::Low),
            (63, PinDirection::Low),
            (81, PinDirection::In),
            (86, PinDirection::In),
            (87, PinDirection::In),
            (88, PinDirection::In),
        ]
    );
}

#[test]
fn ready_basin_reads_without_error() {
    let mut errs = vec![HardwareError::ArrMom];
    let s = ArmsBackend::check_status(ready(), &mut errs);
    assert!(errs.is_empty());
    assert!(!s.door_right_open() && !s.door_left_open());
    assert!(s.bassin_powered() && s.bassin_started());
    assert!(!s.arr_urg() && !s.arr_mom());
    assert!(!s.movement_ex() && !s.movement_ey() && !s.movement_ez() && !s.movement_et());
    assert!(!s.movement_rx() && !s.movement_ry() && !s.movement_rz() && !s.movement_rt());
}

#[test]
fn open_doors_and_stops_are_reported() {
    let mut r = ready();
    r.porte_droite_bas = Ok(0);
    // not consulted: the lower right door already reads open
    r.porte_droite_haut = Err(HardwareError::PinRead(89));
    r.porte_gauche_haut = Ok(0);
    r.info_ar_urg = Ok(1);
    r.ar_mom = Ok(1);
    let mut errs = vec![];
    let s = ArmsBackend::check_status(r, &mut errs);
    assert!(s.door_right_open() && s.door_left_open());
    assert!(s.arr_urg() && s.arr_mom());
    assert_eq!(
        errs,
        vec![
            HardwareError::OpenDoor(Doors::DroiteBas),
            HardwareError::OpenDoor(Doors::GaucheHaut),
            HardwareError::ArrUrg,
            HardwareError::ArrMom,
        ]
    );
}

#[test]
fn unpowered_basin_and_failed_reads() {
    let mut r = ready();
    r.info_etat = Ok(0);
    r.on = Ok(0);
    r.porte_gauche_bas = Err(HardwareError::PinRead(86));
    r.movement_ey = Err(HardwareError::MovmentNotFinished(DriverType::EY));
    r.movement_rz = Err(HardwareError::PinRead(79));
    let mut errs = vec![];
    let s = ArmsBackend::check_status(r, &mut errs);
    assert!(s.door_left_open());
    assert!(!s.bassin_powered() && !s.bassin_started());
    // a movement in progress sets its flag; a failed read does not
    assert!(!s.movement_ex() && s.movement_ey() && !s.movement_rz());
    assert_eq!(
        errs,
        vec![
            HardwareError::PinRead(86),
            HardwareError::NotStarted,
            HardwareError::NotPowered,
            HardwareError::MovmentNotFinished(DriverType::EY),
            HardwareError::PinRead(79),
        ]
    );
}

#[test]
fn movement_errors_are_collected() {
    let errs = ArmsBackend::movement_finished(vec![
        Ok(()),
        Err(HardwareError::MovmentNotFinished(DriverType::EY)),
        Ok(()),
        Err(HardwareError::PinRead(70)),
    ]);
    assert_eq!(errs, vec![HardwareError::MovmentNotFinished(DriverType::EY), HardwareError::PinRead(70)]);
}

#[test]
fn group_outcome() {
    let mut errs = vec![];
    assert_eq!(ArmsBackend::join_results(&mut errs, vec![Ok(()), Ok(())]), Ok(()));
    assert!(errs.is_empty());
    let r = ArmsBackend::join_results(
        &mut errs,
        vec![Ok(()), Err(HardwareError::MovmentNotFinished(DriverType::RX)), Ok(())],
    );
    assert_eq!(r, Err(HardwareError::UnknownError(String::new())));
    assert_eq!(errs, vec![HardwareError::MovmentNotFinished(DriverType::RX)]);
    // an earlier error makes the group fail even when its parts succeed
    let mut errs = vec![HardwareError::NotStarted];
    let r = ArmsBackend::join_results(&mut errs, vec![Ok(()), Ok(())]);
    assert!(r.is_err());
    assert_eq!(errs, vec![HardwareError::NotStarted]);
}

#[test]
fn commands_become_actions() {
    let a = ArmsBackend::new();
    let p = Position::new(1, 2, 3, 4);
    let q = Position::new(5, 6, 7, 8);
    assert!(matches!(a.update(Command::Go(DriverType::E, p, q)), BackendAction::Go(DriverType::E, pp, qq) if pp == p && qq == q));
    assert!(matches!(a.update(Command::Reset(DriverType::RX)), BackendAction::Reset(DriverType::RX)));
    assert!(matches!(a.update(Command::Zero(DriverType::ALL)), BackendAction::Zero(DriverType::ALL)));
    assert!(matches!(a.update(Command::ArrUrg), BackendAction::Toggle(60, 60)));
    assert!(matches!(a.update(Command::StopArrUrg), BackendAction::Toggle(60, 60)));
    assert!(matches!(a.update(Command::ArrMom), BackendAction::Toggle(60, 62)));
    assert!(matches!(a.update(Command::StopArrMom), BackendAction::Toggle(60, 62)));
    assert!(matches!(a.update(Command::Start), BackendAction::Write(61, 1)));
    assert!(matches!(a.update(Command::Stop), BackendAction::Write(61, 0)));
}

#[test]
fn toggling_a_level() {
    assert_eq!(ArmsBackend::toggle(0), 1);
    assert_eq!(ArmsBackend::toggle(1), 0);
    assert_eq!(ArmsBackend::toggle(ArmsBackend::toggle(1)), 1);
    assert_eq!(ArmsBackend::toggle(2), 1);
    assert_eq!(ArmsBackend::toggle(255), 0);
}

#[test]
fn designations_expand_to_axes() {
    assert_eq!(ArmsBackend::axes(DriverType::RY), vec![DriverType::RY]);
    assert_eq!(
        ArmsBackend::axes(DriverType::E),
        vec![DriverType::EX, DriverType::EY, DriverType::EZ, DriverType::ETHETA]
    );
    assert_eq!(ArmsBackend::axes(DriverType::ALL).len(), 8);
    assert_eq!(ArmsBackend::axes(DriverType::ALL)[0], DriverType::EX);
    assert_eq!(ArmsBackend::axes(DriverType::ALL)[4], DriverType::RX);
}

#[test]
fn start_plan_runs_each_driver_once() {
    assert_eq!(ArmsBackend::start_plan(DriverType::EZ), vec![StartStep::Run(DriverType::EZ)]);
    assert_eq!(
        ArmsBackend::start_plan(DriverType::R),
        vec![
            StartStep::Run(DriverType::RX),
            StartStep::Run(DriverType::RY),
            StartStep::Run(DriverType::RZ),
            StartStep::Run(DriverType::RTHETA),
            StartStep::Join(4),
        ]
    );
    let all = ArmsBackend::start_plan(DriverType::ALL);
    assert_eq!(all.len(), 11);
    assert_eq!(all[4], StartStep::Join(4));
    assert_eq!(all[9], StartStep::Join(4));
    assert_eq!(all[10], StartStep::Join(2));
    let runs: Vec<DriverType> = all
        .iter()
        .filter_map(|s| match s {
            StartStep::Run(a) => Some(*a),
            StartStep::Join(_) => None,
        })
        .collect();
    assert_eq!(
        runs,
        vec![
            DriverType::RX,
            DriverType::RY,
            DriverType::RZ,
            DriverType::RTHETA,
            DriverType::EX,
            DriverType::EY,
            DriverType::EZ,
            DriverType::ETHETA,
        ]
    );
    assert!(runs.iter().all(|a| a.single()));
    assert!(!DriverType::ALL.single());
    assert!(!DriverType::E.single());
}

#[test]
fn a_copy_of_the_back_end() {
    let b = ArmsBackend::new();
    let c = b.clone();
    assert_eq!(c.driver_x_emetteur.pin_go, b.driver_x_emetteur.pin_go);
    assert_eq!(c.driver_z_recepteur.pin_fin_mvt, b.driver_z_recepteur.pin_fin_mvt);
    // the receiver θ driver takes the lines of the emitter θ driver
    assert_eq!(c.driver_t_recepteur.pin_go, b.driver_t_emetteur.pin_go);
    assert_eq!(c.driver_t_recepteur.driver_type, DriverType::ETHETA);
    assert_eq!(c.pin_ar_mom, 0);
    assert_eq!(c.pin_on, b.pin_on);
    assert_eq!(c.pin_info_etat, b.pin_info_etat);
    assert_eq!(c.pin_porte_droite_haut, b.pin_porte_droite_haut);
}

#[test]
fn targets_follow_the_arm_of_each_driver() {
    let e = Position::new(1, 2, 3, 4);
    let r = Position::new(5, 6, 7, 8);
    assert_eq!(ArmsBackend::write_go(DriverType::EY, e, r), vec![(DriverType::EY, 2)]);
    assert_eq!(ArmsBackend::write_go(DriverType::RTHETA, e, r), vec![(DriverType::RTHETA, 8)]);
    assert_eq!(
        ArmsBackend::write_go(DriverType::ALL, e, r),
        vec![
            (DriverType::EX, 1),
            (DriverType::EY, 2),
            (DriverType::EZ, 3),
            (DriverType::ETHETA, 4),
            (DriverType::RX, 5),
            (DriverType::RY, 6),
            (DriverType::RZ, 7),
            (DriverType::RTHETA, 8),
        ]
    );
    assert_eq!(ArmsBackend::coordinate(DriverType::R, e, r), 0);
}

#[test]
fn reply_to_the_interface() {
    let mut errs = vec![];
    assert_eq!(ArmsBackend::reply(Ok(()), &mut errs), vec![Ok(())]);
    assert_eq!(
        ArmsBackend::reply(Err(HardwareError::PinWrite(61)), &mut errs),
        vec![Err(HardwareError::PinWrite(61))]
    );
    let mut errs = vec![HardwareError::NotStarted, HardwareError::ArrUrg];
    assert_eq!(
        ArmsBackend::reply(Ok(()), &mut errs),
        vec![Err(HardwareError::NotStarted), Err(HardwareError::ArrUrg)]
    );
    assert!(errs.is_empty());
}

#[test]
fn default_backend_has_no_line_assigned() {
    let a = ArmsBackend::default();
    assert_eq!(a.pin_on, 0);
    assert_eq!(a.pin_porte_droite_haut, 0);
    assert_eq!(a.driver_x_recepteur.pin_go, 0);
    assert_eq!(a.driver_t_recepteur.get_driver_type(), DriverType::EX);
}

use bassin::arm_backend::SeqAction;

fn run_in_order(count: usize, fail_at: Option<usize>) -> (Vec<usize>, Result<(), HardwareError>) {
    let mut run = ArmsBackend::in_order(count);
    let mut ran = vec![];
    let mut outcome = None;
    loop {
        assert!(run.expects(&outcome));
        match run.step(outcome) {
            SeqAction::Run(i) => {
                ran.push(i);
                outcome = Some(if Some(i) == fail_at { Err(HardwareError::PinWrite(i as u8)) } else { Ok(()) });
            }
            SeqAction::Finish(r) => {
                assert!(!run.expects(&None));
                return (ran, r);
            }
        }
    }
}

#[test]
fn works_in_order_stop_at_the_first_failure() {
    assert_eq!(run_in_order(4, None), (vec![0, 1, 2, 3], Ok(())));
    assert_eq!(run_in_order(8, Some(2)), (vec![0, 1, 2], Err(HardwareError::PinWrite(2))));
    assert_eq!(run_in_order(0, None), (vec![], Ok(())));
    let mut run = ArmsBackend::in_order(2);
    assert!(!run.expects(&Some(Ok(()))));
    assert!(run.expects(&None));
}
