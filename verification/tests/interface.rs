use bassin::beaglebone::{DriverCN, DriverType as HeaderAxis};
use bassin::definitions::{Command, DriverType, Position, Status};
use bassin::driver_cn_pin::{PinAction, PinDirection, PinEvent};
use bassin::error::HardwareError;
use bassin::interface::TemplateApp;

fn pos(x: f32, y: f32, z: f32, theta: f32) -> Position {
    Position::new(x.to_bits(), y.to_bits(), z.to_bits(), theta.to_bits())
}

fn idle() -> Status {
    // every movement flag clear: every driver counts as done
    Status::new(false, false, true, true, false, false, false, false, false, false, false, false, false, false)
}

fn moving() -> Status {
    Status::new(false, false, true, true, false, false, true, true, true, true, true, true, true, true)
}

#[test]
fn default_interface() {
    let app = TemplateApp::default();
    assert_eq!(app.left.position(), pos(-1417.0, 495.0, 0.0, 0.0));
    assert_eq!(app.right.position(), pos(1417.0, 495.0, 0.0, 0.0));
    assert!(app.left.is_emitter() && !app.right.is_emitter());
    assert_eq!(app.next_e, pos(-1417.0, 495.0, 0.0, 0.0));
    assert_eq!(app.next_r, pos(-1417.0, 495.0, 0.0, 0.0));
    assert!(app.driver_used.is_empty());
    assert!(app.err_list.is_empty());
    let s = app.status.unwrap();
    assert!(s.bassin_powered() && s.bassin_started() && s.movement_rx() && !s.movement_ex());
}

#[test]
fn simple_commands() {
    let app = TemplateApp::default();
    assert!(matches!(app.reset_driver(DriverType::ALL), Command::Reset(DriverType::ALL)));
    assert!(matches!(app.start(), Command::Start));
    assert!(matches!(app.stop(), Command::Stop));
    assert!(matches!(app.arr_urg(true), Command::ArrUrg));
    assert!(matches!(app.arr_urg(false), Command::StopArrUrg));
}

#[test]
fn origin_queues_and_marks() {
    let mut app = TemplateApp::default();
    app.left.set_position(pos(-500.0, 100.0, 200.0, 10.0));
    let c = app.origin(DriverType::EY);
    assert!(matches!(c, Command::Zero(DriverType::EY)));
    assert_eq!(app.left.next(), Some(pos(-500.0, 495.0, 200.0, 10.0)));
    assert_eq!(app.driver_used, vec![DriverType::EY, DriverType::E]);
    let c = app.origin(DriverType::ALL);
    assert!(matches!(c, Command::Zero(DriverType::ALL)));
    assert_eq!(app.left.next(), Some(pos(-1417.0, 495.0, 0.0, 0.0)));
    assert_eq!(app.right.next(), Some(pos(1417.0, 495.0, 0.0, 0.0)));
    assert_eq!(app.driver_used.len(), 12);
    assert_eq!(app.driver_used[6], DriverType::E);
    assert_eq!(app.driver_used[11], DriverType::R);
}

#[test]
fn move_next_targets_the_front_of_the_queues() {
    let mut app = TemplateApp::default();
    let p = pos(-300.0, 0.0, 100.0, 45.0);
    app.left.add_next(p);
    match app.move_next(DriverType::ALL) {
        Command::Go(DriverType::ALL, e, r) => {
            assert_eq!(e, p);
            // nothing queued on the receiver: its current position
            assert_eq!(r, pos(1417.0, 495.0, 0.0, 0.0));
        }
        _ => panic!("not a Go command"),
    }
    assert_eq!(app.driver_used.len(), 10);
    assert_eq!(app.left.next(), Some(p));
    match app.move_next(DriverType::RZ) {
        Command::Go(DriverType::RZ, _, _) => {}
        _ => panic!("not a Go command"),
    }
    assert_eq!(&app.driver_used[10..], &[DriverType::RZ, DriverType::R]);
}

#[test]
fn finished_drivers_bring_the_arm_to_its_target() {
    let mut app = TemplateApp::default();
    let p = pos(-300.0, 0.0, 100.0, 45.0);
    app.left.add_next(p);
    app.move_next(DriverType::E);
    app.status = Some(moving());
    app.update();
    assert_eq!(app.driver_used, vec![DriverType::EX, DriverType::EY, DriverType::EZ, DriverType::ETHETA]);
    assert_eq!(app.left.position(), pos(-1417.0, 495.0, 0.0, 0.0));
    app.status = Some(idle());
    app.update();
    assert!(app.driver_used.is_empty());
    // the coordinates were taken one by one; the arm marker left during the
    // first pass, so the position stays queued
    assert_eq!(app.left.position(), p);
    assert_eq!(app.left.next(), Some(p));
}

#[test]
fn arm_marker_takes_the_whole_position_once_axes_are_done() {
    let mut app = TemplateApp::default();
    let p = pos(-300.0, 0.0, 100.0, 45.0);
    let q = pos(-200.0, 10.0, 50.0, 0.0);
    app.left.add_next(p);
    app.left.add_next(q);
    app.move_next(DriverType::E);
    app.status = Some(idle());
    app.update();
    assert!(app.driver_used.is_empty());
    assert_eq!(app.left.position(), p);
    assert_eq!(app.left.next(), Some(q));
}

#[test]
fn update_without_status_changes_nothing() {
    let mut app = TemplateApp::default();
    app.left.add_next(pos(-10.0, 0.0, 0.0, 0.0));
    app.move_next(DriverType::EX);
    app.status = None;
    app.update();
    assert_eq!(app.driver_used, vec![DriverType::EX, DriverType::E]);
    assert_eq!(app.left.position(), pos(-1417.0, 495.0, 0.0, 0.0));
}

#[test]
fn single_axis_marker_takes_one_coordinate() {
    let mut app = TemplateApp::default();
    let p = pos(500.0, -20.0, 30.0, -90.0);
    app.right.add_next(p);
    app.move_next(DriverType::RX);
    app.status = Some(idle());
    app.update();
    // RX takes x; then R finds no RX/RY/Rθ mark left and takes the whole
    // position
    assert_eq!(app.right.position(), p);
    assert!(app.driver_used.is_empty());
}

#[test]
fn errors_release_drivers() {
    let mut app = TemplateApp::default();
    app.move_next(DriverType::R);
    app.receive_results(vec![
        Ok(()),
        Err(HardwareError::MovmentNotFinished(DriverType::RY)),
        Err(HardwareError::NotStarted),
        Err(HardwareError::BadI2cResponse(DriverType::EX, 1, 2)),
    ]);
    assert_eq!(app.driver_used, vec![DriverType::RX, DriverType::RZ, DriverType::RTHETA, DriverType::R]);
    assert_eq!(
        app.err_list,
        vec![
            HardwareError::MovmentNotFinished(DriverType::RY),
            HardwareError::NotStarted,
            HardwareError::BadI2cResponse(DriverType::EX, 1, 2),
        ]
    );
}

#[test]
fn loading_positions_replaces_the_queues() {
    let mut app = TemplateApp::default();
    app.left.add_next(pos(-1.0, 0.0, 0.0, 0.0));
    let l = vec![pos(-100.0, 1.0, 2.0, 3.0), pos(-200.0, 1.0, 2.0, 3.0)];
    let r = vec![pos(100.0, 1.0, 2.0, 3.0)];
    app.load_positions(l.clone(), r.clone());
    assert_eq!(app.left.list_next().iter().copied().collect::<Vec<_>>(), l);
    assert_eq!(app.right.list_next().iter().copied().collect::<Vec<_>>(), r);
}

#[test]
fn header_driver_lines_are_unassigned() {
    let d = DriverCN::new(true, HeaderAxis::Z);
    assert_eq!(d.driver_type, HeaderAxis::Z);
    assert_eq!(d.set_export(), vec![0; 7]);
    assert_eq!(d.set_direction().iter().filter(|(_, dir)| *dir == PinDirection::Out).count(), 5);
    let d = DriverCN::default();
    assert_eq!(d.driver_type, HeaderAxis::X);
}

#[test]
fn header_go_refuses_a_busy_driver() {
    let d = DriverCN::new(false, HeaderAxis::THETA);
    let mut g = d.go();
    assert!(matches!(g.step(PinEvent::Start), PinAction::Read(0)));
    // "go" high: refused at once, "end of movement" is not read
    match g.step(PinEvent::Level(1)) {
        PinAction::Finish(Err(HardwareError::UnknownError(m))) => assert_eq!(m, "Mouvement non fini"),
        _ => panic!("a busy driver is not refused"),
    }
    assert!(!g.expects(&PinEvent::Level(1)));
    let mut g = d.go();
    g.step(PinEvent::Start);
    assert!(matches!(g.step(PinEvent::Level(0)), PinAction::Read(0)));
    // "end of movement" low: refused
    match g.step(PinEvent::Level(0)) {
        PinAction::Finish(Err(HardwareError::UnknownError(m))) => assert_eq!(m, "Mouvement non fini"),
        _ => panic!("a moving driver is not refused"),
    }
    let mut g = d.go();
    g.step(PinEvent::Start);
    g.step(PinEvent::Level(0));
    assert!(matches!(g.step(PinEvent::Level(1)), PinAction::Write(0, 1)));
    assert!(matches!(g.step(PinEvent::Done), PinAction::Read(0)));
    assert!(matches!(g.step(PinEvent::Level(1)), PinAction::Read(0)));
    assert!(matches!(g.step(PinEvent::Level(0)), PinAction::Write(0, 0)));
    assert!(matches!(g.step(PinEvent::Done), PinAction::Finish(Ok(()))));
}

#[test]
fn every_mark_clears_once_the_basin_is_idle() {
    let mut app = TemplateApp::default();
    app.left.add_next(pos(-10.0, 1.0, 2.0, 3.0));
    app.right.add_next(pos(10.0, 1.0, 2.0, 3.0));
    app.origin(DriverType::RTHETA);
    app.move_next(DriverType::ALL);
    app.move_next(DriverType::EZ);
    assert_eq!(app.driver_used.len(), 2 + 10 + 2);
    app.status = Some(idle());
    app.update();
    assert!(app.driver_used.is_empty());
}

use bassin::interface::{axis_lights, connection_light, status_lights, Light};

#[test]
fn indicators_are_gray_without_status() {
    assert_eq!(status_lights(None), vec![Light::Gray; 6]);
    assert_eq!(axis_lights(None, true), vec![Light::Gray; 4]);
    assert_eq!(axis_lights(None, false), vec![Light::Gray; 4]);
    assert_eq!(connection_light(true), Light::Green);
    assert_eq!(connection_light(false), Light::Red);
}

#[test]
fn status_indicators() {
    // right door open, left closed, powered, not started, emergency stop
    let s = Status::new(true, false, true, false, true, false, false, false, false, false, false, false, false, false);
    assert_eq!(
        status_lights(Some(s)),
        vec![Light::Green, Light::Red, Light::Green, Light::Red, Light::Red, Light::Green]
    );
}

#[test]
fn axis_indicators_are_red_while_moving() {
    // EY and RT moving
    let s = Status::new(false, false, true, true, false, false, false, true, false, false, false, false, false, true);
    assert_eq!(axis_lights(Some(s), true), vec![Light::Green, Light::Red, Light::Green, Light::Green]);
    assert_eq!(axis_lights(Some(s), false), vec![Light::Green, Light::Green, Light::Green, Light::Red]);
}
