use bassin::definitions::{
    Arm, Doors, DriverType, Position, Status, ORIGIN_X_EMITTER, ORIGIN_X_RECEIVER, ORIGIN_Y,
    ORIGIN_ZERO,
};

fn pos(x: f32, y: f32, z: f32, theta: f32) -> Position {
    Position::new(x.to_bits(), y.to_bits(), z.to_bits(), theta.to_bits())
}

#[test]
fn origin_constants_are_the_basin_origin() {
    assert_eq!(f32::from_bits(ORIGIN_X_EMITTER), -1417.0);
    assert_eq!(f32::from_bits(ORIGIN_X_RECEIVER), 1417.0);
    assert_eq!(f32::from_bits(ORIGIN_Y), 495.0);
    assert_eq!(f32::from_bits(ORIGIN_ZERO), 0.0);
}

#[test]
fn door_and_driver_labels() {
    assert_eq!(Doors::GaucheBas.to_string(), "Porte Gauche Bas");
    assert_eq!(Doors::GaucheHaut.to_string(), "Porte Gauche Haut");
    assert_eq!(Doors::DroiteBas.to_string(), "Porte Droite Bas");
    assert_eq!(Doors::DroiteHaut.to_string(), "Porte Droite Haut");
    assert_eq!(DriverType::EX.to_string(), "Driver du moteur X émetteur");
    assert_eq!(DriverType::ETHETA.to_string(), "Driver du moteur Théta émetteur");
    assert_eq!(DriverType::RZ.to_string(), "Driver du moteur Z récepteur");
    assert_eq!(DriverType::RTHETA.to_string(), "Driver du moteur Théta récepteur");
    assert_eq!(DriverType::E.to_string(), "Drivers des moteur émetteur");
    assert_eq!(DriverType::R.to_string(), "Drivers des moteur récepteur");
    assert_eq!(DriverType::ALL.to_string(), "Drivers de tout les moteurs");
}

#[test]
fn all_drivers_in_declaration_order() {
    assert_eq!(
        DriverType::all(),
        vec![
            DriverType::EX,
            DriverType::EY,
            DriverType::EZ,
            DriverType::ETHETA,
            DriverType::RX,
            DriverType::RY,
            DriverType::RZ,
            DriverType::RTHETA,
            DriverType::R,
            DriverType::E,
            DriverType::ALL,
        ]
    );
}

#[test]
fn position_setters_change_one_coordinate() {
    let mut p = pos(1.0, 2.0, 3.0, 4.0);
    p.set_x(10.5f32.to_bits());
    assert_eq!(p, pos(10.5, 2.0, 3.0, 4.0));
    p.set_y((-7.25f32).to_bits());
    p.set_z(0.5f32.to_bits());
    p.set_theta(90.0f32.to_bits());
    assert_eq!(f32::from_bits(p.x()), 10.5);
    assert_eq!(f32::from_bits(p.y()), -7.25);
    assert_eq!(f32::from_bits(p.z()), 0.5);
    assert_eq!(f32::from_bits(p.theta()), 90.0);
    p.set_pos(Position::default());
    assert_eq!(p, pos(0.0, 0.0, 0.0, 0.0));
}

#[test]
fn new_arm_stands_at_its_origin() {
    let e = Arm::new(true);
    assert_eq!(e.position(), pos(-1417.0, 495.0, 0.0, 0.0));
    assert!(e.is_emitter());
    assert!(!e.has_next());
    assert_eq!(e.next(), None);
    let r = Arm::new(false);
    assert_eq!(r.position(), pos(1417.0, 495.0, 0.0, 0.0));
    assert!(!r.is_emitter());
    let d = Arm::default();
    assert_eq!(d.position(), Position::default());
    assert!(d.is_emitter());
}

#[test]
fn queue_is_first_in_first_out() {
    let mut a = Arm::new(true);
    let p1 = pos(-100.0, 10.0, 5.0, 0.0);
    let p2 = pos(-200.0, 20.0, 6.0, 45.0);
    a.add_next(p1);
    a.add_next(p2);
    assert_eq!(a.list_next().iter().copied().collect::<Vec<_>>(), vec![p1, p2]);
    assert_eq!(a.next(), Some(p1));
    a.move_next();
    assert_eq!(a.position(), p1);
    assert_eq!(a.next(), Some(p2));
    a.move_next();
    assert_eq!(a.position(), p2);
    assert!(!a.has_next());
    // nothing queued: the arm stays
    a.move_next();
    assert_eq!(a.position(), p2);
}

#[test]
fn origin_goes_in_front_of_the_queue() {
    let mut a = Arm::new(false);
    let p1 = pos(300.0, 10.0, 5.0, 0.0);
    a.set_position(pos(500.0, -100.0, 200.0, 30.0));
    a.add_next(p1);
    a.origin();
    assert_eq!(a.next(), Some(pos(1417.0, 495.0, 0.0, 0.0)));
    a.origin_x();
    assert_eq!(a.next(), Some(pos(1417.0, -100.0, 200.0, 30.0)));
    a.origin_y();
    assert_eq!(a.next(), Some(pos(500.0, 495.0, 200.0, 30.0)));
    a.origin_z();
    assert_eq!(a.next(), Some(pos(500.0, -100.0, 0.0, 30.0)));
    a.origin_theta();
    assert_eq!(a.next(), Some(pos(500.0, -100.0, 200.0, 0.0)));
    assert_eq!(a.list_next().len(), 6);
    assert_eq!(a.list_next()[5], p1);
    assert_eq!(a.position(), pos(500.0, -100.0, 200.0, 30.0));
}

#[test]
fn single_axis_moves_keep_the_queue() {
    let mut a = Arm::new(true);
    let p1 = pos(-100.0, 10.0, 5.0, 12.0);
    a.add_next(p1);
    a.move_next_x();
    assert_eq!(a.position(), pos(-100.0, 495.0, 0.0, 0.0));
    a.move_next_y();
    a.move_next_z();
    a.move_next_theta();
    assert_eq!(a.position(), p1);
    assert_eq!(a.next(), Some(p1));
    let mut b = Arm::new(true);
    b.move_next_x();
    assert_eq!(b.position(), pos(-1417.0, 495.0, 0.0, 0.0));
}

#[test]
fn list_edition() {
    let mut a = Arm::new(true);
    let p1 = pos(-100.0, 1.0, 1.0, 1.0);
    let p2 = pos(-200.0, 2.0, 2.0, 2.0);
    let p3 = pos(-300.0, 3.0, 3.0, 3.0);
    a.add_next(p1);
    a.add_next(p2);
    a.add_next(p3);
    a.del_in_list(1);
    assert_eq!(a.list_next().iter().copied().collect::<Vec<_>>(), vec![p1, p3]);
    // past the end: nothing removed
    a.del_in_list(7);
    assert_eq!(a.list_next().len(), 2);
    a.replace_in_list(0, p2);
    assert_eq!(a.list_next().iter().copied().collect::<Vec<_>>(), vec![p2, p3]);
    a.del_list();
    assert!(!a.has_next());
}

fn status(flags: [bool; 14]) -> Status {
    Status::new(
        flags[0], flags[1], flags[2], flags[3], flags[4], flags[5], flags[6], flags[7], flags[8],
        flags[9], flags[10], flags[11], flags[12], flags[13],
    )
}

#[test]
fn status_getters_give_the_flags() {
    let s = status([
        true, false, true, false, true, false, true, false, true, false, true, false, true, false,
    ]);
    assert!(s.door_right_open());
    assert!(!s.door_left_open());
    assert!(s.bassin_powered());
    assert!(!s.bassin_started());
    assert!(s.arr_urg());
    assert!(!s.arr_mom());
    assert!(s.movement_ex());
    assert!(!s.movement_ey());
    assert!(s.movement_ez());
    assert!(!s.movement_et());
    assert!(s.movement_rx());
    assert!(!s.movement_ry());
    assert!(s.movement_rz());
    assert!(!s.movement_rt());
}

#[test]
fn default_status_is_doors_open_and_basin_off() {
    let s = Status::default();
    assert!(s.door_right_open() && s.door_left_open());
    assert!(!s.bassin_powered() && !s.bassin_started());
    assert!(!s.arr_urg() && !s.arr_mom());
    assert!(!s.movement_ex() && !s.movement_rt());
}

#[test]
fn ne_compares_every_flag() {
    let base = [false; 14];
    let a = status(base);
    assert!(!a.ne(a));
    for i in 0..14 {
        let mut f = base;
        f[i] = true;
        let b = status(f);
        assert!(a.ne(b), "flag {}", i);
        assert!(b.ne(a), "flag {}", i);
    }
}
