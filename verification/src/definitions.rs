//! Shared vocabulary of the test basin: doors, motor drivers, commands,
//! positions, arms and the status word sent to the interface.
use std::collections::VecDeque;
use vstd::prelude::*;

verus! {

/// The four doors of the basin.
#[derive(Clone, Copy, Debug, PartialEq, Eq, Structural)]
pub enum Doors {
    GaucheBas,
    GaucheHaut,
    DroiteBas,
    DroiteHaut,
}

/// Text shown for a door.
pub open spec fn door_label(d: Doors) -> Seq<char> {
    match d {
        Doors::GaucheBas => "Porte Gauche Bas"@,
        Doors::GaucheHaut => "Porte Gauche Haut"@,
        Doors::DroiteBas => "Porte Droite Bas"@,
        Doors::DroiteHaut => "Porte Droite Haut"@,
    }
}

impl Doors {
    /// Human readable name of the door.
    pub fn to_string(&self) -> (s: String)
        ensures
            s@ == door_label(*self),
    {
        match self {
            Doors::GaucheBas => String::from_str("Porte Gauche Bas"),
            Doors::GaucheHaut => String::from_str("Porte Gauche Haut"),
            Doors::DroiteBas => String::from_str("Porte Droite Bas"),
            Doors::DroiteHaut => String::from_str("Porte Droite Haut"),
        }
    }
}

/// The motor drivers of the basin. The first eight each drive one axis of one
/// arm (`E` prefix: emitter arm, `R` prefix: receiver arm); `R`, `E` and `ALL`
/// designate the four drivers of the receiver arm, the four drivers of the
/// emitter arm, and all eight drivers.
#[derive(Clone, Copy, Debug, PartialEq, Eq, Structural)]
pub enum DriverType {
    EX,
    EY,
    EZ,
    ETHETA,
    RX,
    RY,
    RZ,
    RTHETA,
    R,
    E,
    ALL,
}

/// Text shown for a driver.
pub open spec fn driver_label(d: DriverType) -> Seq<char> {
    match d {
        DriverType::EX => "Driver du moteur X émetteur"@,
        DriverType::EY => "Driver du moteur Y émetteur"@,
        DriverType::EZ => "Driver du moteur Z émetteur"@,
        DriverType::ETHETA => "Driver du moteur Théta émetteur"@,
        DriverType::RX => "Driver du moteur X récepteur"@,
        DriverType::RY => "Driver du moteur Y récepteur"@,
        DriverType::RZ => "Driver du moteur Z récepteur"@,
        DriverType::RTHETA => "Driver du moteur Théta récepteur"@,
        DriverType::E => "Drivers des moteur émetteur"@,
        DriverType::R => "Drivers des moteur récepteur"@,
        DriverType::ALL => "Drivers de tout les moteurs"@,
    }
}

/// Every driver, in declaration order.
pub open spec fn all_drivers() -> Seq<DriverType> {
    seq![
        DriverType::EX,
        DriverType::EY,
        DriverType::EZ,
        DriverType::ETHETA,
        DriverType::RX,
        DriverType::RY,
        DriverType::RZ,
        DriverType::RTHETA,
        DriverType::R,
        DriverType::E,
        DriverType::ALL,
    ]
}

impl DriverType {
    /// The driver moves exactly one axis of one arm.
    pub open spec fn is_axis(self) -> bool {
        !(self is R || self is E || self is ALL)
    }

    /// The driver moves one axis of the emitter arm.
    pub open spec fn is_emitter_axis(self) -> bool {
        self is EX || self is EY || self is EZ || self is ETHETA
    }

    /// The driver moves one axis of the receiver arm.
    pub open spec fn is_receiver_axis(self) -> bool {
        self is RX || self is RY || self is RZ || self is RTHETA
    }

    /// Whether the driver moves exactly one axis of one arm.
    pub fn single(&self) -> (b: bool)
        ensures
            b == self.is_axis(),
    {
        !matches!(self, DriverType::R | DriverType::E | DriverType::ALL)
    }

    /// Rank of a single-axis driver: 0 to 3 on the emitter arm
    /// (X, Y, Z, θ), 4 to 7 on the receiver arm.
    pub open spec fn axis_rank(self) -> int {
        match self {
            DriverType::EX => 0,
            DriverType::EY => 1,
            DriverType::EZ => 2,
            DriverType::ETHETA => 3,
            DriverType::RX => 4,
            DriverType::RY => 5,
            DriverType::RZ => 6,
            DriverType::RTHETA => 7,
            _ => -1,
        }
    }

    /// Human readable name of the driver.
    pub fn to_string(&self) -> (s: String)
        ensures
            s@ == driver_label(*self),
    {
        match self {
            DriverType::EX => String::from_str("Driver du moteur X émetteur"),
            DriverType::EY => String::from_str("Driver du moteur Y émetteur"),
            DriverType::EZ => String::from_str("Driver du moteur Z émetteur"),
            DriverType::ETHETA => String::from_str("Driver du moteur Théta émetteur"),
            DriverType::RX => String::from_str("Driver du moteur X récepteur"),
            DriverType::RY => String::from_str("Driver du moteur Y récepteur"),
            DriverType::RZ => String::from_str("Driver du moteur Z récepteur"),
            DriverType::RTHETA => String::from_str("Driver du moteur Théta récepteur"),
            DriverType::E => String::from_str("Drivers des moteur émetteur"),
            DriverType::R => String::from_str("Drivers des moteur récepteur"),
            DriverType::ALL => String::from_str("Drivers de tout les moteurs"),
        }
    }

    /// Every driver, in declaration order (the order in which the
    /// configuration of the serial bridges walks them).
    pub fn all() -> (v: Vec<DriverType>)
        ensures
            v@ == all_drivers(),
    {
        let v = vec![
            DriverType::EX,
            DriverType::EY,
            DriverType::EZ,
            DriverType::ETHETA,
            DriverType::RX,
            DriverType::RY,
            DriverType::RZ,
            DriverType::RTHETA,
            DriverType::R,
            DriverType::E,
            DriverType::ALL,
        ];
        assert(v@ =~= all_drivers());
        v
    }
}

// A coordinate is held as the bit pattern of an IEEE-754 single precision
// number (millimetres for X, Y and Z, degrees for θ). The library only
// stores, compares and moves coordinates; arithmetic on them is left to the
// callers, which convert with `f32::from_bits` / `f32::to_bits`.

/// Bit pattern of -1417.0, the X origin of the emitter arm.
pub const ORIGIN_X_EMITTER: u32 = 0xC4B1_2000;

/// Bit pattern of 1417.0, the X origin of the receiver arm.
pub const ORIGIN_X_RECEIVER: u32 = 0x44B1_2000;

/// Bit pattern of 495.0, the Y origin of both arms.
pub const ORIGIN_Y: u32 = 0x43F7_8000;

/// Bit pattern of 0.0, the Z and θ origin of both arms.
pub const ORIGIN_ZERO: u32 = 0;

/// Position on the four axes x, y, z and θ (each coordinate as the bit
/// pattern of a single precision number).
#[derive(Clone, Copy, Debug, PartialEq, Eq, Structural)]
pub struct Position {
    pub x: u32,
    pub y: u32,
    pub z: u32,
    pub theta: u32,
}

impl Default for Position {
    fn default() -> (p: Self)
        ensures
            p == (Position { x: 0, y: 0, z: 0, theta: 0 }),
    {
        Position { x: 0, y: 0, z: 0, theta: 0 }
    }
}

impl Position {
    pub fn new(x: u32, y: u32, z: u32, theta: u32) -> (p: Self)
        ensures
            p == (Position { x, y, z, theta }),
    {
        Position { x, y, z, theta }
    }

    /// Replaces the position by `pos`.
    pub fn set_pos(&mut self, pos: Self)
        ensures
            *final(self) == pos,
    {
        *self = pos;
    }

    pub fn x(self) -> (r: u32)
        ensures
            r == self.x,
    {
        self.x
    }

    pub fn set_x(&mut self, value: u32)
        ensures
            *final(self) == (Position { x: value, ..*old(self) }),
    {
        self.x = value;
    }

    pub fn y(self) -> (r: u32)
        ensures
            r == self.y,
    {
        self.y
    }

    pub fn set_y(&mut self, value: u32)
        ensures
            *final(self) == (Position { y: value, ..*old(self) }),
    {
        self.y = value;
    }

    pub fn z(self) -> (r: u32)
        ensures
            r == self.z,
    {
        self.z
    }

    pub fn set_z(&mut self, value: u32)
        ensures
            *final(self) == (Position { z: value, ..*old(self) }),
    {
        self.z = value;
    }

    pub fn theta(self) -> (r: u32)
        ensures
            r == self.theta,
    {
        self.theta
    }

    pub fn set_theta(&mut self, value: u32)
        ensures
            *final(self) == (Position { theta: value, ..*old(self) }),
    {
        self.theta = value;
    }
}

/// Commands sent by the interface to the basin.
#[derive(Clone, Copy, Debug)]
pub enum Command {
    /// Move the given drivers, toward the next position of the emitter arm
    /// and the next position of the receiver arm.
    Go(DriverType, Position, Position),
    Reset(DriverType),
    Zero(DriverType),
    ArrUrg,
    StopArrUrg,
    ArrMom,
    StopArrMom,
    Start,
    Stop,
}

/// The origin of an arm (where `Arm::new` puts it and where `Arm::origin`
/// sends it).
pub open spec fn origin_of(is_emitter: bool) -> Position {
    Position {
        x: if is_emitter { ORIGIN_X_EMITTER } else { ORIGIN_X_RECEIVER },
        y: ORIGIN_Y,
        z: ORIGIN_ZERO,
        theta: ORIGIN_ZERO,
    }
}

fn origin_position(is_emitter: bool) -> (p: Position)
    ensures
        p == origin_of(is_emitter),
{
    Position {
        x: if is_emitter { ORIGIN_X_EMITTER } else { ORIGIN_X_RECEIVER },
        y: ORIGIN_Y,
        z: ORIGIN_ZERO,
        theta: ORIGIN_ZERO,
    }
}

/// One arm of the basin: where it stands, and the queue of the positions it
/// is to visit next (front first).
#[derive(Clone, Debug)]
pub struct Arm {
    position: Position,
    list_next: VecDeque<Position>,
    is_emitter: bool,
}

impl Default for Arm {
    fn default() -> (a: Self)
        ensures
            a.current() == Position::spec_default(),
            a.queue() == Seq::<Position>::empty(),
            a.emitter(),
    {
        Arm { position: Position::default(), list_next: VecDeque::new(), is_emitter: true }
    }
}

impl Position {
    /// The position `Position::default` gives.
    pub open spec fn spec_default() -> Position {
        Position { x: 0, y: 0, z: 0, theta: 0 }
    }
}

impl Arm {
    /// Where the arm stands.
    pub closed spec fn current(&self) -> Position {
        self.position
    }

    /// The positions the arm is to visit next, front first.
    pub closed spec fn queue(&self) -> Seq<Position> {
        self.list_next@
    }

    /// Whether this is the emitter arm.
    pub closed spec fn emitter(&self) -> bool {
        self.is_emitter
    }

    /// An arm standing at its origin, with nothing queued.
    pub fn new(is_emitter: bool) -> (a: Self)
        ensures
            a.current() == origin_of(is_emitter),
            a.queue() == Seq::<Position>::empty(),
            a.emitter() == is_emitter,
    {
        Arm { position: origin_position(is_emitter), list_next: VecDeque::new(), is_emitter }
    }

    /// Queues the origin in front of the queue.
    pub fn origin(&mut self)
        ensures
            final(self).queue() == seq![origin_of(old(self).emitter())] + old(self).queue(),
            final(self).current() == old(self).current(),
            final(self).emitter() == old(self).emitter(),
    {
        let p = origin_position(self.is_emitter);
        self.list_next.push_front(p);
    }

    /// Queues, in front, the current position with X at its origin.
    pub fn origin_x(&mut self)
        ensures
            final(self).queue() == seq![
                Position { x: origin_of(old(self).emitter()).x, ..old(self).current() },
            ] + old(self).queue(),
            final(self).current() == old(self).current(),
            final(self).emitter() == old(self).emitter(),
    {
        let mut new_pos = self.position();
        new_pos.set_x(if self.is_emitter() { ORIGIN_X_EMITTER } else { ORIGIN_X_RECEIVER });
        self.list_next.push_front(new_pos);
    }

    /// Queues, in front, the current position with Y at its origin.
    pub fn origin_y(&mut self)
        ensures
            final(self).queue() == seq![Position { y: ORIGIN_Y, ..old(self).current() }]
                + old(self).queue(),
            final(self).current() == old(self).current(),
            final(self).emitter() == old(self).emitter(),
    {
        let mut new_pos = self.position();
        new_pos.set_y(ORIGIN_Y);
        self.list_next.push_front(new_pos);
    }

    /// Queues, in front, the current position with Z at its origin.
    pub fn origin_z(&mut self)
        ensures
            final(self).queue() == seq![Position { z: ORIGIN_ZERO, ..old(self).current() }]
                + old(self).queue(),
            final(self).current() == old(self).current(),
            final(self).emitter() == old(self).emitter(),
    {
        let mut new_pos = self.position();
        new_pos.set_z(ORIGIN_ZERO);
        self.list_next.push_front(new_pos);
    }

    /// Queues, in front, the current position with θ at its origin.
    pub fn origin_theta(&mut self)
        ensures
            final(self).queue() == seq![Position { theta: ORIGIN_ZERO, ..old(self).current() }]
                + old(self).queue(),
            final(self).current() == old(self).current(),
            final(self).emitter() == old(self).emitter(),
    {
        let mut new_pos = self.position();
        new_pos.set_theta(ORIGIN_ZERO);
        self.list_next.push_front(new_pos);
    }

    pub fn position(&self) -> (p: Position)
        ensures
            p == self.current(),
    {
        self.position
    }

    pub fn set_position(&mut self, pos: Position)
        ensures
            final(self).current() == pos,
            final(self).queue() == old(self).queue(),
            final(self).emitter() == old(self).emitter(),
    {
        self.position = pos;
    }

    /// Whether a position is queued.
    pub fn has_next(&self) -> (b: bool)
        ensures
            b == (self.queue().len() > 0),
    {
        self.list_next.len() != 0
    }

    /// Empties the queue.
    pub fn del_list(&mut self)
        ensures
            final(self).queue() == Seq::<Position>::empty(),
            final(self).current() == old(self).current(),
            final(self).emitter() == old(self).emitter(),
    {
        self.list_next = VecDeque::new();
    }

    /// Removes the queued position at `index`; an index past the end leaves
    /// the queue as it is.
    pub fn del_in_list(&mut self, index: usize)
        ensures
            final(self).queue() == if index < old(self).queue().len() {
                old(self).queue().remove(index as int)
            } else {
                old(self).queue()
            },
            final(self).current() == old(self).current(),
            final(self).emitter() == old(self).emitter(),
    {
        let _ = self.list_next.remove(index);
    }

    /// Replaces the queued position at `index` by `pos`.
    pub fn replace_in_list(&mut self, index: usize, pos: Position)
        requires
            index < old(self).queue().len(),
        ensures
            final(self).queue() == old(self).queue().update(index as int, pos),
            final(self).current() == old(self).current(),
            final(self).emitter() == old(self).emitter(),
    {
        let _ = self.list_next.remove(index);
        self.list_next.insert(index, pos);
        assert(self.list_next@ =~= old(self).list_next@.update(index as int, pos));
    }

    /// The position at the front of the queue, if any.
    pub fn next(&self) -> (r: Option<Position>)
        ensures
            r == if self.queue().len() > 0 {
                Some(self.queue()[0])
            } else {
                None::<Position>
            },
    {
        if self.has_next() {
            Some(self.list_next[0])
        } else {
            None
        }
    }

    /// A copy of the queue.
    pub fn list_next(&self) -> (l: VecDeque<Position>)
        ensures
            l@ == self.queue(),
    {
        let l = self.list_next.clone();
        assert(l@ =~= self.list_next@);
        l
    }

    /// Queues `pos` at the back of the queue.
    pub fn add_next(&mut self, pos: Position)
        ensures
            final(self).queue() == old(self).queue().push(pos),
            final(self).current() == old(self).current(),
            final(self).emitter() == old(self).emitter(),
    {
        self.list_next.push_back(pos);
    }

    /// Moves the arm from its current position to the next one, which leaves
    /// the queue; with nothing queued the arm stays as it is.
    pub fn move_next(&mut self)
        ensures
            old(self).queue().len() > 0 ==> final(self).current() == old(self).queue()[0]
                && final(self).queue() == old(self).queue().drop_first(),
            old(self).queue().len() == 0 ==> final(self).current() == old(self).current()
                && final(self).queue() == old(self).queue(),
            final(self).emitter() == old(self).emitter(),
    {
        if self.has_next() {
            match self.list_next.pop_front() {
                Some(pos) => {
                    self.set_position(pos);
                    assert(self.list_next@ =~= old(self).list_next@.drop_first());
                },
                None => {},
            }
        }
    }

    /// Takes the X coordinate of the next position, if any; the queue stays.
    pub fn move_next_x(&mut self)
        ensures
            final(self).current() == if old(self).queue().len() > 0 {
                Position { x: old(self).queue()[0].x, ..old(self).current() }
            } else {
                old(self).current()
            },
            final(self).queue() == old(self).queue(),
            final(self).emitter() == old(self).emitter(),
    {
        if self.has_next() {
            let v: u32 = self.list_next[0].x();
            self.position.set_x(v);
        }
    }

    /// Takes the Y coordinate of the next position, if any; the queue stays.
    pub fn move_next_y(&mut self)
        ensures
            final(self).current() == if old(self).queue().len() > 0 {
                Position { y: old(self).queue()[0].y, ..old(self).current() }
            } else {
                old(self).current()
            },
            final(self).queue() == old(self).queue(),
            final(self).emitter() == old(self).emitter(),
    {
        if self.has_next() {
            let v: u32 = self.list_next[0].y();
            self.position.set_y(v);
        }
    }

    /// Takes the Z coordinate of the next position, if any; the queue stays.
    pub fn move_next_z(&mut self)
        ensures
            final(self).current() == if old(self).queue().len() > 0 {
                Position { z: old(self).queue()[0].z, ..old(self).current() }
            } else {
                old(self).current()
            },
            final(self).queue() == old(self).queue(),
            final(self).emitter() == old(self).emitter(),
    {
        if self.has_next() {
            let v: u32 = self.list_next[0].z();
            self.position.set_z(v);
        }
    }

    /// Takes the θ coordinate of the next position, if any; the queue stays.
    pub fn move_next_theta(&mut self)
        ensures
            final(self).current() == if old(self).queue().len() > 0 {
                Position { theta: old(self).queue()[0].theta, ..old(self).current() }
            } else {
                old(self).current()
            },
            final(self).queue() == old(self).queue(),
            final(self).emitter() == old(self).emitter(),
    {
        if self.has_next() {
            let v: u32 = self.list_next[0].theta();
            self.position.set_theta(v);
        }
    }

    pub fn is_emitter(&self) -> (b: bool)
        ensures
            b == self.emitter(),
    {
        self.is_emitter
    }
}

/// The state of the basin as seen by its sensors.
#[derive(Clone, Copy, Debug)]
pub struct Status {
    pub door_right_open: bool,
    pub door_left_open: bool,
    pub bassin_powered: bool,
    pub bassin_started: bool,
    pub arr_urg: bool,
    pub arr_mom: bool,
    pub movement_ex: bool,
    pub movement_ey: bool,
    pub movement_ez: bool,
    pub movement_et: bool,
    pub movement_rx: bool,
    pub movement_ry: bool,
    pub movement_rz: bool,
    pub movement_rt: bool,
}

impl Default for Status {
    /// Doors open, basin off, nothing moving.
    fn default() -> (s: Self)
        ensures
            s == Status::spec_default(),
    {
        Status {
            door_right_open: true,
            door_left_open: true,
            bassin_powered: false,
            bassin_started: false,
            arr_urg: false,
            arr_mom: false,
            movement_ex: false,
            movement_ey: false,
            movement_ez: false,
            movement_et: false,
            movement_rx: false,
            movement_ry: false,
            movement_rz: false,
            movement_rt: false,
        }
    }
}

impl Status {
    /// The status `Status::default` gives.
    pub open spec fn spec_default() -> Status {
        Status {
            door_right_open: true,
            door_left_open: true,
            bassin_powered: false,
            bassin_started: false,
            arr_urg: false,
            arr_mom: false,
            movement_ex: false,
            movement_ey: false,
            movement_ez: false,
            movement_et: false,
            movement_rx: false,
            movement_ry: false,
            movement_rz: false,
            movement_rt: false,
        }
    }

    /// The two statuses differ on at least one flag.
    pub open spec fn differs_from(self, other: Status) -> bool {
        ||| self.door_left_open != other.door_left_open
        ||| self.door_right_open != other.door_right_open
        ||| self.bassin_powered != other.bassin_powered
        ||| self.bassin_started != other.bassin_started
        ||| self.arr_urg != other.arr_urg
        ||| self.arr_mom != other.arr_mom
        ||| self.movement_ex != other.movement_ex
        ||| self.movement_ey != other.movement_ey
        ||| self.movement_ez != other.movement_ez
        ||| self.movement_et != other.movement_et
        ||| self.movement_rx != other.movement_rx
        ||| self.movement_ry != other.movement_ry
        ||| self.movement_rz != other.movement_rz
        ||| self.movement_rt != other.movement_rt
    }

    pub fn new(
        door_right_open: bool,
        door_left_open: bool,
        bassin_powered: bool,
        bassin_started: bool,
        arr_urg: bool,
        arr_mom: bool,
        movement_ex: bool,
        movement_ey: bool,
        movement_ez: bool,
        movement_et: bool,
        movement_rx: bool,
        movement_ry: bool,
        movement_rz: bool,
        movement_rt: bool,
    ) -> (s: Self)
        ensures
            s == (Status {
                door_right_open,
                door_left_open,
                bassin_powered,
                bassin_started,
                arr_urg,
                arr_mom,
                movement_ex,
                movement_ey,
                movement_ez,
                movement_et,
                movement_rx,
                movement_ry,
                movement_rz,
                movement_rt,
            }),
    {
        Status {
            door_right_open,
            door_left_open,
            bassin_powered,
            bassin_started,
            arr_urg,
            arr_mom,
            movement_ex,
            movement_ey,
            movement_ez,
            movement_et,
            movement_rx,
            movement_ry,
            movement_rz,
            movement_rt,
        }
    }

    /// Whether the two statuses differ on at least one flag.
    pub fn ne(self, equal: Self) -> (r: bool)
        ensures
            r == self.differs_from(equal),
    {
        if self.door_left_open() != equal.door_left_open() {
            return true;
        }
        if self.door_right_open() != equal.door_right_open() {
            return true;
        }
        if self.bassin_powered() != equal.bassin_powered() {
            return true;
        }
        if self.bassin_started() != equal.bassin_started() {
            return true;
        }
        if self.arr_urg() != equal.arr_urg() {
            return true;
        }
        if self.arr_mom() != equal.arr_mom() {
            return true;
        }
        if self.movement_ex() != equal.movement_ex() {
            return true;
        }
        if self.movement_ey() != equal.movement_ey() {
            return true;
        }
        if self.movement_ez() != equal.movement_ez() {
            return true;
        }
        if self.movement_et() != equal.movement_et() {
            return true;
        }
        if self.movement_rx() != equal.movement_rx() {
            return true;
        }
        if self.movement_ry() != equal.movement_ry() {
            return true;
        }
        if self.movement_rz() != equal.movement_rz() {
            return true;
        }
        if self.movement_rt() != equal.movement_rt() {
            return true;
        }
        false
    }

    pub fn door_right_open(self) -> (r: bool)
        ensures
            r == self.door_right_open,
    {
        self.door_right_open
    }

    pub fn door_left_open(self) -> (r: bool)
        ensures
            r == self.door_left_open,
    {
        self.door_left_open
    }

    pub fn bassin_powered(self) -> (r: bool)
        ensures
            r == self.bassin_powered,
    {
        self.bassin_powered
    }

    pub fn bassin_started(self) -> (r: bool)
        ensures
            r == self.bassin_started,
    {
        self.bassin_started
    }

    pub fn arr_urg(self) -> (r: bool)
        ensures
            r == self.arr_urg,
    {
        self.arr_urg
    }

    pub fn arr_mom(self) -> (r: bool)
        ensures
            r == self.arr_mom,
    {
        self.arr_mom
    }

    pub fn movement_ex(self) -> (r: bool)
        ensures
            r == self.movement_ex,
    {
        self.movement_ex
    }

    pub fn movement_ey(self) -> (r: bool)
        ensures
            r == self.movement_ey,
    {
        self.movement_ey
    }

    pub fn movement_ez(self) -> (r: bool)
        ensures
            r == self.movement_ez,
    {
        self.movement_ez
    }

    pub fn movement_et(self) -> (r: bool)
        ensures
            r == self.movement_et,
    {
        self.movement_et
    }

    pub fn movement_rx(self) -> (r: bool)
        ensures
            r == self.movement_rx,
    {
        self.movement_rx
    }

    pub fn movement_ry(self) -> (r: bool)
        ensures
            r == self.movement_ry,
    {
        self.movement_ry
    }

    pub fn movement_rz(self) -> (r: bool)
        ensures
            r == self.movement_rz,
    {
        self.movement_rz
    }

    pub fn movement_rt(self) -> (r: bool)
        ensures
            r == self.movement_rt,
    {
        self.movement_rt
    }
}

/// `ne` never reports a status as different from itself.
pub proof fn lemma_ne_irreflexive(s: Status)
    ensures
        !s.differs_from(s),
{
}

/// `ne` is symmetric.
pub proof fn lemma_ne_symmetric(a: Status, b: Status)
    ensures
        a.differs_from(b) == b.differs_from(a),
{
}

/// Two statuses are different exactly when `ne` reports them as such.
pub proof fn lemma_ne_is_inequality(a: Status, b: Status)
    ensures
        a.differs_from(b) <==> a != b,
{
}

} // verus!
