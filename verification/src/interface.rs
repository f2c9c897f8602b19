//! The bookkeeping of the operator interface: the two arms as the interface
//! sees them, the positions being edited, the drivers it considers in
//! motion, the last status received and the errors to show. Drawing, the
//! connection and files are the caller's part; this module says which command
//! each button sends and how the state evolves.
use crate::definitions::{
    origin_of, Arm, Command, DriverType, Position, Status, ORIGIN_Y, ORIGIN_ZERO,
};
use crate::error::{error_driver, HardwareError};
use vstd::prelude::*;

verus! {

/// An arm as the bookkeeping sees it: where it stands and its queue.
pub type ArmState = (Position, Seq<Position>);

/// The state of an arm.
pub open spec fn arm_state(a: Arm) -> ArmState {
    (a.current(), a.queue())
}

/// The arm takes the whole next position, which leaves the queue.
pub open spec fn take_next(s: ArmState) -> ArmState {
    if s.1.len() > 0 {
        (s.1[0], s.1.drop_first())
    } else {
        s
    }
}

/// The arm takes the X coordinate of the next position.
pub open spec fn take_next_x(s: ArmState) -> ArmState {
    if s.1.len() > 0 {
        (Position { x: s.1[0].x, ..s.0 }, s.1)
    } else {
        s
    }
}

/// The arm takes the Y coordinate of the next position.
pub open spec fn take_next_y(s: ArmState) -> ArmState {
    if s.1.len() > 0 {
        (Position { y: s.1[0].y, ..s.0 }, s.1)
    } else {
        s
    }
}

/// The arm takes the Z coordinate of the next position.
pub open spec fn take_next_z(s: ArmState) -> ArmState {
    if s.1.len() > 0 {
        (Position { z: s.1[0].z, ..s.0 }, s.1)
    } else {
        s
    }
}

/// The arm takes the θ coordinate of the next position.
pub open spec fn take_next_theta(s: ArmState) -> ArmState {
    if s.1.len() > 0 {
        (Position { theta: s.1[0].theta, ..s.0 }, s.1)
    } else {
        s
    }
}

/// The drivers the interface marks as in motion when it sends a command to
/// `dt`: the single-axis drivers concerned, each group followed by the marker
/// of its arm (`E` or `R`).
pub open spec fn marked_for(dt: DriverType) -> Seq<DriverType> {
    match dt {
        DriverType::E => seq![DriverType::EX, DriverType::EY, DriverType::EZ, DriverType::ETHETA, DriverType::E],
        DriverType::R => seq![DriverType::RX, DriverType::RY, DriverType::RZ, DriverType::RTHETA, DriverType::R],
        DriverType::ALL => seq![
            DriverType::EX,
            DriverType::EY,
            DriverType::EZ,
            DriverType::ETHETA,
            DriverType::E,
            DriverType::RX,
            DriverType::RY,
            DriverType::RZ,
            DriverType::RTHETA,
            DriverType::R,
        ],
        _ => if dt.is_emitter_axis() {
            seq![dt, DriverType::E]
        } else {
            seq![dt, DriverType::R]
        },
    }
}

/// The queue of the emitter arm after an origin command to `dt`.
pub open spec fn left_queue_after_origin(dt: DriverType, a: Arm) -> Seq<Position> {
    match dt {
        DriverType::E | DriverType::ALL => seq![origin_of(a.emitter())] + a.queue(),
        DriverType::EX => seq![Position { x: origin_of(a.emitter()).x, ..a.current() }] + a.queue(),
        DriverType::EY => seq![Position { y: ORIGIN_Y, ..a.current() }] + a.queue(),
        DriverType::EZ => seq![Position { z: ORIGIN_ZERO, ..a.current() }] + a.queue(),
        DriverType::ETHETA => seq![Position { theta: ORIGIN_ZERO, ..a.current() }] + a.queue(),
        _ => a.queue(),
    }
}

/// The queue of the receiver arm after an origin command to `dt`.
pub open spec fn right_queue_after_origin(dt: DriverType, a: Arm) -> Seq<Position> {
    match dt {
        DriverType::R | DriverType::ALL => seq![origin_of(a.emitter())] + a.queue(),
        DriverType::RX => seq![Position { x: origin_of(a.emitter()).x, ..a.current() }] + a.queue(),
        DriverType::RY => seq![Position { y: ORIGIN_Y, ..a.current() }] + a.queue(),
        DriverType::RZ => seq![Position { z: ORIGIN_ZERO, ..a.current() }] + a.queue(),
        DriverType::RTHETA => seq![Position { theta: ORIGIN_ZERO, ..a.current() }] + a.queue(),
        _ => a.queue(),
    }
}

/// The target an arm is sent toward: its next position, or where it stands
/// when nothing is queued.
pub open spec fn target_of(a: Arm) -> Position {
    if a.queue().len() > 0 {
        a.queue()[0]
    } else {
        a.current()
    }
}

/// `s` without its first occurrence of `x` (unchanged when `x` is absent).
pub open spec fn remove_first(s: Seq<DriverType>, x: DriverType) -> Seq<DriverType>
    decreases s.len(),
{
    if s.len() == 0 {
        s
    } else if s[0] == x {
        s.drop_first()
    } else {
        seq![s[0]] + remove_first(s.drop_first(), x)
    }
}

/// The drivers in motion and the errors to show after the interface read
/// the outcomes `results` of a command: each error joins the errors, and an
/// error about a driver takes one mark of that driver away.
pub open spec fn absorb(
    used: Seq<DriverType>,
    errs: Seq<HardwareError>,
    results: Seq<Result<(), HardwareError>>,
) -> (Seq<DriverType>, Seq<HardwareError>)
    decreases results.len(),
{
    if results.len() == 0 {
        (used, errs)
    } else {
        match results[0] {
            Ok(_) => absorb(used, errs, results.drop_first()),
            Err(e) => {
                let used2 = match error_driver(e) {
                    Some(dt) => remove_first(used, dt),
                    None => used,
                };
                absorb(used2, errs.push(e), results.drop_first())
            },
        }
    }
}

/// What the interface does with the first mark of `rest`, given the last
/// status: the marks kept so far and the two arms afterwards. A single-axis
/// driver whose movement flag is clear loses its mark and its arm takes the
/// matching coordinate of its next position; an arm marker (`E` or `R`)
/// always loses its mark, and its arm takes its whole next position when
/// none of the X, Y and θ drivers of that arm is marked any more; `ALL`
/// keeps its mark.
///
/// The Z mark is deliberately not consulted: an arm takes its whole next
/// position once its X, Y and θ drivers are done, whether or not its Z
/// driver still moves.
pub open spec fn mark_step(
    kept: Seq<DriverType>,
    rest: Seq<DriverType>,
    left: ArmState,
    right: ArmState,
    st: Status,
) -> (Seq<DriverType>, ArmState, ArmState) {
    let d = rest[0];
    let cur = kept + rest;
    match d {
        DriverType::EX => if !st.movement_ex {
            (kept, take_next_x(left), right)
        } else {
            (kept.push(d), left, right)
        },
        DriverType::EY => if !st.movement_ey {
            (kept, take_next_y(left), right)
        } else {
            (kept.push(d), left, right)
        },
        DriverType::EZ => if !st.movement_ez {
            (kept, take_next_z(left), right)
        } else {
            (kept.push(d), left, right)
        },
        DriverType::ETHETA => if !st.movement_et {
            (kept, take_next_theta(left), right)
        } else {
            (kept.push(d), left, right)
        },
        DriverType::RX => if !st.movement_rx {
            (kept, left, take_next_x(right))
        } else {
            (kept.push(d), left, right)
        },
        DriverType::RY => if !st.movement_ry {
            (kept, left, take_next_y(right))
        } else {
            (kept.push(d), left, right)
        },
        DriverType::RZ => if !st.movement_rz {
            (kept, left, take_next_z(right))
        } else {
            (kept.push(d), left, right)
        },
        DriverType::RTHETA => if !st.movement_rt {
            (kept, left, take_next_theta(right))
        } else {
            (kept.push(d), left, right)
        },
        DriverType::E => if !(cur.contains(DriverType::EX) || cur.contains(DriverType::EY)
            || cur.contains(DriverType::ETHETA)) {
            (kept, take_next(left), right)
        } else {
            (kept, left, right)
        },
        DriverType::R => if !(cur.contains(DriverType::RX) || cur.contains(DriverType::RY)
            || cur.contains(DriverType::RTHETA)) {
            (kept, left, take_next(right))
        } else {
            (kept, left, right)
        },
        DriverType::ALL => (kept.push(d), left, right),
    }
}

/// One pass of the interface over the drivers it marked as in motion, given
/// the last status: `kept` are the marks already looked at and kept, `rest`
/// those still to look at (see `mark_step`).
pub open spec fn sync_marks(
    kept: Seq<DriverType>,
    rest: Seq<DriverType>,
    left: ArmState,
    right: ArmState,
    st: Status,
) -> (Seq<DriverType>, ArmState, ArmState)
    decreases rest.len(),
{
    if rest.len() == 0 {
        (kept, left, right)
    } else {
        let next = mark_step(kept, rest, left, right, st);
        sync_marks(next.0, rest.drop_first(), next.1, next.2, st)
    }
}

/// The status the interface assumes before the basin reports one.
pub open spec fn initial_status() -> Status {
    Status {
        door_right_open: false,
        door_left_open: false,
        bassin_powered: true,
        bassin_started: true,
        arr_urg: false,
        arr_mom: false,
        movement_ex: false,
        movement_ey: false,
        movement_ez: false,
        movement_et: false,
        movement_rx: true,
        movement_ry: false,
        movement_rz: false,
        movement_rt: false,
    }
}

/// The state of the operator interface.
pub struct TemplateApp {
    /// The emitter arm.
    pub left: Arm,
    /// The receiver arm.
    pub right: Arm,
    /// The position being edited for the emitter arm.
    pub next_e: Position,
    /// The position being edited for the receiver arm.
    pub next_r: Position,
    /// The drivers the interface considers in motion (with a marker `E` or
    /// `R` per arm command).
    pub driver_used: Vec<DriverType>,
    /// The last status received, if any.
    pub status: Option<Status>,
    /// The errors to show.
    pub err_list: Vec<HardwareError>,
}

impl Default for TemplateApp {
    /// Both arms at their origin with nothing queued; both edited positions
    /// at the origin of the emitter arm.
    fn default() -> (app: Self)
        ensures
            app.left.current() == origin_of(true),
            app.left.queue() == Seq::<Position>::empty(),
            app.left.emitter(),
            app.right.current() == origin_of(false),
            app.right.queue() == Seq::<Position>::empty(),
            !app.right.emitter(),
            app.next_e == origin_of(true),
            app.next_r == origin_of(true),
            app.driver_used@ == Seq::<DriverType>::empty(),
            app.status == Some(initial_status()),
            app.err_list@ == Seq::<HardwareError>::empty(),
    {
        let left_arm = Arm::new(true);
        let right_arm = Arm::new(false);
        let next_e = left_arm.position();
        let next_r = left_arm.position();
        TemplateApp {
            left: left_arm,
            right: right_arm,
            next_e,
            next_r,
            driver_used: Vec::new(),
            status: Some(
                Status::new(
                    false,
                    false,
                    true,
                    true,
                    false,
                    false,
                    false,
                    false,
                    false,
                    false,
                    true,
                    false,
                    false,
                    false,
                ),
            ),
            err_list: Vec::new(),
        }
    }
}

fn push_marks(used: &mut Vec<DriverType>, dt: DriverType)
    ensures
        final(used)@ == old(used)@ + marked_for(dt),
{
    match dt {
        DriverType::E => {
            used.push(DriverType::EX);
            used.push(DriverType::EY);
            used.push(DriverType::EZ);
            used.push(DriverType::ETHETA);
            used.push(DriverType::E);
        },
        DriverType::R => {
            used.push(DriverType::RX);
            used.push(DriverType::RY);
            used.push(DriverType::RZ);
            used.push(DriverType::RTHETA);
            used.push(DriverType::R);
        },
        DriverType::ALL => {
            used.push(DriverType::EX);
            used.push(DriverType::EY);
            used.push(DriverType::EZ);
            used.push(DriverType::ETHETA);
            used.push(DriverType::E);
            used.push(DriverType::RX);
            used.push(DriverType::RY);
            used.push(DriverType::RZ);
            used.push(DriverType::RTHETA);
            used.push(DriverType::R);
        },
        DriverType::EX | DriverType::EY | DriverType::EZ | DriverType::ETHETA => {
            used.push(dt);
            used.push(DriverType::E);
        },
        _ => {
            used.push(dt);
            used.push(DriverType::R);
        },
    }
    assert(used@ =~= old(used)@ + marked_for(dt));
}

fn contains_driver(v: &Vec<DriverType>, d: DriverType) -> (b: bool)
    ensures
        b == v@.contains(d),
{
    let mut i: usize = 0;
    while i < v.len()
        invariant
            i <= v@.len(),
            forall|k: int| 0 <= k < i ==> v@[k] != d,
        decreases v@.len() - i,
    {
        if v[i] == d {
            assert(v@[i as int] == d);
            return true;
        }
        i = i + 1;
    }
    false
}

/// Removing the first occurrence of `x`, found at `i`, is removing index `i`.
proof fn lemma_remove_first_at(s: Seq<DriverType>, x: DriverType, i: int)
    requires
        0 <= i < s.len(),
        s[i] == x,
        forall|k: int| 0 <= k < i ==> s[k] != x,
    ensures
        remove_first(s, x) == s.remove(i),
    decreases i,
{
    if i > 0 {
        lemma_remove_first_at(s.drop_first(), x, i - 1);
        assert(s.remove(i) =~= seq![s[0]] + s.drop_first().remove(i - 1));
    } else {
        assert(s.remove(0) =~= s.drop_first());
    }
}

/// Removing an absent element changes nothing.
proof fn lemma_remove_first_absent(s: Seq<DriverType>, x: DriverType)
    requires
        !s.contains(x),
    ensures
        remove_first(s, x) == s,
    decreases s.len(),
{
    if s.len() > 0 {
        assert(!s.drop_first().contains(x)) by {
            if s.drop_first().contains(x) {
                let k: int = choose|k: int| 0 <= k < s.drop_first().len() && s.drop_first()[k] == x;
                assert(s[k + 1] == x);
            }
        }
        assert(s[0] != x) by {
            if s[0] == x {
                assert(s.contains(x));
            }
        }
        lemma_remove_first_absent(s.drop_first(), x);
        assert(s =~= seq![s[0]] + s.drop_first());
    }
}

fn release_driver(used: &mut Vec<DriverType>, dt: DriverType)
    ensures
        final(used)@ == remove_first(old(used)@, dt),
{
    let mut i: usize = 0;
    while i < used.len()
        invariant
            i <= used@.len(),
            used@ == old(used)@,
            forall|k: int| 0 <= k < i ==> used@[k] != dt,
        decreases used@.len() - i,
    {
        if used[i] == dt {
            proof {
                lemma_remove_first_at(used@, dt, i as int);
            }
            used.remove(i);
            return;
        }
        i = i + 1;
    }
    proof {
        assert(!used@.contains(dt)) by {
            if used@.contains(dt) {
                let k: int = choose|k: int| 0 <= k < used@.len() && used@[k] == dt;
                assert(used@[k] != dt);
            }
        }
        lemma_remove_first_absent(used@, dt);
    }
}

impl TemplateApp {
    /// Sends `dt` to its origin: the origin (or, for a single driver, the
    /// current position with that coordinate at its origin) is queued in
    /// front of the arm concerned, and the drivers are marked as in motion.
    /// Returns the command to send.
    pub fn origin(&mut self, dt: DriverType) -> (c: Command)
        ensures
            c == Command::Zero(dt),
            final(self).left.queue() == left_queue_after_origin(dt, old(self).left),
            final(self).right.queue() == right_queue_after_origin(dt, old(self).right),
            final(self).left.current() == old(self).left.current(),
            final(self).right.current() == old(self).right.current(),
            final(self).left.emitter() == old(self).left.emitter(),
            final(self).right.emitter() == old(self).right.emitter(),
            final(self).driver_used@ == old(self).driver_used@ + marked_for(dt),
            final(self).next_e == old(self).next_e,
            final(self).next_r == old(self).next_r,
            final(self).status == old(self).status,
            final(self).err_list@ == old(self).err_list@,
    {
        match dt {
            DriverType::E => self.left.origin(),
            DriverType::R => self.right.origin(),
            DriverType::ALL => {
                self.right.origin();
                self.left.origin();
            },
            DriverType::EX => self.left.origin_x(),
            DriverType::EY => self.left.origin_y(),
            DriverType::EZ => self.left.origin_z(),
            DriverType::ETHETA => self.left.origin_theta(),
            DriverType::RX => self.right.origin_x(),
            DriverType::RY => self.right.origin_y(),
            DriverType::RZ => self.right.origin_z(),
            DriverType::RTHETA => self.right.origin_theta(),
        }
        push_marks(&mut self.driver_used, dt);
        Command::Zero(dt)
    }

    /// Moves `dt` toward the next queued positions (or the current one of an
    /// arm with nothing queued) and marks the drivers as in motion. Returns
    /// the command to send.
    pub fn move_next(&mut self, dt: DriverType) -> (c: Command)
        ensures
            c == Command::Go(dt, target_of(old(self).left), target_of(old(self).right)),
            final(self).driver_used@ == old(self).driver_used@ + marked_for(dt),
            final(self).left == old(self).left,
            final(self).right == old(self).right,
            final(self).next_e == old(self).next_e,
            final(self).next_r == old(self).next_r,
            final(self).status == old(self).status,
            final(self).err_list@ == old(self).err_list@,
    {
        let pos_e = match self.left.next() {
            Some(pos) => pos,
            None => self.left.position(),
        };
        let pos_r = match self.right.next() {
            Some(pos) => pos,
            None => self.right.position(),
        };
        push_marks(&mut self.driver_used, dt);
        Command::Go(dt, pos_e, pos_r)
    }

    /// The command that resets `dt`.
    pub fn reset_driver(&self, dt: DriverType) -> (c: Command)
        ensures
            c == Command::Reset(dt),
    {
        Command::Reset(dt)
    }

    /// The command that starts the basin.
    pub fn start(&self) -> (c: Command)
        ensures
            c == Command::Start,
    {
        Command::Start
    }

    /// The command that stops the basin.
    pub fn stop(&self) -> (c: Command)
        ensures
            c == Command::Stop,
    {
        Command::Stop
    }

    /// The command that sets (`state`) or clears the emergency stop.
    pub fn arr_urg(&self, state: bool) -> (c: Command)
        ensures
            c == if state {
                Command::ArrUrg
            } else {
                Command::StopArrUrg
            },
    {
        if state {
            Command::ArrUrg
        } else {
            Command::StopArrUrg
        }
    }

    /// Replaces the queues of both arms by the positions of a loaded file.
    pub fn load_positions(&mut self, left_next: Vec<Position>, right_next: Vec<Position>)
        ensures
            final(self).left.queue() == left_next@,
            final(self).right.queue() == right_next@,
            final(self).left.current() == old(self).left.current(),
            final(self).right.current() == old(self).right.current(),
            final(self).left.emitter() == old(self).left.emitter(),
            final(self).right.emitter() == old(self).right.emitter(),
            final(self).next_e == old(self).next_e,
            final(self).next_r == old(self).next_r,
            final(self).driver_used@ == old(self).driver_used@,
            final(self).status == old(self).status,
            final(self).err_list@ == old(self).err_list@,
    {
        self.left.del_list();
        let mut i: usize = 0;
        while i < left_next.len()
            invariant
                i <= left_next@.len(),
                self.left.queue() == left_next@.take(i as int),
                self.left.current() == old(self).left.current(),
                self.left.emitter() == old(self).left.emitter(),
                self.right == old(self).right,
                self.next_e == old(self).next_e,
                self.next_r == old(self).next_r,
                self.driver_used@ == old(self).driver_used@,
                self.status == old(self).status,
                self.err_list@ == old(self).err_list@,
            decreases left_next@.len() - i,
        {
            self.left.add_next(left_next[i]);
            assert(left_next@.take(i + 1) =~= left_next@.take(i as int).push(left_next@[i as int]));
            i = i + 1;
        }
        assert(left_next@.take(i as int) =~= left_next@);
        self.right.del_list();
        let mut j: usize = 0;
        while j < right_next.len()
            invariant
                j <= right_next@.len(),
                self.right.queue() == right_next@.take(j as int),
                self.right.current() == old(self).right.current(),
                self.right.emitter() == old(self).right.emitter(),
                self.left.queue() == left_next@,
                self.left.current() == old(self).left.current(),
                self.left.emitter() == old(self).left.emitter(),
                self.next_e == old(self).next_e,
                self.next_r == old(self).next_r,
                self.driver_used@ == old(self).driver_used@,
                self.status == old(self).status,
                self.err_list@ == old(self).err_list@,
            decreases right_next@.len() - j,
        {
            self.right.add_next(right_next[j]);
            assert(right_next@.take(j + 1) =~= right_next@.take(j as int).push(right_next@[j as int]));
            j = j + 1;
        }
        assert(right_next@.take(j as int) =~= right_next@);
    }

    /// Takes in the outcomes of a command sent by the interface: each error
    /// joins the errors to show, and an error about a driver clears one mark
    /// of that driver.
    pub fn receive_results(&mut self, results: Vec<Result<(), HardwareError>>)
        ensures
            (final(self).driver_used@, final(self).err_list@) == absorb(
                old(self).driver_used@,
                old(self).err_list@,
                results@,
            ),
            final(self).left == old(self).left,
            final(self).right == old(self).right,
            final(self).next_e == old(self).next_e,
            final(self).next_r == old(self).next_r,
            final(self).status == old(self).status,
    {
        let mut rest = results;
        while rest.len() > 0
            invariant
                absorb(self.driver_used@, self.err_list@, rest@) == absorb(
                    old(self).driver_used@,
                    old(self).err_list@,
                    results@,
                ),
                self.left == old(self).left,
                self.right == old(self).right,
                self.next_e == old(self).next_e,
                self.next_r == old(self).next_r,
                self.status == old(self).status,
            decreases rest.len(),
        {
            let ghost before = rest@;
            let r = rest.remove(0);
            assert(rest@ =~= before.drop_first());
            match r {
                Ok(_) => {},
                Err(e) => {
                    match e.driver() {
                        Some(dt) => release_driver(&mut self.driver_used, dt),
                        None => {},
                    }
                    self.err_list.push(e);
                },
            }
        }
    }

    /// Brings the arms up to date with the last status: the drivers whose
    /// movement is over lose their mark and their arm takes the coordinates
    /// reached (see `sync_marks`). Without a status nothing changes. An arm
    /// marker is cleared once that arm's X, Y and θ marks are gone; its Z
    /// mark is deliberately left out of that test.
    pub fn update(&mut self)
        ensures
            old(self).status is None ==> final(self).driver_used@ == old(self).driver_used@
                && arm_state(final(self).left) == arm_state(old(self).left)
                && arm_state(final(self).right) == arm_state(old(self).right),
            old(self).status is Some ==> (final(self).driver_used@, arm_state(final(self).left), arm_state(final(self).right))
                == sync_marks(
                    Seq::empty(),
                    old(self).driver_used@,
                    arm_state(old(self).left),
                    arm_state(old(self).right),
                    old(self).status->Some_0,
                ),
            final(self).left.emitter() == old(self).left.emitter(),
            final(self).right.emitter() == old(self).right.emitter(),
            final(self).next_e == old(self).next_e,
            final(self).next_r == old(self).next_r,
            final(self).status == old(self).status,
            final(self).err_list@ == old(self).err_list@,
    {
        let st = match self.status {
            Some(s) => s,
            None => {
                return;
            },
        };
        let mut i: usize = 0;
        assert(self.driver_used@.take(0) =~= Seq::<DriverType>::empty());
        assert(self.driver_used@.skip(0) =~= self.driver_used@);
        while i < self.driver_used.len()
            invariant
                i <= self.driver_used@.len(),
                old(self).status == Some(st),
                sync_marks(
                    self.driver_used@.take(i as int),
                    self.driver_used@.skip(i as int),
                    arm_state(self.left),
                    arm_state(self.right),
                    st,
                ) == sync_marks(
                    Seq::empty(),
                    old(self).driver_used@,
                    arm_state(old(self).left),
                    arm_state(old(self).right),
                    st,
                ),
                self.left.emitter() == old(self).left.emitter(),
                self.right.emitter() == old(self).right.emitter(),
                self.next_e == old(self).next_e,
                self.next_r == old(self).next_r,
                self.status == old(self).status,
                self.err_list@ == old(self).err_list@,
            decreases self.driver_used@.len() - i,
        {
            let ghost used = self.driver_used@;
            let ghost kept = used.take(i as int);
            let ghost rest = used.skip(i as int);
            assert(kept + rest =~= used);
            assert(rest[0] == used[i as int]);
            let d = self.driver_used[i];
            let remove = match d {
                DriverType::EX => {
                    if !st.movement_ex() {
                        self.left.move_next_x();
                        true
                    } else {
                        false
                    }
                },
                DriverType::EY => {
                    if !st.movement_ey() {
                        self.left.move_next_y();
                        true
                    } else {
                        false
                    }
                },
                DriverType::EZ => {
                    if !st.movement_ez() {
                        self.left.move_next_z();
                        true
                    } else {
                        false
                    }
                },
                DriverType::ETHETA => {
                    if !st.movement_et() {
                        self.left.move_next_theta();
                        true
                    } else {
                        false
                    }
                },
                DriverType::RX => {
                    if !st.movement_rx() {
                        self.right.move_next_x();
                        true
                    } else {
                        false
                    }
                },
                DriverType::RY => {
                    if !st.movement_ry() {
                        self.right.move_next_y();
                        true
                    } else {
                        false
                    }
                },
                DriverType::RZ => {
                    if !st.movement_rz() {
                        self.right.move_next_z();
                        true
                    } else {
                        false
                    }
                },
                DriverType::RTHETA => {
                    if !st.movement_rt() {
                        self.right.move_next_theta();
                        true
                    } else {
                        false
                    }
                },
                DriverType::E => {
                    if !(contains_driver(&self.driver_used, DriverType::EX) || contains_driver(
                        &self.driver_used,
                        DriverType::EY,
                    ) || contains_driver(&self.driver_used, DriverType::ETHETA)) {
                        self.left.move_next();
                    }
                    true
                },
                DriverType::R => {
                    if !(contains_driver(&self.driver_used, DriverType::RX) || contains_driver(
                        &self.driver_used,
                        DriverType::RY,
                    ) || contains_driver(&self.driver_used, DriverType::RTHETA)) {
                        self.right.move_next();
                    }
                    true
                },
                DriverType::ALL => false,
            };
            if remove {
                self.driver_used.remove(i);
                assert(self.driver_used@.take(i as int) =~= kept);
                assert(self.driver_used@.skip(i as int) =~= rest.drop_first());
            } else {
                i = i + 1;
                assert(self.driver_used@.take(i as int) =~= kept.push(d));
                assert(self.driver_used@.skip(i as int) =~= rest.drop_first());
            }
        }
        assert(self.driver_used@.skip(i as int) =~= Seq::<DriverType>::empty());
        assert(self.driver_used@.take(i as int) =~= self.driver_used@);
    }
}

/// A pass over the marks only removes marks: the marks already kept stay
/// in front, every other mark left was still to look at, and no arm marker
/// (`E` or `R`) is left among those looked at.
pub proof fn lemma_sync_only_removes(
    kept: Seq<DriverType>,
    rest: Seq<DriverType>,
    left: ArmState,
    right: ArmState,
    st: Status,
)
    ensures
        kept.len() <= sync_marks(kept, rest, left, right, st).0.len() <= kept.len() + rest.len(),
        forall|k: int| 0 <= k < kept.len() ==> #[trigger] sync_marks(kept, rest, left, right, st).0[k] == kept[k],
        forall|k: int|
            kept.len() <= k < sync_marks(kept, rest, left, right, st).0.len() ==> rest.contains(
                #[trigger] sync_marks(kept, rest, left, right, st).0[k],
            ) && !(sync_marks(kept, rest, left, right, st).0[k] is E)
                && !(sync_marks(kept, rest, left, right, st).0[k] is R),
    decreases rest.len(),
{
    if rest.len() > 0 {
        let d = rest[0];
        let tail = rest.drop_first();
        let next = mark_step(kept, rest, left, right, st);
        assert(next.0 == kept || (next.0 == kept.push(d) && !(d is E) && !(d is R)));
        lemma_sync_only_removes(next.0, tail, next.1, next.2, st);
        let res = sync_marks(kept, rest, left, right, st).0;
        assert(res == sync_marks(next.0, tail, next.1, next.2, st).0);
        assert forall|k: int| 0 <= k < kept.len() implies #[trigger] res[k] == kept[k] by {
            assert(res[k] == next.0[k]);
        }
        assert forall|k: int| kept.len() <= k < res.len() implies rest.contains(#[trigger] res[k])
            && !(res[k] is E) && !(res[k] is R) by {
            if k < next.0.len() {
                assert(res[k] == next.0[k]);
                assert(next.0[k] == d);
                assert(rest[0] == d);
            } else {
                assert(tail.contains(res[k]));
                let j: int = choose|j: int| 0 <= j < tail.len() && tail[j] == res[k];
                assert(rest[j + 1] == res[k]);
            }
        }
    }
}

/// After the interface has taken in a status, no arm marker is left and
/// every mark left was there before.
pub proof fn lemma_update_clears_arm_markers(used: Seq<DriverType>, left: ArmState, right: ArmState, st: Status)
    ensures
        forall|k: int| 0 <= k < sync_marks(Seq::empty(), used, left, right, st).0.len() ==> used.contains(
            #[trigger] sync_marks(Seq::empty(), used, left, right, st).0[k],
        ),
        !sync_marks(Seq::empty(), used, left, right, st).0.contains(DriverType::E),
        !sync_marks(Seq::empty(), used, left, right, st).0.contains(DriverType::R),
        sync_marks(Seq::empty(), used, left, right, st).0.len() <= used.len(),
{
    lemma_sync_only_removes(Seq::empty(), used, left, right, st);
    let res = sync_marks(Seq::empty(), used, left, right, st).0;
    if res.contains(DriverType::E) {
        let k: int = choose|k: int| 0 <= k < res.len() && res[k] == DriverType::E;
        assert(!(res[k] is E));
    }
    if res.contains(DriverType::R) {
        let k: int = choose|k: int| 0 <= k < res.len() && res[k] == DriverType::R;
        assert(!(res[k] is R));
    }
}

/// The basin reports every driver done: the flags of all eight drivers are
/// clear.
pub open spec fn all_idle(st: Status) -> bool {
    !st.movement_ex && !st.movement_ey && !st.movement_ez && !st.movement_et && !st.movement_rx
        && !st.movement_ry && !st.movement_rz && !st.movement_rt
}

/// Once the basin reports every driver done, a pass leaves no mark but
/// `ALL` among those looked at.
pub proof fn lemma_idle_status_clears_marks(
    kept: Seq<DriverType>,
    rest: Seq<DriverType>,
    left: ArmState,
    right: ArmState,
    st: Status,
)
    requires
        all_idle(st),
    ensures
        kept.len() <= sync_marks(kept, rest, left, right, st).0.len(),
        forall|k: int| 0 <= k < kept.len() ==> #[trigger] sync_marks(kept, rest, left, right, st).0[k] == kept[k],
        forall|k: int|
            kept.len() <= k < sync_marks(kept, rest, left, right, st).0.len() ==> #[trigger] sync_marks(
                kept,
                rest,
                left,
                right,
                st,
            ).0[k] is ALL,
    decreases rest.len(),
{
    if rest.len() > 0 {
        let d = rest[0];
        let tail = rest.drop_first();
        let next = mark_step(kept, rest, left, right, st);
        assert(next.0 == kept || (next.0 == kept.push(d) && d is ALL));
        lemma_idle_status_clears_marks(next.0, tail, next.1, next.2, st);
        let res = sync_marks(kept, rest, left, right, st).0;
        assert(res == sync_marks(next.0, tail, next.1, next.2, st).0);
        assert forall|k: int| 0 <= k < kept.len() implies #[trigger] res[k] == kept[k] by {
            assert(res[k] == next.0[k]);
        }
        assert forall|k: int| kept.len() <= k < res.len() implies #[trigger] res[k] is ALL by {
            if k < next.0.len() {
                assert(res[k] == next.0[k]);
            }
        }
    }
}

/// The marks the interface sets for its commands are all cleared once the
/// basin reports every driver done (no command marks `ALL` itself).
pub proof fn lemma_commands_cleared_when_idle(used: Seq<DriverType>, left: ArmState, right: ArmState, st: Status)
    requires
        all_idle(st),
        forall|k: int| 0 <= k < used.len() ==> !(#[trigger] used[k] is ALL),
    ensures
        sync_marks(Seq::empty(), used, left, right, st).0.len() == 0,
{
    lemma_idle_status_clears_marks(Seq::empty(), used, left, right, st);
    lemma_sync_only_removes(Seq::empty(), used, left, right, st);
    let res = sync_marks(Seq::empty(), used, left, right, st).0;
    if res.len() > 0 {
        assert(res[0] is ALL);
        assert(used.contains(res[0]));
        let j: int = choose|j: int| 0 <= j < used.len() && used[j] == res[0];
        assert(!(used[j] is ALL));
    }
}

/// No command of the interface marks `ALL`.
pub proof fn lemma_marks_never_all(dt: DriverType)
    ensures
        forall|k: int| 0 <= k < marked_for(dt).len() ==> !(#[trigger] marked_for(dt)[k] is ALL),
{
}

/// Colour of an indicator of the interface.
#[derive(Clone, Copy, Debug, PartialEq, Eq, Structural)]
pub enum Light {
    Red,
    Green,
    Gray,
}

/// The light of a flag: red when the flag is in its alarming state
/// (`alarm_when_set` tells which state that is), green otherwise.
pub open spec fn light_of(flag: bool, alarm_when_set: bool) -> Light {
    if flag == alarm_when_set {
        Light::Red
    } else {
        Light::Green
    }
}

fn light(flag: bool, alarm_when_set: bool) -> (l: Light)
    ensures
        l == light_of(flag, alarm_when_set),
{
    if flag == alarm_when_set {
        Light::Red
    } else {
        Light::Green
    }
}

/// The movement flag of axis `k` (X, Y, Z, θ for 0 to 3) of an arm.
pub open spec fn axis_flag(s: Status, is_emitter: bool, k: int) -> bool {
    if is_emitter {
        if k == 0 {
            s.movement_ex
        } else if k == 1 {
            s.movement_ey
        } else if k == 2 {
            s.movement_ez
        } else {
            s.movement_et
        }
    } else {
        if k == 0 {
            s.movement_rx
        } else if k == 1 {
            s.movement_ry
        } else if k == 2 {
            s.movement_rz
        } else {
            s.movement_rt
        }
    }
}

/// The indicator of the connection to the basin: green when connected,
/// red otherwise.
pub fn connection_light(connected: bool) -> (l: Light)
    ensures
        l == light_of(connected, false),
{
    light(connected, false)
}

/// The indicators of the status pane, in order: left door, right door,
/// basin powered, basin started, emergency stop, momentary stop. An open
/// door, an unpowered or unstarted basin and a stop show red, the rest
/// green; all are gray while no status is known (basin not connected).
pub fn status_lights(status: Option<Status>) -> (l: Vec<Light>)
    ensures
        l@.len() == 6,
        status is None ==> forall|i: int| 0 <= i < 6 ==> l@[i] == Light::Gray,
        status matches Some(s) ==> l@ == seq![
            light_of(s.door_left_open, true),
            light_of(s.door_right_open, true),
            light_of(s.bassin_powered, false),
            light_of(s.bassin_started, false),
            light_of(s.arr_urg, true),
            light_of(s.arr_mom, true),
        ],
{
    match status {
        None => {
            let l = vec![Light::Gray, Light::Gray, Light::Gray, Light::Gray, Light::Gray, Light::Gray];
            assert(l@.len() == 6);
            l
        },
        Some(s) => {
            let l = vec![
                light(s.door_left_open, true),
                light(s.door_right_open, true),
                light(s.bassin_powered, false),
                light(s.bassin_started, false),
                light(s.arr_urg, true),
                light(s.arr_mom, true),
            ];
            assert(l@ =~= seq![
                light_of(s.door_left_open, true),
                light_of(s.door_right_open, true),
                light_of(s.bassin_powered, false),
                light_of(s.bassin_started, false),
                light_of(s.arr_urg, true),
                light_of(s.arr_mom, true),
            ]);
            l
        },
    }
}

/// The indicators of the four axes (X, Y, Z, θ) of an arm: red while a
/// movement is in progress on the axis, green otherwise, gray while no
/// status is known.
pub fn axis_lights(status: Option<Status>, is_emitter: bool) -> (l: Vec<Light>)
    ensures
        l@.len() == 4,
        status is None ==> forall|i: int| 0 <= i < 4 ==> l@[i] == Light::Gray,
        status matches Some(s) ==> forall|k: int|
            0 <= k < 4 ==> l@[k] == light_of(axis_flag(s, is_emitter, k), true),
{
    match status {
        None => {
            let l = vec![Light::Gray, Light::Gray, Light::Gray, Light::Gray];
            assert(l@.len() == 4);
            l
        },
        Some(s) => {
            let l = if is_emitter {
                vec![
                    light(s.movement_ex, true),
                    light(s.movement_ey, true),
                    light(s.movement_ez, true),
                    light(s.movement_et, true),
                ]
            } else {
                vec![
                    light(s.movement_rx, true),
                    light(s.movement_ry, true),
                    light(s.movement_rz, true),
                    light(s.movement_rt, true),
                ]
            };
            assert forall|k: int| 0 <= k < 4 implies l@[k] == light_of(axis_flag(s, is_emitter, k), true) by {
                if k == 0 {
                } else if k == 1 {
                } else if k == 2 {
                } else {
                }
            }
            l
        },
    }
}

/// Coordinate `k` of a position: x, y, z, θ for 0 to 3.
pub open spec fn coordinate(p: Position, k: int) -> u32 {
    if k == 0 {
        p.x
    } else if k == 1 {
        p.y
    } else if k == 2 {
        p.z
    } else {
        p.theta
    }
}

/// Whether the status reports a movement in progress on the single-axis
/// driver `d`.
pub open spec fn reports_moving(st: Status, d: DriverType) -> bool {
    match d {
        DriverType::EX => st.movement_ex,
        DriverType::EY => st.movement_ey,
        DriverType::EZ => st.movement_ez,
        DriverType::ETHETA => st.movement_et,
        DriverType::RX => st.movement_rx,
        DriverType::RY => st.movement_ry,
        DriverType::RZ => st.movement_rz,
        DriverType::RTHETA => st.movement_rt,
        _ => false,
    }
}

/// What an update does with the mark of a single-axis driver `d` (axis `k`
/// of its arm): while the status reports `d` moving, the mark stays and
/// nothing moves; once it does not, the mark goes and the arm of `d` takes
/// coordinate `k` of the front of its queue, keeping its other coordinates
/// and its queue. The other arm is never touched.
pub proof fn lemma_axis_mark_takes_its_coordinate(
    kept: Seq<DriverType>,
    rest: Seq<DriverType>,
    left: ArmState,
    right: ArmState,
    st: Status,
)
    requires
        rest.len() > 0,
        rest[0].is_axis(),
    ensures
        ({
            let d = rest[0];
            let k = d.axis_rank() % 4;
            let after = mark_step(kept, rest, left, right, st);
            let mine = if d.is_emitter_axis() { left } else { right };
            let mine2 = if d.is_emitter_axis() { after.1 } else { after.2 };
            let other = if d.is_emitter_axis() { right } else { left };
            let other2 = if d.is_emitter_axis() { after.2 } else { after.1 };
            &&& other2 == other
            &&& mine2.1 == mine.1
            &&& reports_moving(st, d) ==> after.0 == kept.push(d) && mine2 == mine
            &&& !reports_moving(st, d) ==> after.0 == kept
            &&& (!reports_moving(st, d) && mine.1.len() > 0) ==> coordinate(mine2.0, k) == coordinate(mine.1[0], k)
            &&& forall|j: int| 0 <= j < 4 && j != k ==> coordinate(mine2.0, j) == coordinate(mine.0, j)
            &&& mine.1.len() == 0 ==> mine2 == mine
        }),
{
}

/// An arm is sent toward the front of its queue, which is the position the
/// arm stands at once it takes its next position; with nothing queued it is
/// sent where it stands.
pub proof fn lemma_target_is_queue_front(a: Arm)
    ensures
        a.queue().len() > 0 ==> target_of(a) == a.queue()[0],
        a.queue().len() == 0 ==> target_of(a) == a.current(),
        take_next(arm_state(a)).0 == target_of(a),
{
}

/// An origin order puts one position in front of the queue of the arm
/// concerned and leaves the rest of that queue, and the other arm's queue,
/// as they were. For a single-axis driver (axis `k`) that position is where
/// the arm stands with coordinate `k` set to the arm's origin; for an arm,
/// or both arms, it is the origin itself.
pub proof fn lemma_origin_front(dt: DriverType, left: Arm, right: Arm)
    ensures
        dt.is_axis() ==> ({
            let k = dt.axis_rank() % 4;
            let mine = if dt.is_emitter_axis() { left } else { right };
            let q = if dt.is_emitter_axis() {
                left_queue_after_origin(dt, left)
            } else {
                right_queue_after_origin(dt, right)
            };
            let q_other = if dt.is_emitter_axis() {
                right_queue_after_origin(dt, right)
            } else {
                left_queue_after_origin(dt, left)
            };
            let other = if dt.is_emitter_axis() { right } else { left };
            &&& q_other == other.queue()
            &&& q.len() == mine.queue().len() + 1
            &&& q.drop_first() == mine.queue()
            &&& coordinate(q[0], k) == coordinate(origin_of(mine.emitter()), k)
            &&& forall|j: int| 0 <= j < 4 && j != k ==> coordinate(q[0], j) == coordinate(mine.current(), j)
        }),
        (dt is E || dt is ALL) ==> left_queue_after_origin(dt, left) == seq![origin_of(left.emitter())] + left.queue(),
        (dt is R || dt is ALL) ==> right_queue_after_origin(dt, right) == seq![origin_of(right.emitter())] + right.queue(),
        dt is E ==> right_queue_after_origin(dt, right) == right.queue(),
        dt is R ==> left_queue_after_origin(dt, left) == left.queue(),
{
    if dt.is_axis() {
        if dt.is_emitter_axis() {
            assert(left_queue_after_origin(dt, left).drop_first() =~= left.queue());
        } else {
            assert(right_queue_after_origin(dt, right).drop_first() =~= right.queue());
        }
    }
}

/// The indicator of axis `k` of an arm follows the driver of that axis: it
/// is red exactly while the status reports that driver moving.
pub proof fn lemma_axis_light_follows_its_driver(s: Status, d: DriverType)
    requires
        d.is_axis(),
    ensures
        axis_flag(s, d.is_emitter_axis(), d.axis_rank() % 4) == reports_moving(s, d),
        (light_of(axis_flag(s, d.is_emitter_axis(), d.axis_rank() % 4), true) == Light::Red) <==> reports_moving(s, d),
{
}

/// What an update does with an arm marker (`E` or `R`): the marker always
/// goes; its arm takes the whole front of its queue, which leaves the queue,
/// when none of the X, Y and θ drivers of that arm is still marked, and
/// stays put otherwise. The other arm is not touched. The `ALL` mark stays
/// and nothing moves.
pub proof fn lemma_arm_marker_takes_next_position(
    kept: Seq<DriverType>,
    rest: Seq<DriverType>,
    left: ArmState,
    right: ArmState,
    st: Status,
)
    requires
        rest.len() > 0,
        !rest[0].is_axis(),
    ensures
        ({
            let d = rest[0];
            let after = mark_step(kept, rest, left, right, st);
            let marks = kept + rest;
            let mine = if d is E { left } else { right };
            let mine2 = if d is E { after.1 } else { after.2 };
            let other = if d is E { right } else { left };
            let other2 = if d is E { after.2 } else { after.1 };
            let (x, y, t) = if d is E {
                (DriverType::EX, DriverType::EY, DriverType::ETHETA)
            } else {
                (DriverType::RX, DriverType::RY, DriverType::RTHETA)
            };
            let free = !marks.contains(x) && !marks.contains(y) && !marks.contains(t);
            &&& d is ALL ==> after == (kept.push(d), left, right)
            &&& !(d is ALL) ==> {
                &&& after.0 == kept
                &&& other2 == other
                &&& (free && mine.1.len() > 0) ==> mine2 == (mine.1[0], mine.1.drop_first())
                &&& !(free && mine.1.len() > 0) ==> mine2 == mine
            }
        }),
{
}

/// The drivers marked in motion by a command to `dt`: the single-axis
/// drivers it stands for, each arm's group followed by that arm's marker.
pub proof fn lemma_marks_of_command(dt: DriverType)
    ensures
        dt.is_emitter_axis() ==> marked_for(dt) == seq![dt, DriverType::E],
        dt.is_receiver_axis() ==> marked_for(dt) == seq![dt, DriverType::R],
        dt is E ==> marked_for(dt) == crate::arm_backend::axes_of(DriverType::E).push(DriverType::E),
        dt is R ==> marked_for(dt) == crate::arm_backend::axes_of(DriverType::R).push(DriverType::R),
        dt is ALL ==> marked_for(dt) == crate::arm_backend::axes_of(DriverType::E).push(DriverType::E) + crate::arm_backend::axes_of(DriverType::R).push(
            DriverType::R,
        ),
{
    assert(crate::arm_backend::axes_of(DriverType::E).push(DriverType::E) + crate::arm_backend::axes_of(DriverType::R).push(DriverType::R) =~= marked_for(
        DriverType::ALL,
    ));
    assert(crate::arm_backend::axes_of(DriverType::E).push(DriverType::E) =~= marked_for(DriverType::E));
    assert(crate::arm_backend::axes_of(DriverType::R).push(DriverType::R) =~= marked_for(DriverType::R));
}

} // verus!

