//! The discrete control surface: commands, the set of commands that are
//! active during a tick, and the camera deltas they stand for.
//!
//! Magnitudes are whole thousandths: a pan is measured in thousandths of a
//! scene unit, a pivot in milliradians. The viewpoint itself is numeric work
//! that callers do on the deltas given here.

use vstd::prelude::*;

verus! {

/// A discrete command of the control surface.
#[derive(Clone, Copy, Debug, PartialEq, Eq, Structural)]
pub enum Command {
    PanUp,
    PanDown,
    PanLeft,
    PanRight,
    PanNear,
    PanFar,
    RotateCw,
    RotateCcw,
    PitchUp,
    PitchDown,
}

/// The number of commands.
pub const COMMAND_COUNT: usize = 10;

/// What one command asks of the viewpoint for one tick.
#[derive(Clone, Copy, Debug, PartialEq, Eq, Structural)]
pub enum ControlDelta {
    /// Add this offset to the viewpoint's position (thousandths of a scene unit).
    Pan { x: i32, y: i32, z: i32 },
    /// Pivot around the vertical axis through the target (milliradians).
    Yaw { angle: i32 },
    /// Pivot in elevation around the target (milliradians).
    Pitch { angle: i32 },
}

/// The fixed per-tick magnitudes of the control surface.
#[derive(Clone, Copy, Debug, PartialEq, Eq, Structural)]
pub struct ControlSteps {
    /// Length of one pan step, in thousandths of a scene unit.
    pub pan: u16,
    /// Angle of one pivot step, in milliradians.
    pub turn: u16,
}

impl Command {
    /// The command's place in the order in which a tick applies commands.
    pub open spec fn spec_index(self) -> nat {
        match self {
            Command::PanUp => 0,
            Command::PanDown => 1,
            Command::PanLeft => 2,
            Command::PanRight => 3,
            Command::PanNear => 4,
            Command::PanFar => 5,
            Command::RotateCw => 6,
            Command::RotateCcw => 7,
            Command::PitchUp => 8,
            Command::PitchDown => 9,
        }
    }

    /// The command at a place of that order; places past the last give the last command.
    pub open spec fn spec_at(index: nat) -> Command {
        if index == 0 {
            Command::PanUp
        } else if index == 1 {
            Command::PanDown
        } else if index == 2 {
            Command::PanLeft
        } else if index == 3 {
            Command::PanRight
        } else if index == 4 {
            Command::PanNear
        } else if index == 5 {
            Command::PanFar
        } else if index == 6 {
            Command::RotateCw
        } else if index == 7 {
            Command::RotateCcw
        } else if index == 8 {
            Command::PitchUp
        } else {
            Command::PitchDown
        }
    }

    /// The delta that the command stands for, given the step magnitudes.
    pub open spec fn spec_delta(self, steps: ControlSteps) -> ControlDelta {
        match self {
            Command::PanUp => ControlDelta::Pan { x: 0, y: steps.pan as i32, z: 0 },
            Command::PanDown => ControlDelta::Pan { x: 0, y: (-(steps.pan as int)) as i32, z: 0 },
            Command::PanLeft => ControlDelta::Pan { x: (-(steps.pan as int)) as i32, y: 0, z: 0 },
            Command::PanRight => ControlDelta::Pan { x: steps.pan as i32, y: 0, z: 0 },
            Command::PanNear => ControlDelta::Pan { x: 0, y: 0, z: (-(steps.pan as int)) as i32 },
            Command::PanFar => ControlDelta::Pan { x: 0, y: 0, z: steps.pan as i32 },
            Command::RotateCw => ControlDelta::Yaw { angle: steps.turn as i32 },
            Command::RotateCcw => ControlDelta::Yaw { angle: (-(steps.turn as int)) as i32 },
            Command::PitchUp => ControlDelta::Pitch { angle: steps.turn as i32 },
            Command::PitchDown => ControlDelta::Pitch { angle: (-(steps.turn as int)) as i32 },
        }
    }

    /// The command's place in the order in which a tick applies commands.
    pub fn index(self) -> (i: usize)
        ensures
            i == self.spec_index(),
            i < COMMAND_COUNT,
            Command::spec_at(i as nat) == self,
    {
        match self {
            Command::PanUp => 0,
            Command::PanDown => 1,
            Command::PanLeft => 2,
            Command::PanRight => 3,
            Command::PanNear => 4,
            Command::PanFar => 5,
            Command::RotateCw => 6,
            Command::RotateCcw => 7,
            Command::PitchUp => 8,
            Command::PitchDown => 9,
        }
    }

    /// The command at a place of that order, if there is one.
    pub fn at(index: usize) -> (res: Option<Command>)
        ensures
            res is Some <==> index < COMMAND_COUNT,
            res matches Some(c) ==> c == Command::spec_at(index as nat) && c.spec_index() == index,
    {
        if index == 0 {
            Some(Command::PanUp)
        } else if index == 1 {
            Some(Command::PanDown)
        } else if index == 2 {
            Some(Command::PanLeft)
        } else if index == 3 {
            Some(Command::PanRight)
        } else if index == 4 {
            Some(Command::PanNear)
        } else if index == 5 {
            Some(Command::PanFar)
        } else if index == 6 {
            Some(Command::RotateCw)
        } else if index == 7 {
            Some(Command::RotateCcw)
        } else if index == 8 {
            Some(Command::PitchUp)
        } else if index == 9 {
            Some(Command::PitchDown)
        } else {
            None
        }
    }

    /// The delta that the command stands for, given the step magnitudes.
    pub fn delta(self, steps: ControlSteps) -> (d: ControlDelta)
        ensures
            d == self.spec_delta(steps),
    {
        let pan: i32 = steps.pan as i32;
        let turn: i32 = steps.turn as i32;
        match self {
            Command::PanUp => ControlDelta::Pan { x: 0, y: pan, z: 0 },
            Command::PanDown => ControlDelta::Pan { x: 0, y: -pan, z: 0 },
            Command::PanLeft => ControlDelta::Pan { x: -pan, y: 0, z: 0 },
            Command::PanRight => ControlDelta::Pan { x: pan, y: 0, z: 0 },
            Command::PanNear => ControlDelta::Pan { x: 0, y: 0, z: -pan },
            Command::PanFar => ControlDelta::Pan { x: 0, y: 0, z: pan },
            Command::RotateCw => ControlDelta::Yaw { angle: turn },
            Command::RotateCcw => ControlDelta::Yaw { angle: -turn },
            Command::PitchUp => ControlDelta::Pitch { angle: turn },
            Command::PitchDown => ControlDelta::Pitch { angle: -turn },
        }
    }
}

impl ControlSteps {
    /// A tenth of a scene unit per pan step, ten milliradians per pivot step.
    pub fn standard() -> (steps: ControlSteps)
        ensures
            steps == (ControlSteps { pan: 100, turn: 10 }),
    {
        ControlSteps { pan: 100, turn: 10 }
    }
}

/// The commands that are active during one tick.
#[derive(Clone, Copy, Debug, PartialEq, Eq)]
pub struct InputSnapshot {
    active: [bool; 10],
}

impl View for InputSnapshot {
    type V = Set<Command>;

    /// The set of active commands.
    closed spec fn view(&self) -> Set<Command> {
        Set::new(|c: Command| self.active@[c.spec_index() as int])
    }
}

impl InputSnapshot {
    /// The deltas of the active commands among the first `n` of the order, in that order.
    pub open spec fn deltas_upto(&self, steps: ControlSteps, n: nat) -> Seq<ControlDelta>
        decreases n,
    {
        if n == 0 {
            Seq::empty()
        } else {
            let before = self.deltas_upto(steps, (n - 1) as nat);
            let c = Command::spec_at((n - 1) as nat);
            if self@.contains(c) {
                before.push(c.spec_delta(steps))
            } else {
                before
            }
        }
    }

    /// The deltas of all active commands, in the order in which a tick applies them.
    pub open spec fn spec_deltas(&self, steps: ControlSteps) -> Seq<ControlDelta> {
        self.deltas_upto(steps, COMMAND_COUNT as nat)
    }

    /// The snapshot in which no command is active.
    pub fn idle() -> (snapshot: InputSnapshot)
        ensures
            snapshot@ == Set::<Command>::empty(),
    {
        let snapshot = InputSnapshot { active: [false; 10] };
        assert(snapshot@ =~= Set::<Command>::empty());
        snapshot
    }

    /// Whether a command is active.
    pub fn is_active(&self, command: Command) -> (b: bool)
        ensures
            b == self@.contains(command),
    {
        self.active[command.index()]
    }

    /// Makes a command active.
    pub fn press(&mut self, command: Command)
        ensures
            final(self)@ == old(self)@.insert(command),
    {
        let i: usize = command.index();
        self.active[i] = true;
        assert(self@ =~= old(self)@.insert(command));
    }

    /// Makes a command inactive.
    pub fn release(&mut self, command: Command)
        ensures
            final(self)@ == old(self)@.remove(command),
    {
        let i: usize = command.index();
        self.active[i] = false;
        assert(self@ =~= old(self)@.remove(command));
    }

    /// The deltas of all active commands, in the order in which a tick applies them.
    pub fn deltas(&self, steps: ControlSteps) -> (out: Vec<ControlDelta>)
        ensures
            out@ == self.spec_deltas(steps),
    {
        let mut out: Vec<ControlDelta> = Vec::new();
        let mut i: usize = 0;
        while i < COMMAND_COUNT
            invariant
                i <= COMMAND_COUNT,
                out@ == self.deltas_upto(steps, i as nat),
            decreases COMMAND_COUNT - i,
        {
            match Command::at(i) {
                Some(c) => {
                    if self.is_active(c) {
                        out.push(c.delta(steps));
                    }
                },
                None => {},
            }
            i = i + 1;
        }
        out
    }
}

/// The sum of the yaw angles in a sequence of deltas, in milliradians.
pub open spec fn net_yaw(deltas: Seq<ControlDelta>) -> int
    decreases deltas.len(),
{
    if deltas.len() == 0 {
        0
    } else {
        let rest = net_yaw(deltas.drop_last());
        match deltas.last() {
            ControlDelta::Yaw { angle } => rest + angle,
            _ => rest,
        }
    }
}

/// The deltas of `n` consecutive ticks that all see the same deltas `tick`.
pub open spec fn repeated(tick: Seq<ControlDelta>, n: nat) -> Seq<ControlDelta>
    decreases n,
{
    if n == 0 {
        Seq::empty()
    } else {
        repeated(tick, (n - 1) as nat) + tick
    }
}

/// The yaw of two runs of deltas, one after the other, is the sum of their yaws.
pub proof fn lemma_net_yaw_concat(a: Seq<ControlDelta>, b: Seq<ControlDelta>)
    ensures
        net_yaw(a + b) == net_yaw(a) + net_yaw(b),
    decreases b.len(),
{
    if b.len() == 0 {
        assert(a + b =~= a);
    } else {
        assert((a + b).drop_last() =~= a + b.drop_last());
        assert((a + b).last() == b.last());
        lemma_net_yaw_concat(a, b.drop_last());
    }
}

/// The yaw of `n` equal ticks is `n` times the yaw of one.
pub proof fn lemma_net_yaw_repeated(tick: Seq<ControlDelta>, n: nat)
    ensures
        net_yaw(repeated(tick, n)) == n * net_yaw(tick),
    decreases n,
{
    let y = net_yaw(tick);
    if n == 0 {
        assert(n * y == 0) by (nonlinear_arith)
            requires
                n == 0,
        ;
    } else {
        let m = (n - 1) as nat;
        lemma_net_yaw_repeated(tick, m);
        lemma_net_yaw_concat(repeated(tick, m), tick);
        assert(n * y == m * y + y) by (nonlinear_arith)
            requires
                n == m + 1,
        ;
    }
}

/// A tick in which only one pivot command about the vertical axis is active
/// yields that command's delta and nothing else.
pub proof fn lemma_single_turn(snapshot: InputSnapshot, steps: ControlSteps, command: Command)
    requires
        command == Command::RotateCw || command == Command::RotateCcw,
        snapshot@ == Set::<Command>::empty().insert(command),
    ensures
        snapshot.spec_deltas(steps) == seq![command.spec_delta(steps)],
{
    reveal_with_fuel(InputSnapshot::deltas_upto, 11);
    assert(snapshot.spec_deltas(steps) =~= seq![command.spec_delta(steps)]);
}

/// Any number of ticks of clockwise rotation followed by as many ticks of
/// counter-clockwise rotation, all of the same magnitude, command a net
/// rotation about the vertical axis of zero.
pub proof fn law_opposite_turns_cancel(
    cw: InputSnapshot,
    ccw: InputSnapshot,
    steps: ControlSteps,
    n: nat,
)
    requires
        cw@ == Set::<Command>::empty().insert(Command::RotateCw),
        ccw@ == Set::<Command>::empty().insert(Command::RotateCcw),
    ensures
        net_yaw(repeated(cw.spec_deltas(steps), n) + repeated(ccw.spec_deltas(steps), n)) == 0,
{
    let a = cw.spec_deltas(steps);
    let b = ccw.spec_deltas(steps);
    lemma_single_turn(cw, steps, Command::RotateCw);
    lemma_single_turn(ccw, steps, Command::RotateCcw);
    assert(a.drop_last() =~= Seq::<ControlDelta>::empty());
    assert(b.drop_last() =~= Seq::<ControlDelta>::empty());
    assert(net_yaw(a.drop_last()) == 0);
    assert(net_yaw(b.drop_last()) == 0);
    assert(net_yaw(a) == steps.turn);
    assert(net_yaw(b) == -steps.turn);
    lemma_net_yaw_repeated(a, n);
    lemma_net_yaw_repeated(b, n);
    lemma_net_yaw_concat(repeated(a, n), repeated(b, n));
    assert(n * (steps.turn as int) + n * (-(steps.turn as int)) == 0) by (nonlinear_arith);
}

/// Within one tick, clockwise and counter-clockwise rotation that are both
/// active command a net rotation about the vertical axis of zero, whatever
/// else is active.
pub proof fn law_simultaneous_turns_cancel(snapshot: InputSnapshot, steps: ControlSteps)
    requires
        snapshot@.contains(Command::RotateCw),
        snapshot@.contains(Command::RotateCcw),
    ensures
        net_yaw(snapshot.spec_deltas(steps)) == 0,
{
    reveal_with_fuel(InputSnapshot::deltas_upto, 11);
    reveal_with_fuel(net_yaw, 11);
    lemma_yaw_of_pans(snapshot, steps, 6);
    let upto6 = snapshot.deltas_upto(steps, 6);
    let cw = Command::RotateCw.spec_delta(steps);
    let ccw = Command::RotateCcw.spec_delta(steps);
    let upto8 = upto6.push(cw).push(ccw);
    assert(snapshot.deltas_upto(steps, 8) == upto8);
    assert(upto8.drop_last() =~= upto6.push(cw));
    assert(upto6.push(cw).drop_last() =~= upto6);
    assert(net_yaw(upto8) == 0);
    lemma_yaw_of_pitches(snapshot, steps, upto8);
}

/// The pan commands contribute no yaw.
proof fn lemma_yaw_of_pans(snapshot: InputSnapshot, steps: ControlSteps, n: nat)
    requires
        n <= 6,
    ensures
        net_yaw(snapshot.deltas_upto(steps, n)) == 0,
    decreases n,
{
    if n > 0 {
        let before = snapshot.deltas_upto(steps, (n - 1) as nat);
        let c = Command::spec_at((n - 1) as nat);
        lemma_yaw_of_pans(snapshot, steps, (n - 1) as nat);
        assert(before.push(c.spec_delta(steps)).drop_last() =~= before);
    }
}

/// The pitch commands add no yaw to what precedes them.
proof fn lemma_yaw_of_pitches(
    snapshot: InputSnapshot,
    steps: ControlSteps,
    upto8: Seq<ControlDelta>,
)
    requires
        upto8 == snapshot.deltas_upto(steps, 8),
    ensures
        net_yaw(snapshot.spec_deltas(steps)) == net_yaw(upto8),
{
    let up = Command::PitchUp.spec_delta(steps);
    let down = Command::PitchDown.spec_delta(steps);
    let upto9 = snapshot.deltas_upto(steps, 9);
    assert(upto8.push(up).drop_last() =~= upto8);
    assert(net_yaw(upto9) == net_yaw(upto8));
    assert(upto9.push(down).drop_last() =~= upto9);
}

} // verus!
