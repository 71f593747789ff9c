//! A coarse move in progress, and the step position under a run of commands.
//!
//! A move of any size is sent as unit commands down the divisor ladder. The
//! position follows the acknowledgments one by one, so an observer never sees
//! a position that the motor has not confirmed.

use crate::protocol::copies;
use crate::protocol::displacement;
use crate::protocol::divisor;
use crate::protocol::divisor_at;
use crate::protocol::ladder;
use crate::protocol::ladder_from;
use crate::protocol::lemma_ladder_from_exact;
use crate::protocol::lemma_ladder_from_zero;
use crate::protocol::unit_at;
use crate::protocol::unit_command;
use crate::protocol::UnitCommand;
use crate::protocol::LADDER_LEVELS;
use vstd::arithmetic::div_mod::lemma_fundamental_div_mod;
use vstd::prelude::*;

verus! {

/// The size of a move, whatever its direction.
pub open spec fn magnitude(steps: int) -> nat {
    if steps >= 0 {
        steps as nat
    } else {
        (-steps) as nat
    }
}

/// Which command set a move uses: the forward set for a positive move, the
/// backward set otherwise, and the other way round under the reversal flag.
pub open spec fn uses_forward_set(steps: int, reverse: bool) -> bool {
    if reverse {
        steps < 0
    } else {
        steps > 0
    }
}

/// Every unit command of a move by `steps`, in the order they are sent.
pub open spec fn rotation_script(steps: int, reverse: bool) -> Seq<UnitCommand> {
    ladder(magnitude(steps), uses_forward_set(steps, reverse), steps > 0)
}

/// The step position after one acknowledged command. An unknown position
/// stays unknown, and one that the counter cannot hold becomes unknown.
pub open spec fn shifted(position: Option<i32>, delta: int) -> Option<i32> {
    match position {
        Some(p) => if i32::MIN <= p + delta <= i32::MAX {
            Some((p + delta) as i32)
        } else {
            None
        },
        None => None,
    }
}

/// The step position after a run of acknowledged commands.
pub open spec fn position_after(position: Option<i32>, script: Seq<UnitCommand>) -> Option<i32>
    decreases script.len(),
{
    if script.len() == 0 {
        position
    } else {
        position_after(shifted(position, script[0].delta as int), script.drop_first())
    }
}

/// The step position after one acknowledged command.
pub fn shift(position: Option<i32>, delta: i32) -> (moved: Option<i32>)
    ensures
        moved == shifted(position, delta as int),
{
    match position {
        Some(p) => p.checked_add(delta),
        None => None,
    }
}

/// A coarse move that is being sent: what is left of it.
#[derive(Clone, Copy, Debug)]
pub struct Rotation {
    forward: bool,
    positive: bool,
    level: usize,
    pending: u32,
    rest: u32,
}

impl Rotation {
    #[verifier::type_invariant]
    spec fn inv(self) -> bool {
        &&& self.level < LADDER_LEVELS
        &&& self.rest < divisor_at(self.level as int)
        &&& self.pending == 0 ==> self.rest == 0
    }

    /// Whether the move stands on a rung of the ladder with less than one
    /// unit of that rung carried below it, as every planned move does.
    pub closed spec fn wf(self) -> bool {
        self.inv()
    }

    /// The unit commands still to send, next one first.
    pub closed spec fn script(self) -> Seq<UnitCommand> {
        copies(unit_at(self.level as int, self.forward, self.positive), self.pending as nat)
            + ladder_from(self.level + 1, self.rest as nat, self.forward, self.positive)
    }

    /// The same move, standing on the first rung that has something to send.
    closed spec fn settled(self) -> Rotation
        decreases LADDER_LEVELS - self.level,
    {
        if self.pending == 0 && self.level + 1 < LADDER_LEVELS {
            let d = divisor_at(self.level + 1) as u32;
            (Rotation {
                level: (self.level + 1) as usize,
                pending: self.rest / d,
                rest: self.rest % d,
                ..self
            }).settled()
        } else {
            self
        }
    }

    /// The move that takes the motor from one step position to another.
    pub closed spec fn spanning(from: int, to: int, reverse: bool) -> Rotation {
        let size = magnitude(to - from) as u32;
        (Rotation {
            forward: uses_forward_set(to - from, reverse),
            positive: to > from,
            level: 0,
            pending: size / 3730,
            rest: size % 3730,
        }).settled()
    }

    /// The move by `steps` from wherever the motor stands.
    pub open spec fn planned(steps: int, reverse: bool) -> Rotation {
        Rotation::spanning(0, steps, reverse)
    }

    /// The move once its next command has been acknowledged.
    pub closed spec fn advanced(self) -> Rotation {
        if self.pending > 0 {
            (Rotation { pending: (self.pending - 1) as u32, ..self }).settled()
        } else {
            self
        }
    }

    proof fn lemma_settled(self)
        requires
            self.level < LADDER_LEVELS,
            self.rest < divisor_at(self.level as int),
        ensures
            self.settled().script() == self.script(),
            self.settled().inv(),
            self.settled().forward == self.forward,
            self.settled().positive == self.positive,
        decreases LADDER_LEVELS - self.level,
    {
        if self.pending == 0 && self.level + 1 < LADDER_LEVELS {
            let d = divisor_at(self.level + 1) as u32;
            let next = Rotation {
                level: (self.level + 1) as usize,
                pending: self.rest / d,
                rest: self.rest % d,
                ..self
            };
            next.lemma_settled();
            assert(copies(unit_at(self.level as int, self.forward, self.positive), 0)
                =~= Seq::empty());
            assert(self.script() =~= next.script());
        }
    }

    /// A planned move sends the divisor ladder of its size.
    pub proof fn lemma_spanning(from: int, to: int, reverse: bool)
        requires
            magnitude(to - from) <= u32::MAX,
        ensures
            Rotation::spanning(from, to, reverse).script() == rotation_script(to - from, reverse),
            Rotation::spanning(from, to, reverse).wf(),
    {
        let size = magnitude(to - from) as u32;
        let start = Rotation {
            forward: uses_forward_set(to - from, reverse),
            positive: to > from,
            level: 0,
            pending: size / 3730,
            rest: size % 3730,
        };
        start.lemma_settled();
    }

    /// An acknowledgment strikes the first command of the script.
    pub proof fn lemma_advanced(self)
        requires
            self.wf(),
        ensures
            self.advanced().script() == if self.script().len() > 0 {
                self.script().drop_first()
            } else {
                self.script()
            },
            self.advanced().wf(),
    {
        if self.pending > 0 {
            let less = Rotation { pending: (self.pending - 1) as u32, ..self };
            less.lemma_settled();
            assert(less.script() =~= self.script().drop_first());
        } else {
            lemma_ladder_from_zero(self.level + 1, self.forward, self.positive);
        }
    }

    /// Moves down the ladder to the first rung that has something to send.
    fn settle(forward: bool, positive: bool, level: usize, pending: u32, rest: u32) -> (r:
        Rotation)
        requires
            level < LADDER_LEVELS,
            rest < divisor_at(level as int),
        ensures
            r == (Rotation { forward, positive, level, pending, rest }).settled(),
    {
        let ghost start = Rotation { forward, positive, level, pending, rest };
        let mut level: usize = level;
        let mut pending: u32 = pending;
        let mut rest: u32 = rest;
        while pending == 0 && level + 1 < LADDER_LEVELS
            invariant
                level < LADDER_LEVELS,
                rest < divisor_at(level as int),
                start.settled() == (Rotation { forward, positive, level, pending, rest }).settled(),
            decreases LADDER_LEVELS - level,
        {
            level = level + 1;
            let d: u32 = divisor(level);
            pending = rest / d;
            rest = rest % d;
        }
        proof {
            (Rotation { forward, positive, level, pending, rest }).lemma_settled();
        }
        Rotation { forward, positive, level, pending, rest }
    }

    /// Plans a move by `steps`. The reversal flag chooses the command set;
    /// the position moves by `steps` either way.
    pub fn new(steps: i32, reverse: bool) -> (r: Rotation)
        ensures
            r == Rotation::planned(steps as int, reverse),
            r.wf(),
            r.script() == rotation_script(steps as int, reverse),
    {
        Rotation::between(0, steps, reverse)
    }

    /// Plans the move that takes the motor from one step position to
    /// another, however far apart the two are.
    pub fn between(from: i32, to: i32, reverse: bool) -> (r: Rotation)
        ensures
            r == Rotation::spanning(from as int, to as int, reverse),
            r.wf(),
            r.script() == rotation_script(to - from, reverse),
    {
        let gap: i64 = to as i64 - from as i64;
        let size: u32 = if gap >= 0 {
            gap as u32
        } else {
            (-gap) as u32
        };
        let forward: bool = if reverse {
            gap < 0
        } else {
            gap > 0
        };
        let top: u32 = divisor(0);
        proof {
            Rotation::lemma_spanning(from as int, to as int, reverse);
        }
        Rotation::settle(forward, gap > 0, 0, size / top, size % top)
    }

    /// The command to send next; `None` once the move is complete.
    pub fn head(&self) -> (next: Option<UnitCommand>)
        ensures
            next == if self.script().len() > 0 {
                Some(self.script()[0])
            } else {
                None
            },
    {
        proof {
            use_type_invariant(self);
        }
        if self.pending > 0 {
            Some(unit_command(self.level, self.forward, self.positive))
        } else {
            proof {
                lemma_ladder_from_zero(self.level + 1, self.forward, self.positive);
            }
            None
        }
    }

    /// Whether every command of the move has been sent and acknowledged.
    pub fn is_complete(&self) -> (done: bool)
        ensures
            done == (self.script().len() == 0),
    {
        self.head().is_none()
    }

    /// Strikes the command that was just acknowledged.
    pub fn advance(&mut self)
        ensures
            *final(self) == old(self).advanced(),
            final(self).script() == if old(self).script().len() > 0 {
                old(self).script().drop_first()
            } else {
                old(self).script()
            },
    {
        proof {
            use_type_invariant(&*self);
            self.lemma_advanced();
        }
        if self.pending > 0 {
            *self = Rotation::settle(
                self.forward,
                self.positive,
                self.level,
                self.pending - 1,
                self.rest,
            );
        }
    }
}

/// The position after two runs of commands, one after the other.
pub proof fn lemma_position_concat(position: Option<i32>, a: Seq<UnitCommand>, b: Seq<UnitCommand>)
    ensures
        position_after(position, a + b) == position_after(position_after(position, a), b),
    decreases a.len(),
{
    if a.len() == 0 {
        assert(a + b =~= b);
    } else {
        assert((a + b).drop_first() =~= a.drop_first() + b);
        lemma_position_concat(shifted(position, a[0].delta as int), a.drop_first(), b);
    }
}

/// An unknown position stays unknown whatever is sent.
pub proof fn lemma_position_unknown(script: Seq<UnitCommand>)
    ensures
        position_after(None, script) is None,
    decreases script.len(),
{
    if script.len() > 0 {
        lemma_position_unknown(script.drop_first());
    }
}

proof fn lemma_position_copies(p: i32, c: UnitCommand, n: nat)
    requires
        i32::MIN <= p + n * c.delta <= i32::MAX,
    ensures
        position_after(Some(p), copies(c, n)) == Some((p + n * c.delta) as i32),
    decreases n,
{
    if n == 0 {
        assert(n * c.delta == 0) by (nonlinear_arith)
            requires
                n == 0,
        ;
    } else {
        let m = (n - 1) as nat;
        assert(n * c.delta == c.delta + m * c.delta) by (nonlinear_arith)
            requires
                m == n - 1,
        ;
        assert(c.delta >= 0 ==> m * c.delta >= 0) by (nonlinear_arith);
        assert(c.delta <= 0 ==> m * c.delta <= 0) by (nonlinear_arith);
        assert(copies(c, n).drop_first() =~= copies(c, m));
        lemma_position_copies((p + c.delta) as i32, c, m);
    }
}

proof fn lemma_position_ladder_from(p: i32, level: int, steps: nat, forward: bool, positive: bool)
    requires
        0 <= level < LADDER_LEVELS,
        positive ==> p + steps <= i32::MAX,
        !positive ==> i32::MIN <= p - steps,
    ensures
        position_after(Some(p), ladder_from(level, steps, forward, positive)) == Some(
            (if positive {
                p + steps
            } else {
                p - steps
            }) as i32,
        ),
    decreases LADDER_LEVELS - level,
{
    let d = divisor_at(level) as nat;
    let c = unit_at(level, forward, positive);
    let q = steps / d;
    let head = copies(c, q);
    let tail = ladder_from(level + 1, steps % d, forward, positive);
    lemma_fundamental_div_mod(steps as int, d as int);
    assert(q * (d as int) == (d as int) * q) by (nonlinear_arith);
    assert(q * (-(d as int)) == -((d as int) * q)) by (nonlinear_arith);
    assert(q * (d as int) >= 0) by (nonlinear_arith)
        requires
            q >= 0,
            d >= 0,
    ;
    lemma_position_concat(Some(p), head, tail);
    lemma_position_copies(p, c, q);
    let mid = (p + q * c.delta) as i32;
    if level + 1 < LADDER_LEVELS {
        lemma_position_ladder_from(mid, level + 1, steps % d, forward, positive);
    } else {
        assert(steps % d == 0);
        assert(tail =~= Seq::empty());
    }
}

/// A move by `steps` that is acknowledged throughout leaves the position
/// `steps` further, whichever way the motor is wired.
pub proof fn lemma_rotation_arrives(position: Option<i32>, steps: i32, reverse: bool)
    requires
        position matches Some(p) ==> i32::MIN <= p + steps <= i32::MAX,
    ensures
        position_after(position, rotation_script(steps as int, reverse)) == shifted(
            position,
            steps as int,
        ),
        displacement(rotation_script(steps as int, reverse)) == steps,
{
    let forward = uses_forward_set(steps as int, reverse);
    lemma_ladder_from_exact(0, magnitude(steps as int), forward, steps > 0);
    match position {
        Some(p) => {
            lemma_position_ladder_from(p, 0, magnitude(steps as int), forward, steps > 0);
        },
        None => {
            lemma_position_unknown(rotation_script(steps as int, reverse));
        },
    }
}

/// A move from one position to another that is acknowledged throughout
/// arrives there, whichever way the motor is wired and however far apart
/// the two are.
pub proof fn lemma_passage_arrives(from: i32, to: i32, reverse: bool)
    ensures
        position_after(Some(from), rotation_script(to - from, reverse)) == Some(to),
{
    let steps = to - from;
    lemma_position_ladder_from(
        from,
        0,
        magnitude(steps),
        uses_forward_set(steps, reverse),
        steps > 0,
    );
}

/// A move by `steps` followed at once by a move by `-steps`, both
/// acknowledged throughout, leaves the position where it was. The two moves
/// may even be sent under different reversal flags.
pub proof fn lemma_rotate_there_and_back(
    position: Option<i32>,
    steps: i32,
    reverse_out: bool,
    reverse_back: bool,
)
    requires
        steps != i32::MIN,
        position matches Some(p) ==> i32::MIN <= p + steps <= i32::MAX,
    ensures
        position_after(
            position_after(position, rotation_script(steps as int, reverse_out)),
            rotation_script(-(steps as int), reverse_back),
        ) == position,
{
    lemma_rotation_arrives(position, steps, reverse_out);
    let there = shifted(position, steps as int);
    lemma_rotation_arrives(there, (-steps) as i32, reverse_back);
}

} // verus!
