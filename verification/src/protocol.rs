//! The motor wire protocol.
//!
//! One command is one byte. The motor answers every byte with one line; the
//! line that holds the digit `1` and nothing else before its terminator is
//! the acknowledgment.
//! A coarse move is cut into unit commands along a fixed ladder of divisors,
//! a nudge is a single byte of its own.

use vstd::arithmetic::div_mod::lemma_fundamental_div_mod;
use vstd::prelude::*;

verus! {

/// Motor steps in one angular degree.
pub const STEPS_PER_DEGREE: i32 = 746;

/// Number of rungs of the divisor ladder.
pub const LADDER_LEVELS: usize = 7;

/// The byte that asks the motor for nothing but an acknowledgment.
pub const HEARTBEAT: u8 = 77;

/// Steps moved by a single stepping nudge.
pub const NUDGE_STEP: i32 = 6;

/// Steps moved by a resetting nudge, which takes back an overshoot.
pub const NUDGE_RESET: i32 = 12;

/// The divisor of a rung, largest first. Past the ladder it is 1.
pub open spec fn divisor_at(level: int) -> int {
    if level == 0 {
        3730
    } else if level == 1 {
        746
    } else if level == 2 {
        373
    } else if level == 3 {
        75
    } else if level == 4 {
        37
    } else if level == 5 {
        7
    } else {
        1
    }
}

/// The byte of the forward set that moves one unit of a rung.
pub open spec fn forward_byte_at(level: int) -> u8 {
    if level == 0 {
        62
    } else if level == 1 {
        60
    } else if level == 2 {
        58
    } else if level == 3 {
        56
    } else if level == 4 {
        64
    } else if level == 5 {
        66
    } else {
        68
    }
}

/// The byte of the backward set that moves one unit of a rung: always the
/// forward byte plus one, so the two sets share no byte.
pub open spec fn backward_byte_at(level: int) -> u8 {
    (forward_byte_at(level) + 1) as u8
}

/// One byte for the motor and what it does to the step position once the
/// motor has acknowledged it.
#[derive(Clone, Copy, Debug, PartialEq, Eq, Structural)]
pub struct UnitCommand {
    pub byte: u8,
    pub delta: i32,
}

/// The unit command of a rung: the byte by the command set, the position
/// change by the sign of the move.
pub open spec fn unit_at(level: int, forward: bool, positive: bool) -> UnitCommand {
    UnitCommand {
        byte: if forward {
            forward_byte_at(level)
        } else {
            backward_byte_at(level)
        },
        delta: if positive {
            divisor_at(level) as i32
        } else {
            (-divisor_at(level)) as i32
        },
    }
}

/// The divisor of a rung of the ladder.
pub fn divisor(level: usize) -> (d: u32)
    ensures
        d == divisor_at(level as int),
        d >= 1,
{
    if level == 0 {
        3730
    } else if level == 1 {
        746
    } else if level == 2 {
        373
    } else if level == 3 {
        75
    } else if level == 4 {
        37
    } else if level == 5 {
        7
    } else {
        1
    }
}

/// The unit command of a rung of the ladder.
pub fn unit_command(level: usize, forward: bool, positive: bool) -> (c: UnitCommand)
    ensures
        c == unit_at(level as int, forward, positive),
{
    let base: u8 = if level == 0 {
        62
    } else if level == 1 {
        60
    } else if level == 2 {
        58
    } else if level == 3 {
        56
    } else if level == 4 {
        64
    } else if level == 5 {
        66
    } else {
        68
    };
    let byte: u8 = if forward {
        base
    } else {
        base + 1
    };
    let size: i32 = divisor(level) as i32;
    UnitCommand {
        byte,
        delta: if positive {
            size
        } else {
            -size
        },
    }
}

/// `n` times the same command.
pub open spec fn copies(c: UnitCommand, n: nat) -> Seq<UnitCommand> {
    Seq::new(n, |i: int| c)
}

/// The ladder from rung `level` down, applied to `steps`: at each rung as many
/// unit commands as the divisor goes into what is left, the remainder carried
/// to the next rung.
pub open spec fn ladder_from(level: int, steps: nat, forward: bool, positive: bool) -> Seq<
    UnitCommand,
>
    decreases LADDER_LEVELS - level,
{
    if level < 0 || level >= LADDER_LEVELS {
        Seq::empty()
    } else {
        copies(unit_at(level, forward, positive), steps / (divisor_at(level) as nat))
            + ladder_from(level + 1, steps % (divisor_at(level) as nat), forward, positive)
    }
}

/// The whole divisor-ladder decomposition of a step count.
pub open spec fn ladder(steps: nat, forward: bool, positive: bool) -> Seq<UnitCommand> {
    ladder_from(0, steps, forward, positive)
}

/// The position change of a run of acknowledged commands.
pub open spec fn displacement(script: Seq<UnitCommand>) -> int
    decreases script.len(),
{
    if script.len() == 0 {
        0
    } else {
        script[0].delta + displacement(script.drop_first())
    }
}

/// The position change of two runs of commands, one after the other, is
/// the sum of their position changes.
pub proof fn lemma_displacement_concat(a: Seq<UnitCommand>, b: Seq<UnitCommand>)
    ensures
        displacement(a + b) == displacement(a) + displacement(b),
    decreases a.len(),
{
    if a.len() == 0 {
        assert(a + b =~= b);
    } else {
        assert((a + b).drop_first() =~= a.drop_first() + b);
        lemma_displacement_concat(a.drop_first(), b);
    }
}

/// The same command `n` times moves `n` times as far.
pub proof fn lemma_displacement_copies(c: UnitCommand, n: nat)
    ensures
        displacement(copies(c, n)) == n * c.delta,
    decreases n,
{
    if n == 0 {
    } else {
        assert(copies(c, n).drop_first() =~= copies(c, (n - 1) as nat));
        lemma_displacement_copies(c, (n - 1) as nat);
        assert(n * c.delta == c.delta + (n - 1) * c.delta) by (nonlinear_arith);
    }
}

/// From any rung of the ladder down, the unit commands add up to the steps
/// they were cut from: the last divisor is 1, so nothing is left over.
pub proof fn lemma_ladder_from_exact(level: int, steps: nat, forward: bool, positive: bool)
    requires
        0 <= level < LADDER_LEVELS,
    ensures
        displacement(ladder_from(level, steps, forward, positive)) == if positive {
            steps as int
        } else {
            -(steps as int)
        },
    decreases LADDER_LEVELS - level,
{
    let d = divisor_at(level) as nat;
    let head = copies(unit_at(level, forward, positive), steps / d);
    let tail = ladder_from(level + 1, steps % d, forward, positive);
    lemma_displacement_concat(head, tail);
    lemma_displacement_copies(unit_at(level, forward, positive), steps / d);
    lemma_fundamental_div_mod(steps as int, d as int);
    assert((steps / d) * (d as int) == (d as int) * (steps / d)) by (nonlinear_arith);
    assert((steps / d) * (-(d as int)) == -((d as int) * (steps / d))) by (nonlinear_arith);
    if level + 1 < LADDER_LEVELS {
        lemma_ladder_from_exact(level + 1, steps % d, forward, positive);
    } else {
        assert(steps % d == 0);
        assert(tail =~= Seq::empty());
    }
}

/// The divisor-ladder decomposition of a step count moves exactly that many
/// steps, in the direction asked for.
pub proof fn lemma_ladder_exact(steps: nat, forward: bool)
    ensures
        displacement(ladder(steps, forward, true)) == steps,
        displacement(ladder(steps, forward, false)) == -(steps as int),
{
    lemma_ladder_from_exact(0, steps, forward, true);
    lemma_ladder_from_exact(0, steps, forward, false);
}

/// A ladder applied to nothing sends nothing.
pub proof fn lemma_ladder_from_zero(level: int, forward: bool, positive: bool)
    ensures
        ladder_from(level, 0, forward, positive) =~= Seq::empty(),
    decreases LADDER_LEVELS - level,
{
    if level < 0 || level >= LADDER_LEVELS {
    } else {
        lemma_ladder_from_zero(level + 1, forward, positive);
        assert(copies(unit_at(level, forward, positive), 0) =~= Seq::empty());
    }
}

/// The four small moves of a search.
#[derive(Clone, Copy, Debug, PartialEq, Eq, Structural)]
pub enum MoveMode {
    StepForward,
    ResetForward,
    StepBackward,
    ResetBackward,
}

/// What a nudge does to the step position. It does not depend on how the
/// motor is wired.
pub open spec fn nudge_delta(mode: MoveMode) -> int {
    match mode {
        MoveMode::StepForward => 6,
        MoveMode::StepBackward => -6,
        MoveMode::ResetForward => -12,
        MoveMode::ResetBackward => 12,
    }
}

/// The byte of a nudge. Under the reversal flag the two stepping bytes change
/// places, and so do the two resetting bytes.
pub open spec fn nudge_byte(mode: MoveMode, reverse: bool) -> u8 {
    match mode {
        MoveMode::StepForward => if reverse {
            53
        } else {
            51
        },
        MoveMode::StepBackward => if reverse {
            51
        } else {
            53
        },
        MoveMode::ResetForward => if reverse {
            55
        } else {
            114
        },
        MoveMode::ResetBackward => if reverse {
            114
        } else {
            55
        },
    }
}

/// The command of a nudge.
pub open spec fn nudge_at(mode: MoveMode, reverse: bool) -> UnitCommand {
    UnitCommand { byte: nudge_byte(mode, reverse), delta: nudge_delta(mode) as i32 }
}

/// The command of a nudge.
pub fn nudge(mode: MoveMode, reverse: bool) -> (c: UnitCommand)
    ensures
        c == nudge_at(mode, reverse),
{
    match mode {
        MoveMode::StepForward => UnitCommand {
            byte: if reverse {
                53
            } else {
                51
            },
            delta: NUDGE_STEP,
        },
        MoveMode::StepBackward => UnitCommand {
            byte: if reverse {
                51
            } else {
                53
            },
            delta: -NUDGE_STEP,
        },
        MoveMode::ResetForward => UnitCommand {
            byte: if reverse {
                55
            } else {
                114
            },
            delta: -NUDGE_RESET,
        },
        MoveMode::ResetBackward => UnitCommand {
            byte: if reverse {
                114
            } else {
                55
            },
            delta: NUDGE_RESET,
        },
    }
}

/// A reply line without the terminator that ends it: a line feed, or a
/// carriage return and a line feed.
pub open spec fn unterminated(line: Seq<char>) -> Seq<char> {
    if line.len() >= 2 && line[line.len() - 2] == '\r' && line[line.len() - 1] == '\n' {
        line.take(line.len() - 2)
    } else if line.len() >= 1 && line[line.len() - 1] == '\n' {
        line.take(line.len() - 1)
    } else {
        line
    }
}

/// A reply line acknowledges a command when, without its terminator, it is
/// the digit `1` and nothing else.
pub open spec fn acknowledges(line: Seq<char>) -> bool {
    unterminated(line) == seq!['1']
}

/// Whether a reply line is the acknowledgment.
pub fn reply_is_ack(line: &str) -> (ok: bool)
    ensures
        ok == acknowledges(line@),
{
    let n: usize = line.unicode_len();
    let ghost rest = unterminated(line@);
    if n == 0 || n > 3 {
        assert(rest.len() != 1);
        assert(seq!['1'].len() == 1);
        return false;
    }
    let head: char = line.get_char(0);
    let ok: bool = if n == 1 {
        head == '1'
    } else if n == 2 {
        head == '1' && line.get_char(1) == '\n'
    } else {
        head == '1' && line.get_char(1) == '\r' && line.get_char(2) == '\n'
    };
    proof {
        if ok {
            assert(rest =~= seq!['1']);
        } else if rest.len() == 1 {
            assert(rest[0] == line@[0]);
            assert(seq!['1'][0] == '1');
        } else {
            assert(seq!['1'].len() == 1);
        }
    }
    ok
}

/// What came back after a command byte was written.
#[derive(Clone, Debug)]
pub enum Reply {
    /// A line was read.
    Line(String),
    /// Nothing arrived within the read timeout.
    TimedOut,
    /// The write or the read failed in another way.
    Failed,
}

/// The verdict on one command.
#[derive(Clone, Copy, Debug, PartialEq, Eq, Structural)]
pub enum AckOutcome {
    /// The motor acknowledged: the move has happened.
    Acked,
    /// A line arrived that is not the acknowledgment.
    Garbled,
    /// No line arrived in time.
    TimedOut,
    /// The port failed.
    Failed,
}

/// The verdict on what came back after a command byte.
pub open spec fn verdict(reply: Reply) -> AckOutcome {
    match reply {
        Reply::Line(line) => if acknowledges(line@) {
            AckOutcome::Acked
        } else {
            AckOutcome::Garbled
        },
        Reply::TimedOut => AckOutcome::TimedOut,
        Reply::Failed => AckOutcome::Failed,
    }
}

/// Judges what came back after a command byte: only the acknowledgment line
/// counts as success.
pub fn judge(reply: &Reply) -> (outcome: AckOutcome)
    ensures
        outcome == verdict(*reply),
{
    match reply {
        Reply::Line(line) => {
            if reply_is_ack(line.as_str()) {
                AckOutcome::Acked
            } else {
                AckOutcome::Garbled
            }
        },
        Reply::TimedOut => AckOutcome::TimedOut,
        Reply::Failed => AckOutcome::Failed,
    }
}

} // verus!
