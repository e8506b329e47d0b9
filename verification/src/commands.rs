use vstd::prelude::*;

use crate::grid::Grid;
use crate::rover::Robot;

verus! {

/// A rover command, one per accepted letter: L turns left, R turns right,
/// F moves one cell forward.
#[derive(Clone, Copy, Debug, PartialEq, Eq, Structural)]
pub enum Command {
    L,
    R,
    F,
}

/// The letter-to-command table: exactly 'L', 'R' and 'F' are commands, every
/// other character is rejected.
pub open spec fn spec_parse_command(c: char) -> Option<Command> {
    if c == 'L' {
        Some(Command::L)
    } else if c == 'R' {
        Some(Command::R)
    } else if c == 'F' {
        Some(Command::F)
    } else {
        None
    }
}

/// Whether every letter of a batch is a command letter.
pub open spec fn all_valid(letters: Seq<char>) -> bool {
    forall|i: int| 0 <= i < letters.len() ==> spec_parse_command(letters[i]) is Some
}

/// Parse one command letter.
pub fn parse_command(c: char) -> (r: Option<Command>)
    ensures
        r == spec_parse_command(c),
{
    match c {
        'L' => Some(Command::L),
        'R' => Some(Command::R),
        'F' => Some(Command::F),
        _ => None,
    }
}

/// Parse a whole batch of command letters. The batch is accepted or rejected
/// as a whole: one letter outside {L, R, F} and nothing is returned, so that
/// no prefix of an invalid batch can ever reach a rover.
pub fn parse_commands(letters: &Vec<char>) -> (r: Option<Vec<Command>>)
    ensures
        r is Some <==> all_valid(letters@),
        (r matches Some(cmds) ==> {
            &&& cmds@.len() == letters@.len()
            &&& forall|i: int|
                0 <= i < letters@.len() ==> Some(cmds@[i]) == spec_parse_command(letters@[i])
        }),
{
    let mut cmds: Vec<Command> = Vec::new();
    let mut i: usize = 0;
    while i < letters.len()
        invariant
            i <= letters@.len(),
            cmds@.len() == i,
            forall|j: int| 0 <= j < i ==> Some(cmds@[j]) == spec_parse_command(letters@[j]),
        decreases letters@.len() - i,
    {
        match parse_command(letters[i]) {
            Some(cmd) => {
                cmds.push(cmd);
            },
            None => {
                assert(!all_valid(letters@)) by {
                    assert(spec_parse_command(letters@[i as int]) is None);
                }
                return None;
            },
        }
        i = i + 1;
    }
    Some(cmds)
}

impl Robot {
    /// The rover after one command: L and R turn, F moves against the grid.
    pub open spec fn spec_apply_command(self, grid: Grid, c: Command) -> Robot {
        match c {
            Command::L => self.spec_rotate_left(),
            Command::R => self.spec_rotate_right(),
            Command::F => self.spec_move_forward(grid),
        }
    }

    /// The rover after a command sequence: a fold over the sequence that
    /// checks the terminal state before each step, so that every command
    /// after the one that loses the rover is discarded.
    pub open spec fn spec_apply_commands(self, grid: Grid, cs: Seq<Command>) -> Robot
        decreases cs.len(),
    {
        if cs.len() == 0 {
            self
        } else if self.lost {
            self
        } else {
            self.spec_apply_command(grid, cs[0]).spec_apply_commands(grid, cs.skip(1))
        }
    }

    /// Apply one command against the grid. Never fails.
    pub fn apply_command(&mut self, grid: &Grid, c: Command)
        ensures
            *final(self) == old(self).spec_apply_command(*grid, c),
    {
        match c {
            Command::L => self.rotate_left(),
            Command::R => self.rotate_right(),
            Command::F => self.move_forward(grid),
        }
    }

    /// Apply a command sequence in order. The short-circuit on loss is part
    /// of the contract: the fold in `spec_apply_commands` stops changing the
    /// rover the instant it is lost, so the commands after the fatal move are
    /// silently discarded rather than queued.
    pub fn apply_commands(&mut self, grid: &Grid, cs: &Vec<Command>)
        ensures
            *final(self) == old(self).spec_apply_commands(*grid, cs@),
    {
        let ghost start: Robot = *self;
        let mut i: usize = 0;
        proof {
            assert(cs@.skip(0) =~= cs@);
        }
        while i < cs.len()
            invariant
                i <= cs@.len(),
                start.spec_apply_commands(*grid, cs@) == (*self).spec_apply_commands(
                    *grid,
                    cs@.skip(i as int),
                ),
            decreases cs@.len() - i,
        {
            self.apply_command(grid, cs[i]);
            proof {
                assert(cs@.skip(i as int)[0] == cs@[i as int]);
                assert(cs@.skip(i as int).skip(1) =~= cs@.skip(i as int + 1));
            }
            i = i + 1;
        }
        proof {
            assert(cs@.skip(cs@.len() as int) =~= Seq::<Command>::empty());
        }
    }
}

/// A lost rover ignores a whole command sequence, whatever it holds.
pub proof fn lemma_lost_ignores_commands(r: Robot, grid: Grid, cs: Seq<Command>)
    requires
        r.lost,
    ensures
        r.spec_apply_commands(grid, cs) == r,
{
}

} // verus!
