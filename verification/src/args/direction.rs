use super::{peek, upto, Argument, Tokens};
use vstd::prelude::*;

verus! {

/// A direction of movement across the grid.
#[derive(Copy, Clone, Debug, Eq, PartialEq, Structural)]
pub enum Direction {
    Up,
    Down,
    Left,
    Right,
}

/// The direction that a token stands for, anything unknown and no token at
/// all being the given default.
pub open spec fn direction_or(t: Option<u64>, default: Direction) -> Direction {
    match t {
        Some(n) => if n == 1 {
            Direction::Up
        } else if n == 2 {
            Direction::Down
        } else if n == 3 {
            Direction::Left
        } else if n == 4 {
            Direction::Right
        } else {
            default
        },
        None => default,
    }
}

impl Direction {
    /// The opposite direction.
    pub open spec fn spec_rev(self) -> Direction {
        match self {
            Direction::Up => Direction::Down,
            Direction::Down => Direction::Up,
            Direction::Left => Direction::Right,
            Direction::Right => Direction::Left,
        }
    }

    /// The tag that stands for this direction.
    pub open spec fn tag(self) -> u64 {
        match self {
            Direction::Up => 1,
            Direction::Down => 2,
            Direction::Left => 3,
            Direction::Right => 4,
        }
    }

    /// The opposite direction.
    pub fn rev(&self) -> (r: Direction)
        ensures
            r == self.spec_rev(),
    {
        match *self {
            Direction::Up => Direction::Down,
            Direction::Down => Direction::Up,
            Direction::Left => Direction::Right,
            Direction::Right => Direction::Left,
        }
    }

    /// Turning round twice gives the direction back.
    pub proof fn lemma_rev_involution(self)
        ensures
            self.spec_rev().spec_rev() == self,
    {
    }
}

impl Argument for Direction {
    open spec fn faithful(&self) -> bool {
        true
    }

    open spec fn tokens(&self) -> Seq<u64> {
        seq![self.tag()]
    }

    open spec fn parsed(toks: Seq<u64>, default: Option<Direction>) -> Option<Direction> {
        match peek(toks, 0) {
            Some(n) => if 1 <= n <= 4 {
                Some(direction_or(Some(n), Direction::Up))
            } else {
                default
            },
            None => default,
        }
    }

    open spec fn taken(toks: Seq<u64>) -> nat {
        upto(toks, 1)
    }

    fn from_nums(args: &mut Tokens, default: Option<Direction>) -> (r: Option<Direction>) {
        let t = args.next();
        proof {
            assert(args@ =~= old(args)@.skip(Self::taken(old(args)@) as int));
        }
        match t {
            Some(1) => Some(Direction::Up),
            Some(2) => Some(Direction::Down),
            Some(3) => Some(Direction::Left),
            Some(4) => Some(Direction::Right),
            _ => default,
        }
    }

    fn push_nums(&self, out: &mut Vec<u64>) {
        out.push(
            match *self {
                Direction::Up => 1,
                Direction::Down => 2,
                Direction::Left => 3,
                Direction::Right => 4,
            },
        );
        proof {
            assert(final(out)@ =~= old(out)@ + self.tokens());
        }
    }

    proof fn lemma_tokens_parse(self, default: Option<Direction>) {
    }

    proof fn lemma_parsed_faithful(toks: Seq<u64>, default: Option<Direction>) {
    }
}

} // verus!
