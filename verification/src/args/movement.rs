use super::direction::direction_or;
use super::{flag_or, number_or, peek, upto, Argument, Coords, Direction, Tokens};
use vstd::prelude::*;

verus! {

/// Represents a manner in which the cursor can be moved.
#[derive(Copy, Clone, Debug, Eq, PartialEq, Structural)]
pub enum Movement {
    Position(Coords),
    To(Direction, u32, bool),
    ToEdge(Direction),
    IndexTo(Direction, u32),
    /// Arguments:
    /// * Direction of the tab character.
    /// * Number of tab stops "long" the movement should be.
    /// * Whether or not the movement should wrap when it reaches the end of the screen.
    Tab(Direction, u32, bool),
    Column(u32),
    Row(u32),
    PreviousLine(u32),
    NextLine(u32),
    ToBeginning,
    ToEnd,
}

impl Movement {
    /// The direction in which the cursor travels on this movement. A move to
    /// a column, a row or a position goes left or up where the target lies
    /// before the cursor, in reading order for a position, and right or down
    /// otherwise.
    pub open spec fn spec_direction(&self, cursor: Coords) -> Direction {
        match *self {
            Movement::To(d, _, _) => d,
            Movement::ToEdge(d) => d,
            Movement::IndexTo(d, _) => d,
            Movement::Tab(d, _, _) => d,
            Movement::ToBeginning => Direction::Left,
            Movement::ToEnd => Direction::Right,
            Movement::PreviousLine(_) => Direction::Up,
            Movement::NextLine(_) => Direction::Down,
            Movement::Column(n) => if n < cursor.x {
                Direction::Left
            } else {
                Direction::Right
            },
            Movement::Row(n) => if n < cursor.y {
                Direction::Up
            } else {
                Direction::Down
            },
            Movement::Position(coords) => if coords.y < cursor.y || (coords.y == cursor.y
                && coords.x < cursor.x) {
                Direction::Left
            } else {
                Direction::Right
            },
        }
    }

    /// Whether this movement is one of those that can scroll the screen.
    pub open spec fn spec_scrolls(&self) -> bool {
        *self is IndexTo || *self is PreviousLine || *self is NextLine
    }

    /// Returns the direction the cursor would travel in on taking this movement.
    pub fn direction(&self, cursor: Coords) -> (r: Direction)
        ensures
            r == self.spec_direction(cursor),
    {
        match *self {
            Movement::To(d, _, _) | Movement::ToEdge(d) | Movement::IndexTo(d, _) | Movement::Tab(
                d,
                _,
                _,
            ) => d,
            Movement::ToBeginning => Direction::Left,
            Movement::ToEnd => Direction::Right,
            Movement::PreviousLine(_) => Direction::Up,
            Movement::NextLine(_) => Direction::Down,
            Movement::Column(n) => if n < cursor.x {
                Direction::Left
            } else {
                Direction::Right
            },
            Movement::Row(n) => if n < cursor.y {
                Direction::Up
            } else {
                Direction::Down
            },
            Movement::Position(coords) => {
                if coords.y < cursor.y {
                    Direction::Left
                } else if coords.y == cursor.y && coords.x < cursor.x {
                    Direction::Left
                } else {
                    Direction::Right
                }
            },
        }
    }

    /// Returns true if this motion can cause the screen to scroll.
    pub fn scrolls(&self) -> (r: bool)
        ensures
            r == self.spec_scrolls(),
    {
        match *self {
            Movement::IndexTo(..) | Movement::PreviousLine(_) | Movement::NextLine(_) => true,
            _ => false,
        }
    }
}

impl Argument for Movement {
    open spec fn faithful(&self) -> bool {
        true
    }

    /// A line movement upwards and a move to the beginning end in a 1; the
    /// downward and the end-bound ones end without it.
    open spec fn tokens(&self) -> Seq<u64> {
        match *self {
            Movement::Position(coords) => seq![1u64] + coords.tokens(),
            Movement::To(dir, n, wrap) => seq![2u64] + dir.tokens() + n.tokens() + wrap.tokens(),
            Movement::ToEdge(dir) => seq![3u64] + dir.tokens(),
            Movement::IndexTo(dir, n) => seq![4u64] + dir.tokens() + n.tokens(),
            Movement::Tab(dir, n, wrap) => seq![5u64] + dir.tokens() + n.tokens() + wrap.tokens(),
            Movement::PreviousLine(n) => seq![6u64, n as u64, 1u64],
            Movement::NextLine(n) => seq![6u64, n as u64],
            Movement::Column(n) => seq![7u64, n as u64],
            Movement::Row(n) => seq![8u64, n as u64],
            Movement::ToBeginning => seq![9u64, 1u64],
            Movement::ToEnd => seq![9u64],
        }
    }

    /// A known tag always gives a movement: a field that is missing takes
    /// its default. A missing position is the origin, a missing direction
    /// is to the right, a missing count is one, a missing column or row is
    /// zero and a missing wrap flag is on. Without their trailing flag a
    /// line movement goes downwards and a move to an end goes to the end.
    open spec fn parsed(toks: Seq<u64>, default: Option<Movement>) -> Option<Movement> {
        let dir = direction_or(peek(toks, 1), Direction::Right);
        match peek(toks, 0) {
            None => default,
            Some(tag) => if tag == 1 {
                Some(
                    Movement::Position(
                        if toks.len() >= 3 {
                            Coords { x: toks[1] as u32, y: toks[2] as u32 }
                        } else {
                            Coords { x: 0, y: 0 }
                        },
                    ),
                )
            } else if tag == 2 {
                Some(
                    Movement::To(
                        dir,
                        number_or(peek(toks, 2), 1),
                        flag_or(peek(toks, 3), true),
                    ),
                )
            } else if tag == 3 {
                Some(Movement::ToEdge(dir))
            } else if tag == 4 {
                Some(Movement::IndexTo(dir, number_or(peek(toks, 2), 1)))
            } else if tag == 5 {
                Some(
                    Movement::Tab(
                        dir,
                        number_or(peek(toks, 2), 1),
                        flag_or(peek(toks, 3), true),
                    ),
                )
            } else if tag == 6 {
                if flag_or(peek(toks, 2), false) {
                    Some(Movement::PreviousLine(number_or(peek(toks, 1), 1)))
                } else {
                    Some(Movement::NextLine(number_or(peek(toks, 1), 1)))
                }
            } else if tag == 7 {
                Some(Movement::Column(number_or(peek(toks, 1), 0)))
            } else if tag == 8 {
                Some(Movement::Row(number_or(peek(toks, 1), 0)))
            } else if tag == 9 {
                if flag_or(peek(toks, 1), false) {
                    Some(Movement::ToBeginning)
                } else {
                    Some(Movement::ToEnd)
                }
            } else {
                default
            },
        }
    }

    open spec fn taken(toks: Seq<u64>) -> nat {
        match peek(toks, 0) {
            None => 0,
            Some(tag) => if tag == 2 || tag == 5 {
                upto(toks, 4)
            } else if tag == 1 || tag == 4 || tag == 6 {
                upto(toks, 3)
            } else if tag == 3 || tag == 7 || tag == 8 || tag == 9 {
                upto(toks, 2)
            } else {
                1
            },
        }
    }

    fn from_nums(args: &mut Tokens, default: Option<Movement>) -> (r: Option<Movement>) {
        let ghost toks = args@;
        let tag = args.next();
        let r = match tag {
            // Position
            Some(1) => match Coords::from_nums(args, Some(Coords { x: 0, y: 0 })) {
                Some(coords) => Some(Movement::Position(coords)),
                None => None,
            },
            // To
            Some(2) => {
                let dir = Direction::from_nums(args, Some(Direction::Right)).unwrap();
                let n = u32::from_nums(args, Some(1)).unwrap();
                let wrap = bool::from_nums(args, Some(true)).unwrap();
                Some(Movement::To(dir, n, wrap))
            },
            // ToEdge
            Some(3) => match Direction::from_nums(args, Some(Direction::Right)) {
                Some(dir) => Some(Movement::ToEdge(dir)),
                None => None,
            },
            // IndexTo
            Some(4) => {
                let dir = Direction::from_nums(args, Some(Direction::Right)).unwrap();
                let n = u32::from_nums(args, Some(1)).unwrap();
                Some(Movement::IndexTo(dir, n))
            },
            // Tab
            Some(5) => {
                let dir = Direction::from_nums(args, Some(Direction::Right)).unwrap();
                let n = u32::from_nums(args, Some(1)).unwrap();
                let wrap = bool::from_nums(args, Some(true)).unwrap();
                Some(Movement::Tab(dir, n, wrap))
            },
            // PreviousLine/NextLine
            Some(6) => {
                let n = u32::from_nums(args, Some(1)).unwrap();
                if bool::from_nums(args, Some(false)).unwrap() {
                    Some(Movement::PreviousLine(n))
                } else {
                    Some(Movement::NextLine(n))
                }
            },
            // Column
            Some(7) => match u32::from_nums(args, Some(0)) {
                Some(n) => Some(Movement::Column(n)),
                None => None,
            },
            // Row
            Some(8) => match u32::from_nums(args, Some(0)) {
                Some(n) => Some(Movement::Row(n)),
                None => None,
            },
            // ToBeginning/ToEnd
            Some(9) => {
                if bool::from_nums(args, Some(false)).unwrap() {
                    Some(Movement::ToBeginning)
                } else {
                    Some(Movement::ToEnd)
                }
            },
            _ => default,
        };
        proof {
            assert(args@ =~= toks.skip(Self::taken(toks) as int));
        }
        r
    }

    fn push_nums(&self, out: &mut Vec<u64>) {
        let ghost start = out@;
        match *self {
            Movement::Position(coords) => {
                out.push(1);
                coords.push_nums(out);
            },
            Movement::To(dir, n, wrap) => {
                out.push(2);
                dir.push_nums(out);
                n.push_nums(out);
                proof {
                    assert(out@ =~= start + (seq![2u64] + dir.tokens() + n.tokens()));
                }
                wrap.push_nums(out);
            },
            Movement::ToEdge(dir) => {
                out.push(3);
                dir.push_nums(out);
            },
            Movement::IndexTo(dir, n) => {
                out.push(4);
                dir.push_nums(out);
                n.push_nums(out);
            },
            Movement::Tab(dir, n, wrap) => {
                out.push(5);
                dir.push_nums(out);
                n.push_nums(out);
                proof {
                    assert(out@ =~= start + (seq![5u64] + dir.tokens() + n.tokens()));
                }
                wrap.push_nums(out);
            },
            Movement::PreviousLine(n) => {
                out.push(6);
                out.push(n as u64);
                out.push(1);
            },
            Movement::NextLine(n) => {
                out.push(6);
                out.push(n as u64);
            },
            Movement::Column(n) => {
                out.push(7);
                out.push(n as u64);
            },
            Movement::Row(n) => {
                out.push(8);
                out.push(n as u64);
            },
            Movement::ToBeginning => {
                out.push(9);
                out.push(1);
            },
            Movement::ToEnd => {
                out.push(9);
            },
        }
        proof {
            assert(out@ =~= start + self.tokens());
        }
    }

    proof fn lemma_tokens_parse(self, default: Option<Movement>) {
    }

    proof fn lemma_parsed_faithful(toks: Seq<u64>, default: Option<Movement>) {
    }
}

} // verus!
