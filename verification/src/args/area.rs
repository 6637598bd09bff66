use super::{flag_or, peek, upto, Argument, Coords, Movement, Region, Tokens};
use vstd::prelude::*;

verus! {

/// An abstractly defined section of the grid.
///
/// Areas can be defined in terms of the current cursor position and the bounds of the grid. They
/// are converted into concrete sections of the screen when commands using Areas are applied.
#[derive(Copy, Clone, Debug, Eq, PartialEq, Structural)]
pub enum Area {
    /// The cell the cursor is in.
    CursorCell,
    /// The row the cursor is in.
    CursorRow,
    /// The column the cursor is in.
    CursorColumn,
    /// All cells the cursor would traverse through in performing a movement (including the cell
    /// the cursor is in now, and the cell it would end in).
    CursorTo(Movement),
    /// The rectangle bound in one corner by the cursor position and another by this coordinate.
    CursorBound(Coords),
    /// The entire screen.
    WholeScreen,
    /// A concrete rectangular section of the screen.
    Bound(Region),
    /// The rows between the two parameters, inclusive of the first but not the second.
    Rows(u32, u32),
    /// The columns between the two parameters, inclusive of the first but not the second.
    Columns(u32, u32),
    /// Everything below the row the cursor is in, the boolean determines if this is inclusive of
    /// the cursor or not (inclusive = true).
    BelowCursor(bool),
}

impl Argument for Area {
    /// An area is as faithful as the region or the movement that bounds it.
    open spec fn faithful(&self) -> bool {
        match *self {
            Area::CursorTo(mov) => mov.faithful(),
            Area::Bound(region) => region.faithful(),
            _ => true,
        }
    }

    /// The whole screen and a bound region share the tag 6: a region
    /// follows it or nothing does.
    open spec fn tokens(&self) -> Seq<u64> {
        match *self {
            Area::CursorCell => seq![1u64],
            Area::CursorRow => seq![2u64],
            Area::CursorColumn => seq![3u64],
            Area::CursorTo(mov) => seq![4u64] + mov.tokens(),
            Area::CursorBound(coords) => seq![5u64] + coords.tokens(),
            Area::WholeScreen => seq![6u64],
            Area::Bound(region) => seq![6u64] + region.tokens(),
            Area::Rows(top, bottom) => seq![7u64, top as u64, bottom as u64],
            Area::Columns(left, right) => seq![8u64, left as u64, right as u64],
            Area::BelowCursor(b) => seq![9u64] + b.tokens(),
        }
    }

    /// A region, rows or columns whose numbers are missing are the whole
    /// screen. A region whose corners are there but span nothing gives
    /// nothing, and so do a movement or coordinates that cannot be read. The
    /// area below the cursor holds the cursor's row unless told otherwise.
    open spec fn parsed(toks: Seq<u64>, default: Option<Area>) -> Option<Area> {
        match peek(toks, 0) {
            None => default,
            Some(tag) => if tag == 1 {
                Some(Area::CursorCell)
            } else if tag == 2 {
                Some(Area::CursorRow)
            } else if tag == 3 {
                Some(Area::CursorColumn)
            } else if tag == 4 {
                match Movement::parsed(toks.skip(1), None) {
                    Some(mov) => Some(Area::CursorTo(mov)),
                    None => None,
                }
            } else if tag == 5 {
                match Coords::parsed(toks.skip(1), None) {
                    Some(coords) => Some(Area::CursorBound(coords)),
                    None => None,
                }
            } else if tag == 6 {
                if toks.len() >= 5 {
                    match Region::parsed(toks.skip(1), None) {
                        Some(region) => Some(Area::Bound(region)),
                        None => None,
                    }
                } else {
                    Some(Area::WholeScreen)
                }
            } else if tag == 7 {
                if toks.len() >= 3 {
                    Some(Area::Rows(toks[1] as u32, toks[2] as u32))
                } else {
                    Some(Area::WholeScreen)
                }
            } else if tag == 8 {
                if toks.len() >= 3 {
                    Some(Area::Columns(toks[1] as u32, toks[2] as u32))
                } else {
                    Some(Area::WholeScreen)
                }
            } else if tag == 9 {
                Some(Area::BelowCursor(flag_or(peek(toks, 1), true)))
            } else {
                default
            },
        }
    }

    open spec fn taken(toks: Seq<u64>) -> nat {
        match peek(toks, 0) {
            None => 0,
            Some(tag) => if tag == 4 {
                1 + Movement::taken(toks.skip(1))
            } else if tag == 6 {
                upto(toks, 5)
            } else if tag == 5 || tag == 7 || tag == 8 {
                upto(toks, 3)
            } else if tag == 9 {
                upto(toks, 2)
            } else {
                1
            },
        }
    }

    fn from_nums(args: &mut Tokens, default: Option<Area>) -> (r: Option<Area>) {
        let ghost toks = args@;
        let r = match args.next() {
            Some(1) => Some(Area::CursorCell),
            Some(2) => Some(Area::CursorRow),
            Some(3) => Some(Area::CursorColumn),
            Some(4) => match Movement::from_nums(args, None) {
                Some(mov) => Some(Area::CursorTo(mov)),
                None => None,
            },
            Some(5) => match Coords::from_nums(args, None) {
                Some(coords) => Some(Area::CursorBound(coords)),
                None => None,
            },
            Some(6) => {
                let complete = args.remaining() >= 4;
                match Region::from_nums(args, None) {
                    Some(region) => Some(Area::Bound(region)),
                    None => if complete {
                        None
                    } else {
                        Some(Area::WholeScreen)
                    },
                }
            },
            Some(7) => {
                let top = args.next();
                let bottom = args.next();
                match (top, bottom) {
                    (Some(top), Some(bottom)) => Some(
                        Area::Rows(
                            #[verifier::truncate] (top as u32),
                            #[verifier::truncate] (bottom as u32),
                        ),
                    ),
                    _ => Some(Area::WholeScreen),
                }
            },
            Some(8) => {
                let left = args.next();
                let right = args.next();
                match (left, right) {
                    (Some(left), Some(right)) => Some(
                        Area::Columns(
                            #[verifier::truncate] (left as u32),
                            #[verifier::truncate] (right as u32),
                        ),
                    ),
                    _ => Some(Area::WholeScreen),
                }
            },
            Some(9) => match bool::from_nums(args, Some(true)) {
                Some(b) => Some(Area::BelowCursor(b)),
                None => None,
            },
            _ => default,
        };
        proof {
            assert(args@ =~= toks.skip(Self::taken(toks) as int));
        }
        r
    }

    fn push_nums(&self, out: &mut Vec<u64>) {
        match *self {
            Area::CursorCell => {
                out.push(1);
            },
            Area::CursorRow => {
                out.push(2);
            },
            Area::CursorColumn => {
                out.push(3);
            },
            Area::CursorTo(mov) => {
                out.push(4);
                mov.push_nums(out);
            },
            Area::CursorBound(coords) => {
                out.push(5);
                coords.push_nums(out);
            },
            Area::WholeScreen => {
                out.push(6);
            },
            Area::Bound(region) => {
                out.push(6);
                region.push_nums(out);
            },
            Area::Rows(top, bottom) => {
                out.push(7);
                out.push(top as u64);
                out.push(bottom as u64);
            },
            Area::Columns(left, right) => {
                out.push(8);
                out.push(left as u64);
                out.push(right as u64);
            },
            Area::BelowCursor(b) => {
                out.push(9);
                b.push_nums(out);
            },
        }
        proof {
            assert(final(out)@ =~= old(out)@ + self.tokens());
        }
    }

    proof fn lemma_tokens_parse(self, default: Option<Area>) {
        match self {
            Area::CursorTo(mov) => {
                assert(self.tokens().skip(1) =~= mov.tokens());
                mov.lemma_tokens_parse(None);
            },
            Area::CursorBound(coords) => {
                assert(self.tokens().skip(1) =~= coords.tokens());
            },
            Area::Bound(region) => {
                assert(self.tokens().skip(1) =~= region.tokens());
                region.lemma_tokens_parse(None);
            },
            Area::WholeScreen => {
                assert(self.tokens().skip(1) =~= Seq::<u64>::empty());
            },
            _ => {},
        }
    }

    proof fn lemma_parsed_faithful(toks: Seq<u64>, default: Option<Area>) {
        if toks.len() >= 1 {
            Region::lemma_parsed_faithful(toks.skip(1), None);
        }
    }
}

} // verus!
