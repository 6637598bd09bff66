use super::{peek, upto, Argument, Tokens};
use vstd::prelude::*;

verus! {

/// A coordinate pair: a cell of the grid.
#[derive(Copy, Clone, Default, Debug, Eq, PartialEq, Hash, Structural)]
pub struct Coords {
    pub x: u32,
    pub y: u32,
}

impl Argument for Coords {
    open spec fn faithful(&self) -> bool {
        true
    }

    open spec fn tokens(&self) -> Seq<u64> {
        seq![self.x as u64, self.y as u64]
    }

    open spec fn parsed(toks: Seq<u64>, default: Option<Coords>) -> Option<Coords> {
        if toks.len() >= 2 {
            Some(Coords { x: toks[0] as u32, y: toks[1] as u32 })
        } else {
            default
        }
    }

    open spec fn taken(toks: Seq<u64>) -> nat {
        upto(toks, 2)
    }

    fn from_nums(args: &mut Tokens, default: Option<Coords>) -> (r: Option<Coords>) {
        let x = args.next();
        let y = args.next();
        proof {
            assert(args@ =~= old(args)@.skip(Self::taken(old(args)@) as int));
        }
        match (x, y) {
            (Some(x), Some(y)) => Some(
                Coords { x: #[verifier::truncate] (x as u32), y: #[verifier::truncate] (y as u32) },
            ),
            _ => default,
        }
    }

    fn push_nums(&self, out: &mut Vec<u64>) {
        out.push(self.x as u64);
        out.push(self.y as u64);
        proof {
            assert(final(out)@ =~= old(out)@ + self.tokens());
        }
    }

    proof fn lemma_tokens_parse(self, default: Option<Coords>) {
    }

    proof fn lemma_parsed_faithful(toks: Seq<u64>, default: Option<Coords>) {
    }
}

} // verus!
