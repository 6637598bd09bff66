use super::{peek, upto, Argument, Tokens};
use vstd::prelude::*;

verus! {

/// How the contents of a panel are fitted when the panel is split.
#[derive(Copy, Clone, Debug, Eq, PartialEq, Structural)]
pub enum ResizeRule {
    Percentage,
    MaxLeftTop,
    MaxRightBottom,
}

/// Which side of a split keeps the contents.
#[derive(Copy, Clone, Debug, Eq, PartialEq, Structural)]
pub enum SaveGrid {
    Left,
    Right,
}

/// The axis of a split, with the offset of the dividing line.
#[derive(Copy, Clone, Eq, PartialEq, Debug, Structural)]
pub enum SplitKind {
    Horizontal(u32),
    Vertical(u32),
}

impl Argument for ResizeRule {
    open spec fn faithful(&self) -> bool {
        true
    }

    open spec fn tokens(&self) -> Seq<u64> {
        match *self {
            ResizeRule::Percentage => seq![0u64],
            ResizeRule::MaxLeftTop => seq![1u64],
            ResizeRule::MaxRightBottom => seq![2u64],
        }
    }

    open spec fn parsed(toks: Seq<u64>, default: Option<ResizeRule>) -> Option<ResizeRule> {
        match peek(toks, 0) {
            Some(n) => if n == 0 {
                Some(ResizeRule::Percentage)
            } else if n == 1 {
                Some(ResizeRule::MaxLeftTop)
            } else if n == 2 {
                Some(ResizeRule::MaxRightBottom)
            } else {
                default
            },
            None => default,
        }
    }

    open spec fn taken(toks: Seq<u64>) -> nat {
        upto(toks, 1)
    }

    fn from_nums(args: &mut Tokens, default: Option<ResizeRule>) -> (r: Option<ResizeRule>) {
        let t = args.next();
        proof {
            assert(args@ =~= old(args)@.skip(Self::taken(old(args)@) as int));
        }
        match t {
            Some(0) => Some(ResizeRule::Percentage),
            Some(1) => Some(ResizeRule::MaxLeftTop),
            Some(2) => Some(ResizeRule::MaxRightBottom),
            _ => default,
        }
    }

    fn push_nums(&self, out: &mut Vec<u64>) {
        out.push(
            match *self {
                ResizeRule::Percentage => 0,
                ResizeRule::MaxLeftTop => 1,
                ResizeRule::MaxRightBottom => 2,
            },
        );
        proof {
            assert(final(out)@ =~= old(out)@ + self.tokens());
        }
    }

    proof fn lemma_tokens_parse(self, default: Option<ResizeRule>) {
    }

    proof fn lemma_parsed_faithful(toks: Seq<u64>, default: Option<ResizeRule>) {
    }
}

impl Argument for SaveGrid {
    open spec fn faithful(&self) -> bool {
        true
    }

    open spec fn tokens(&self) -> Seq<u64> {
        match *self {
            SaveGrid::Left => seq![0u64],
            SaveGrid::Right => seq![1u64],
        }
    }

    open spec fn parsed(toks: Seq<u64>, default: Option<SaveGrid>) -> Option<SaveGrid> {
        match peek(toks, 0) {
            Some(n) => if n == 0 {
                Some(SaveGrid::Left)
            } else if n == 1 {
                Some(SaveGrid::Right)
            } else {
                default
            },
            None => default,
        }
    }

    open spec fn taken(toks: Seq<u64>) -> nat {
        upto(toks, 1)
    }

    fn from_nums(args: &mut Tokens, default: Option<SaveGrid>) -> (r: Option<SaveGrid>) {
        let t = args.next();
        proof {
            assert(args@ =~= old(args)@.skip(Self::taken(old(args)@) as int));
        }
        match t {
            Some(0) => Some(SaveGrid::Left),
            Some(1) => Some(SaveGrid::Right),
            _ => default,
        }
    }

    fn push_nums(&self, out: &mut Vec<u64>) {
        out.push(
            match *self {
                SaveGrid::Left => 0,
                SaveGrid::Right => 1,
            },
        );
        proof {
            assert(final(out)@ =~= old(out)@ + self.tokens());
        }
    }

    proof fn lemma_tokens_parse(self, default: Option<SaveGrid>) {
    }

    proof fn lemma_parsed_faithful(toks: Seq<u64>, default: Option<SaveGrid>) {
    }
}

impl Argument for SplitKind {
    open spec fn faithful(&self) -> bool {
        true
    }

    open spec fn tokens(&self) -> Seq<u64> {
        match *self {
            SplitKind::Horizontal(n) => seq![0u64, n as u64],
            SplitKind::Vertical(n) => seq![1u64, n as u64],
        }
    }

    /// Nothing at all gives the fallback. A known axis with its offset gives
    /// the split; anything else, a lone axis too, gives nothing.
    open spec fn parsed(toks: Seq<u64>, default: Option<SplitKind>) -> Option<SplitKind> {
        if toks.len() == 0 {
            default
        } else if toks.len() >= 2 && toks[0] == 0 {
            Some(SplitKind::Horizontal(toks[1] as u32))
        } else if toks.len() >= 2 && toks[0] == 1 {
            Some(SplitKind::Vertical(toks[1] as u32))
        } else {
            None
        }
    }

    open spec fn taken(toks: Seq<u64>) -> nat {
        upto(toks, 2)
    }

    fn from_nums(args: &mut Tokens, default: Option<SplitKind>) -> (r: Option<SplitKind>) {
        let axis = args.next();
        let offset = args.next();
        proof {
            assert(args@ =~= old(args)@.skip(Self::taken(old(args)@) as int));
        }
        match (axis, offset) {
            (Some(0), Some(n)) => Some(SplitKind::Horizontal(#[verifier::truncate] (n as u32))),
            (Some(1), Some(n)) => Some(SplitKind::Vertical(#[verifier::truncate] (n as u32))),
            (None, None) => default,
            _ => None,
        }
    }

    fn push_nums(&self, out: &mut Vec<u64>) {
        match *self {
            SplitKind::Horizontal(n) => {
                out.push(0);
                out.push(n as u64);
            },
            SplitKind::Vertical(n) => {
                out.push(1);
                out.push(n as u64);
            },
        }
        proof {
            assert(final(out)@ =~= old(out)@ + self.tokens());
        }
    }

    proof fn lemma_tokens_parse(self, default: Option<SplitKind>) {
    }

    proof fn lemma_parsed_faithful(toks: Seq<u64>, default: Option<SplitKind>) {
    }
}

} // verus!
