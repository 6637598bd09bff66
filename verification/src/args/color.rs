use super::{peek, upto, Argument, Tokens};
use vstd::prelude::*;

verus! {

#[derive(Copy, Clone, PartialEq, Eq, Debug, Structural)]
pub enum Color {
    /// The default color for this item.
    Default,
    /// An index into the 256-member provided color palette.
    Palette(u8),
    /// A 24-bit rgb color triple.
    True(u8, u8, u8),
}

impl Default for Color {
    fn default() -> (r: Color)
        ensures
            r == Color::Default,
    {
        Color::Default
    }
}

impl Argument for Color {
    open spec fn faithful(&self) -> bool {
        true
    }

    open spec fn tokens(&self) -> Seq<u64> {
        match *self {
            Color::Default => seq![0u64],
            Color::Palette(n) => seq![1u64, n as u64],
            Color::True(r, g, b) => seq![2u64, r as u64, g as u64, b as u64],
        }
    }

    /// A palette color without its index and a true color without all three
    /// of its parts give nothing, not the fallback.
    open spec fn parsed(toks: Seq<u64>, default: Option<Color>) -> Option<Color> {
        match peek(toks, 0) {
            None => default,
            Some(tag) => if tag == 0 {
                Some(Color::Default)
            } else if tag == 1 {
                if toks.len() >= 2 {
                    Some(Color::Palette(toks[1] as u8))
                } else {
                    None
                }
            } else if tag == 2 {
                if toks.len() >= 4 {
                    Some(Color::True(toks[1] as u8, toks[2] as u8, toks[3] as u8))
                } else {
                    None
                }
            } else {
                default
            },
        }
    }

    open spec fn taken(toks: Seq<u64>) -> nat {
        match peek(toks, 0) {
            None => 0,
            Some(tag) => if tag == 1 {
                upto(toks, 2)
            } else if tag == 2 {
                upto(toks, 4)
            } else {
                1
            },
        }
    }

    fn from_nums(args: &mut Tokens, default: Option<Color>) -> (r: Option<Color>) {
        let ghost toks = args@;
        let r = match args.next() {
            Some(0) => Some(Color::Default),
            Some(1) => match args.next() {
                Some(n) => Some(Color::Palette(#[verifier::truncate] (n as u8))),
                None => None,
            },
            Some(2) => {
                let r = args.next();
                let g = args.next();
                let b = args.next();
                match (r, g, b) {
                    (Some(r), Some(g), Some(b)) => Some(
                        Color::True(
                            #[verifier::truncate] (r as u8),
                            #[verifier::truncate] (g as u8),
                            #[verifier::truncate] (b as u8),
                        ),
                    ),
                    _ => None,
                }
            },
            _ => default,
        };
        proof {
            assert(args@ =~= toks.skip(Self::taken(toks) as int));
        }
        r
    }

    fn push_nums(&self, out: &mut Vec<u64>) {
        match *self {
            Color::Default => {
                out.push(0);
            },
            Color::Palette(n) => {
                out.push(1);
                out.push(n as u64);
            },
            Color::True(r, g, b) => {
                out.push(2);
                out.push(r as u64);
                out.push(g as u64);
                out.push(b as u64);
            },
        }
        proof {
            assert(final(out)@ =~= old(out)@ + self.tokens());
        }
    }

    proof fn lemma_tokens_parse(self, default: Option<Color>) {
    }

    proof fn lemma_parsed_faithful(toks: Seq<u64>, default: Option<Color>) {
    }
}

} // verus!
