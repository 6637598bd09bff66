use super::{peek, upto, Argument, Tokens};
use vstd::prelude::*;

verus! {

#[derive(Copy, Clone, Debug, Eq, PartialEq, Hash, Structural)]
pub enum MediaAlignment {
    LeftTop,
    Center,
    RightBottom,
}

#[derive(Copy, Clone, Debug, Eq, PartialEq, Hash, Structural)]
pub enum MediaPosition {
    Display(MediaAlignment, MediaAlignment),
    Fill,
    Fit,
    Stretch,
    Tile,
}

/// The alignment that a token stands for, anything unknown and no token at
/// all being the given default.
pub open spec fn alignment_or(t: Option<u64>, default: MediaAlignment) -> MediaAlignment {
    match t {
        Some(n) => if n == 1 {
            MediaAlignment::LeftTop
        } else if n == 2 {
            MediaAlignment::Center
        } else if n == 3 {
            MediaAlignment::RightBottom
        } else {
            default
        },
        None => default,
    }
}

impl MediaAlignment {
    /// The tag that stands for this alignment.
    pub open spec fn tag(self) -> u64 {
        match self {
            MediaAlignment::LeftTop => 1,
            MediaAlignment::Center => 2,
            MediaAlignment::RightBottom => 3,
        }
    }
}

impl Argument for MediaAlignment {
    open spec fn faithful(&self) -> bool {
        true
    }

    open spec fn tokens(&self) -> Seq<u64> {
        seq![self.tag()]
    }

    open spec fn parsed(toks: Seq<u64>, default: Option<MediaAlignment>) -> Option<
        MediaAlignment,
    > {
        match peek(toks, 0) {
            Some(n) => if 1 <= n <= 3 {
                Some(alignment_or(Some(n), MediaAlignment::LeftTop))
            } else {
                default
            },
            None => default,
        }
    }

    open spec fn taken(toks: Seq<u64>) -> nat {
        upto(toks, 1)
    }

    fn from_nums(args: &mut Tokens, default: Option<MediaAlignment>) -> (r: Option<
        MediaAlignment,
    >) {
        let t = args.next();
        proof {
            assert(args@ =~= old(args)@.skip(Self::taken(old(args)@) as int));
        }
        match t {
            Some(1) => Some(MediaAlignment::LeftTop),
            Some(2) => Some(MediaAlignment::Center),
            Some(3) => Some(MediaAlignment::RightBottom),
            _ => default,
        }
    }

    fn push_nums(&self, out: &mut Vec<u64>) {
        out.push(
            match *self {
                MediaAlignment::LeftTop => 1,
                MediaAlignment::Center => 2,
                MediaAlignment::RightBottom => 3,
            },
        );
        proof {
            assert(final(out)@ =~= old(out)@ + self.tokens());
        }
    }

    proof fn lemma_tokens_parse(self, default: Option<MediaAlignment>) {
    }

    proof fn lemma_parsed_faithful(toks: Seq<u64>, default: Option<MediaAlignment>) {
    }
}

impl Argument for MediaPosition {
    open spec fn faithful(&self) -> bool {
        true
    }

    open spec fn tokens(&self) -> Seq<u64> {
        match *self {
            MediaPosition::Display(hor, ver) => seq![1u64] + hor.tokens() + ver.tokens(),
            MediaPosition::Fill => seq![2u64],
            MediaPosition::Fit => seq![3u64],
            MediaPosition::Stretch => seq![4u64],
            MediaPosition::Tile => seq![5u64],
        }
    }

    /// A display position without its alignments is aligned left-top across
    /// and right-bottom down.
    open spec fn parsed(toks: Seq<u64>, default: Option<MediaPosition>) -> Option<
        MediaPosition,
    > {
        match peek(toks, 0) {
            None => default,
            Some(tag) => if tag == 1 {
                Some(
                    MediaPosition::Display(
                        alignment_or(peek(toks, 1), MediaAlignment::LeftTop),
                        alignment_or(peek(toks, 2), MediaAlignment::RightBottom),
                    ),
                )
            } else if tag == 2 {
                Some(MediaPosition::Fill)
            } else if tag == 3 {
                Some(MediaPosition::Fit)
            } else if tag == 4 {
                Some(MediaPosition::Stretch)
            } else if tag == 5 {
                Some(MediaPosition::Tile)
            } else {
                default
            },
        }
    }

    open spec fn taken(toks: Seq<u64>) -> nat {
        match peek(toks, 0) {
            None => 0,
            Some(tag) => if tag == 1 {
                upto(toks, 3)
            } else {
                1
            },
        }
    }

    fn from_nums(args: &mut Tokens, default: Option<MediaPosition>) -> (r: Option<
        MediaPosition,
    >) {
        let ghost toks = args@;
        let r = match args.next() {
            Some(1) => {
                let horizontal = MediaAlignment::from_nums(
                    args,
                    Some(MediaAlignment::LeftTop),
                ).unwrap();
                let vertical = MediaAlignment::from_nums(
                    args,
                    Some(MediaAlignment::RightBottom),
                ).unwrap();
                Some(MediaPosition::Display(horizontal, vertical))
            },
            Some(2) => Some(MediaPosition::Fill),
            Some(3) => Some(MediaPosition::Fit),
            Some(4) => Some(MediaPosition::Stretch),
            Some(5) => Some(MediaPosition::Tile),
            _ => default,
        };
        proof {
            assert(args@ =~= toks.skip(Self::taken(toks) as int));
        }
        r
    }

    fn push_nums(&self, out: &mut Vec<u64>) {
        match *self {
            MediaPosition::Display(hor, ver) => {
                out.push(1);
                hor.push_nums(out);
                ver.push_nums(out);
            },
            MediaPosition::Fill => {
                out.push(2);
            },
            MediaPosition::Fit => {
                out.push(3);
            },
            MediaPosition::Stretch => {
                out.push(4);
            },
            MediaPosition::Tile => {
                out.push(5);
            },
        }
        proof {
            assert(final(out)@ =~= old(out)@ + self.tokens());
        }
    }

    proof fn lemma_tokens_parse(self, default: Option<MediaPosition>) {
    }

    proof fn lemma_parsed_faithful(toks: Seq<u64>, default: Option<MediaPosition>) {
    }
}

impl Default for MediaPosition {
    fn default() -> (r: MediaPosition)
        ensures
            r == MediaPosition::Display(MediaAlignment::LeftTop, MediaAlignment::LeftTop),
    {
        MediaPosition::Display(MediaAlignment::LeftTop, MediaAlignment::LeftTop)
    }
}

} // verus!
