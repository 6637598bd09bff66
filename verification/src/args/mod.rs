//! The arguments of commands, and how each is written as tokens.

pub mod area;
pub mod color;
pub mod coords;
pub mod direction;
pub mod grid;
pub mod media;
pub mod movement;
pub mod region;
pub mod settings;
pub mod style;

pub use self::area::Area;
pub use self::color::Color;
pub use self::coords::Coords;
pub use self::direction::Direction;
pub use self::grid::{ResizeRule, SaveGrid, SplitKind};
pub use self::media::{MediaAlignment, MediaPosition};
pub use self::movement::Movement;
pub use self::region::Region;
pub use self::settings::{BufferSettings, EchoSettings, InputSettings};
pub use self::style::{CodeGroup, ConfigStyle, Style};

use crate::token::{lemma_parse_render, parse, parse_tokens, render, render_tokens};
use vstd::prelude::*;

verus! {

/// The token at a place of a run, if the run reaches that far.
pub open spec fn peek(toks: Seq<u64>, i: int) -> Option<u64> {
    if 0 <= i < toks.len() {
        Some(toks[i])
    } else {
        None
    }
}

/// How many tokens are consumed when a number of them are asked for.
pub open spec fn upto(toks: Seq<u64>, k: nat) -> nat {
    if k <= toks.len() {
        k
    } else {
        toks.len()
    }
}

/// The flag that a token stands for: 0 or 1, anything else and no token at
/// all being the given default.
pub open spec fn flag_or(t: Option<u64>, default: bool) -> bool {
    match t {
        Some(n) => if n == 0 {
            false
        } else if n == 1 {
            true
        } else {
            default
        },
        None => default,
    }
}

/// The number that a token stands for, cut to 32 bits, no token at all
/// being the given default.
pub open spec fn number_or(t: Option<u64>, default: u32) -> u32 {
    match t {
        Some(n) => n as u32,
        None => default,
    }
}

/// The byte that a token stands for, cut to 8 bits, no token at all being
/// the given default.
pub open spec fn byte_or(t: Option<u64>, default: u8) -> u8 {
    match t {
        Some(n) => n as u8,
        None => default,
    }
}

/// A run of tokens that is read front to back, one token at a time. Its view
/// holds the tokens not read yet.
pub struct Tokens {
    items: Vec<u64>,
    pos: usize,
}

impl View for Tokens {
    type V = Seq<u64>;

    closed spec fn view(&self) -> Seq<u64> {
        if self.pos <= self.items@.len() {
            self.items@.skip(self.pos as int)
        } else {
            Seq::<u64>::empty()
        }
    }
}

impl Tokens {
    /// A run that starts at the first of the given tokens.
    pub fn new(items: Vec<u64>) -> (r: Tokens)
        ensures
            r@ == items@,
    {
        proof {
            assert(items@.skip(0) =~= items@);
        }
        Tokens { items, pos: 0 }
    }

    /// The number of tokens that are left.
    pub fn remaining(&self) -> (r: usize)
        ensures
            r == self@.len(),
    {
        if self.pos <= self.items.len() {
            self.items.len() - self.pos
        } else {
            0
        }
    }

    /// Takes the next token, if one is left.
    pub fn next(&mut self) -> (r: Option<u64>)
        ensures
            r == peek(old(self)@, 0),
            final(self)@ == old(self)@.skip(upto(old(self)@, 1) as int),
    {
        if self.pos < self.items.len() {
            let t = self.items[self.pos];
            self.pos = self.pos + 1;
            proof {
                assert(final(self)@ =~= old(self)@.skip(1));
            }
            Some(t)
        } else {
            proof {
                assert(final(self)@ =~= old(self)@.skip(0));
            }
            None
        }
    }
}

/// A value that can be written as tokens and read back from them.
pub trait Argument: Copy + Eq {
    /// Whether the tokens of this value carry all of it, so that reading
    /// them gives the value back.
    spec fn faithful(&self) -> bool;

    /// The tokens of this value: a tag first where the type has variants,
    /// then the tokens of the fields, in order, with nothing between them.
    spec fn tokens(&self) -> Seq<u64>;

    /// The value read from the front of a run of tokens, with the value to
    /// fall back on.
    spec fn parsed(toks: Seq<u64>, default: Option<Self>) -> Option<Self>;

    /// How many tokens reading a value takes from the front of a run.
    spec fn taken(toks: Seq<u64>) -> nat;

    /// Reads a value from the front of a run of tokens and leaves the rest
    /// of the run to the caller.
    fn from_nums(args: &mut Tokens, default: Option<Self>) -> (r: Option<Self>)
        ensures
            r == Self::parsed(old(args)@, default),
            final(args)@ == old(args)@.skip(Self::taken(old(args)@) as int),
    ;

    /// Appends the tokens of this value to a run.
    fn push_nums(&self, out: &mut Vec<u64>)
        ensures
            final(out)@ == old(out)@ + self.tokens(),
    ;

    /// Reading the tokens of a faithful value takes all of them and gives
    /// the value back, whatever the fallback; and a value has at least one
    /// token.
    proof fn lemma_tokens_parse(self, default: Option<Self>)
        requires
            self.faithful(),
        ensures
            self.tokens().len() >= 1,
            Self::parsed(self.tokens(), default) == Some(self),
            Self::taken(self.tokens()) == self.tokens().len(),
    ;

    /// What is read from tokens is faithful, where the fallback is.
    proof fn lemma_parsed_faithful(toks: Seq<u64>, default: Option<Self>)
        requires
            default matches Some(d) ==> d.faithful(),
        ensures
            Self::parsed(toks, default) matches Some(v) ==> v.faithful(),
    ;

    /// The text of this value: its tokens in base 16, dots between them.
    fn encode(&self) -> (r: String)
        ensures
            r@ == render(self.tokens()),
    {
        let mut nums: Vec<u64> = Vec::new();
        self.push_nums(&mut nums);
        proof {
            assert(Seq::<u64>::empty() + self.tokens() =~= self.tokens());
        }
        render_tokens(&nums)
    }

    /// Reads a value from a text. Without a text the result is the fallback.
    /// A text that is not made of tokens gives nothing; otherwise the value
    /// is read from the front of its tokens.
    fn decode(text: Option<&str>, default: Option<Self>) -> (r: Option<Self>)
        ensures
            r == match text {
                None => default,
                Some(t) => match parse_tokens(t@) {
                    None => None,
                    Some(toks) => Self::parsed(toks, default),
                },
            },
    {
        match text {
            None => default,
            Some(t) => match parse(t) {
                None => None,
                Some(nums) => {
                    let mut args = Tokens::new(nums);
                    Self::from_nums(&mut args, default)
                },
            },
        }
    }
}

/// What `decode` gives: the fallback without a text, nothing for a text
/// that is not made of tokens, and else the value at the front of the text's
/// tokens.
pub open spec fn decoded<T: Argument>(text: Option<Seq<char>>, default: Option<T>) -> Option<T> {
    match text {
        None => default,
        Some(t) => match parse_tokens(t) {
            None => None,
            Some(toks) => T::parsed(toks, default),
        },
    }
}

/// Every faithful value is read back from its own text, whatever the
/// fallback.
pub proof fn lemma_round_trip<T: Argument>(v: T, default: Option<T>)
    requires
        v.faithful(),
    ensures
        decoded::<T>(Some(render(v.tokens())), default) == Some(v),
{
    v.lemma_tokens_parse(default);
    lemma_parse_render(v.tokens());
}

/// Without a text, reading gives the fallback.
pub proof fn lemma_absent_text<T: Argument>(default: Option<T>)
    ensures
        decoded::<T>(None, default) == default,
{
}

impl Argument for bool {
    open spec fn faithful(&self) -> bool {
        true
    }

    open spec fn tokens(&self) -> Seq<u64> {
        seq![if *self { 1u64 } else { 0u64 }]
    }

    open spec fn parsed(toks: Seq<u64>, default: Option<bool>) -> Option<bool> {
        match peek(toks, 0) {
            Some(n) => if n == 0 {
                Some(false)
            } else if n == 1 {
                Some(true)
            } else {
                default
            },
            None => default,
        }
    }

    open spec fn taken(toks: Seq<u64>) -> nat {
        upto(toks, 1)
    }

    fn from_nums(args: &mut Tokens, default: Option<bool>) -> (r: Option<bool>) {
        let t = args.next();
        proof {
            assert(args@ =~= old(args)@.skip(Self::taken(old(args)@) as int));
        }
        match t {
            Some(0) => Some(false),
            Some(1) => Some(true),
            _ => default,
        }
    }

    fn push_nums(&self, out: &mut Vec<u64>) {
        out.push(if *self { 1 } else { 0 });
        proof {
            assert(final(out)@ =~= old(out)@ + self.tokens());
        }
    }

    proof fn lemma_tokens_parse(self, default: Option<bool>) {
    }

    proof fn lemma_parsed_faithful(toks: Seq<u64>, default: Option<bool>) {
    }
}

impl Argument for u32 {
    open spec fn faithful(&self) -> bool {
        true
    }

    open spec fn tokens(&self) -> Seq<u64> {
        seq![*self as u64]
    }

    open spec fn parsed(toks: Seq<u64>, default: Option<u32>) -> Option<u32> {
        match peek(toks, 0) {
            Some(n) => Some(n as u32),
            None => default,
        }
    }

    open spec fn taken(toks: Seq<u64>) -> nat {
        upto(toks, 1)
    }

    fn from_nums(args: &mut Tokens, default: Option<u32>) -> (r: Option<u32>) {
        let t = args.next();
        proof {
            assert(args@ =~= old(args)@.skip(Self::taken(old(args)@) as int));
        }
        match t {
            Some(n) => Some(#[verifier::truncate] (n as u32)),
            None => default,
        }
    }

    fn push_nums(&self, out: &mut Vec<u64>) {
        out.push(*self as u64);
        proof {
            assert(final(out)@ =~= old(out)@ + self.tokens());
        }
    }

    proof fn lemma_tokens_parse(self, default: Option<u32>) {
    }

    proof fn lemma_parsed_faithful(toks: Seq<u64>, default: Option<u32>) {
    }
}

impl Argument for u64 {
    open spec fn faithful(&self) -> bool {
        true
    }

    open spec fn tokens(&self) -> Seq<u64> {
        seq![*self]
    }

    open spec fn parsed(toks: Seq<u64>, default: Option<u64>) -> Option<u64> {
        match peek(toks, 0) {
            Some(n) => Some(n),
            None => default,
        }
    }

    open spec fn taken(toks: Seq<u64>) -> nat {
        upto(toks, 1)
    }

    fn from_nums(args: &mut Tokens, default: Option<u64>) -> (r: Option<u64>) {
        let t = args.next();
        proof {
            assert(args@ =~= old(args)@.skip(Self::taken(old(args)@) as int));
        }
        match t {
            Some(n) => Some(n),
            None => default,
        }
    }

    fn push_nums(&self, out: &mut Vec<u64>) {
        out.push(*self);
        proof {
            assert(final(out)@ =~= old(out)@ + self.tokens());
        }
    }

    proof fn lemma_tokens_parse(self, default: Option<u64>) {
    }

    proof fn lemma_parsed_faithful(toks: Seq<u64>, default: Option<u64>) {
    }
}

} // verus!
