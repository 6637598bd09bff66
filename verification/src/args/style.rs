use super::{byte_or, flag_or, peek, upto, Argument, Color, Tokens};
use vstd::prelude::*;

verus! {

/// Set rich text styles. Booleans represent on or off.
#[derive(Copy, Clone, Debug, Eq, PartialEq)]
pub enum Style {
    /// Field is number of underlines (between 0 and 2).
    Underline(u8),
    Bold(bool),
    Italic(bool),
    Blink(bool),
    InvertColors(bool),
    Strikethrough(bool),
    Opacity(u8),
    FgColor(Color),
    BgColor(Color),
    /// The foreground color with this index in the user's configuration, or
    /// the configured default.
    FgColorCfg(Option<u8>),
    /// The background color with this index in the user's configuration, or
    /// the configured default.
    BgColorCfg(Option<u8>),
    Configured(ConfigStyle),
}

/// Some means of identifying a preconfigured style provided by the user.
#[derive(Copy, Clone, Debug, Eq, PartialEq, Hash, Ord, PartialOrd)]
pub enum ConfigStyle {
    Plain,
    CodeGroup(CodeGroup),
}

/// A kind of text found in source code, for syntax highlighting.
#[derive(Copy, Clone, Debug, Eq, PartialEq, Hash, Ord, PartialOrd)]
pub enum CodeGroup {
    Comment,
    Documentation,
    Error,
    Identifier,
    Keyword,
    Literal,
    Macro,
    Special,
    Type,
    Todo,
}

/// The byte that a token stands for, if there is a token.
pub open spec fn byte_of(t: Option<u64>) -> Option<u8> {
    match t {
        Some(n) => Some(n as u8),
        None => None,
    }
}

/// The tokens of a byte that may be absent.
pub open spec fn byte_tokens(b: Option<u8>) -> Seq<u64> {
    match b {
        Some(n) => seq![n as u64],
        None => Seq::<u64>::empty(),
    }
}

impl Argument for Style {
    /// Text is underlined at most twice.
    open spec fn faithful(&self) -> bool {
        match *self {
            Style::Underline(n) => n <= 2,
            _ => true,
        }
    }

    /// The tags: 1 to 9 as the variants are declared, then `a` for a
    /// configured style, `b` for a configured background color and `c` for a
    /// configured foreground color.
    open spec fn tokens(&self) -> Seq<u64> {
        match *self {
            Style::Underline(n) => seq![1u64, n as u64],
            Style::Bold(flag) => seq![2u64] + flag.tokens(),
            Style::Italic(flag) => seq![3u64] + flag.tokens(),
            Style::Blink(flag) => seq![4u64] + flag.tokens(),
            Style::InvertColors(flag) => seq![5u64] + flag.tokens(),
            Style::Strikethrough(flag) => seq![6u64] + flag.tokens(),
            Style::Opacity(n) => seq![7u64, n as u64],
            Style::FgColor(color) => seq![8u64] + color.tokens(),
            Style::BgColor(color) => seq![9u64] + color.tokens(),
            Style::Configured(style) => seq![10u64] + style.tokens(),
            Style::BgColorCfg(n) => seq![11u64] + byte_tokens(n),
            Style::FgColorCfg(n) => seq![12u64] + byte_tokens(n),
        }
    }

    /// A flag that is missing is on, a missing count of underlines is one
    /// and a missing opacity is full. More than two underlines, and a color
    /// or a configured style that cannot be read, give nothing.
    open spec fn parsed(toks: Seq<u64>, default: Option<Style>) -> Option<Style> {
        let flag = flag_or(peek(toks, 1), true);
        match peek(toks, 0) {
            None => default,
            Some(tag) => if tag == 1 {
                match peek(toks, 1) {
                    None => Some(Style::Underline(1)),
                    Some(n) => if n <= 2 {
                        Some(Style::Underline(n as u8))
                    } else {
                        None
                    },
                }
            } else if tag == 2 {
                Some(Style::Bold(flag))
            } else if tag == 3 {
                Some(Style::Italic(flag))
            } else if tag == 4 {
                Some(Style::Blink(flag))
            } else if tag == 5 {
                Some(Style::InvertColors(flag))
            } else if tag == 6 {
                Some(Style::Strikethrough(flag))
            } else if tag == 7 {
                Some(Style::Opacity(byte_or(peek(toks, 1), 0xff)))
            } else if tag == 8 {
                match Color::parsed(toks.skip(1), None) {
                    Some(color) => Some(Style::FgColor(color)),
                    None => None,
                }
            } else if tag == 9 {
                match Color::parsed(toks.skip(1), None) {
                    Some(color) => Some(Style::BgColor(color)),
                    None => None,
                }
            } else if tag == 10 {
                match ConfigStyle::parsed(toks.skip(1), None) {
                    Some(style) => Some(Style::Configured(style)),
                    None => None,
                }
            } else if tag == 11 {
                Some(Style::BgColorCfg(byte_of(peek(toks, 1))))
            } else if tag == 12 {
                Some(Style::FgColorCfg(byte_of(peek(toks, 1))))
            } else {
                default
            },
        }
    }

    open spec fn taken(toks: Seq<u64>) -> nat {
        match peek(toks, 0) {
            None => 0,
            Some(tag) => if tag == 8 || tag == 9 {
                1 + Color::taken(toks.skip(1))
            } else if tag == 10 {
                1 + ConfigStyle::taken(toks.skip(1))
            } else if 1 <= tag <= 12 {
                upto(toks, 2)
            } else {
                1
            },
        }
    }

    fn from_nums(args: &mut Tokens, default: Option<Style>) -> (r: Option<Style>) {
        let ghost toks = args@;
        let r = match args.next() {
            Some(1) => match args.next() {
                Some(0) => Some(Style::Underline(0)),
                Some(1) | None => Some(Style::Underline(1)),
                Some(2) => Some(Style::Underline(2)),
                _ => None,
            },
            Some(2) => match bool::from_nums(args, Some(true)) {
                Some(flag) => Some(Style::Bold(flag)),
                None => None,
            },
            Some(3) => match bool::from_nums(args, Some(true)) {
                Some(flag) => Some(Style::Italic(flag)),
                None => None,
            },
            Some(4) => match bool::from_nums(args, Some(true)) {
                Some(flag) => Some(Style::Blink(flag)),
                None => None,
            },
            Some(5) => match bool::from_nums(args, Some(true)) {
                Some(flag) => Some(Style::InvertColors(flag)),
                None => None,
            },
            Some(6) => match bool::from_nums(args, Some(true)) {
                Some(flag) => Some(Style::Strikethrough(flag)),
                None => None,
            },
            Some(7) => match args.next() {
                Some(n) => Some(Style::Opacity(#[verifier::truncate] (n as u8))),
                None => Some(Style::Opacity(0xff)),
            },
            Some(8) => match Color::from_nums(args, None) {
                Some(color) => Some(Style::FgColor(color)),
                None => None,
            },
            Some(9) => match Color::from_nums(args, None) {
                Some(color) => Some(Style::BgColor(color)),
                None => None,
            },
            Some(10) => match ConfigStyle::from_nums(args, None) {
                Some(style) => Some(Style::Configured(style)),
                None => None,
            },
            Some(11) => match args.next() {
                Some(n) => Some(Style::BgColorCfg(Some(#[verifier::truncate] (n as u8)))),
                None => Some(Style::BgColorCfg(None)),
            },
            Some(12) => match args.next() {
                Some(n) => Some(Style::FgColorCfg(Some(#[verifier::truncate] (n as u8)))),
                None => Some(Style::FgColorCfg(None)),
            },
            _ => default,
        };
        proof {
            assert(args@ =~= toks.skip(Self::taken(toks) as int));
        }
        r
    }

    fn push_nums(&self, out: &mut Vec<u64>) {
        match *self {
            Style::Underline(n) => {
                out.push(1);
                out.push(n as u64);
            },
            Style::Bold(flag) => {
                out.push(2);
                flag.push_nums(out);
            },
            Style::Italic(flag) => {
                out.push(3);
                flag.push_nums(out);
            },
            Style::Blink(flag) => {
                out.push(4);
                flag.push_nums(out);
            },
            Style::InvertColors(flag) => {
                out.push(5);
                flag.push_nums(out);
            },
            Style::Strikethrough(flag) => {
                out.push(6);
                flag.push_nums(out);
            },
            Style::Opacity(n) => {
                out.push(7);
                out.push(n as u64);
            },
            Style::FgColor(color) => {
                out.push(8);
                color.push_nums(out);
            },
            Style::BgColor(color) => {
                out.push(9);
                color.push_nums(out);
            },
            Style::Configured(style) => {
                out.push(10);
                style.push_nums(out);
            },
            Style::BgColorCfg(None) => {
                out.push(11);
            },
            Style::BgColorCfg(Some(n)) => {
                out.push(11);
                out.push(n as u64);
            },
            Style::FgColorCfg(None) => {
                out.push(12);
            },
            Style::FgColorCfg(Some(n)) => {
                out.push(12);
                out.push(n as u64);
            },
        }
        proof {
            assert(final(out)@ =~= old(out)@ + self.tokens());
        }
    }

    proof fn lemma_tokens_parse(self, default: Option<Style>) {
        match self {
            Style::FgColor(color) => {
                assert(self.tokens().skip(1) =~= color.tokens());
                color.lemma_tokens_parse(None);
            },
            Style::BgColor(color) => {
                assert(self.tokens().skip(1) =~= color.tokens());
                color.lemma_tokens_parse(None);
            },
            Style::Configured(style) => {
                assert(self.tokens().skip(1) =~= style.tokens());
                style.lemma_tokens_parse(None);
            },
            _ => {},
        }
    }

    proof fn lemma_parsed_faithful(toks: Seq<u64>, default: Option<Style>) {
    }
}

impl Argument for ConfigStyle {
    open spec fn faithful(&self) -> bool {
        true
    }

    open spec fn tokens(&self) -> Seq<u64> {
        match *self {
            ConfigStyle::Plain => seq![1u64],
            ConfigStyle::CodeGroup(group) => seq![2u64] + group.tokens(),
        }
    }

    /// A code group that cannot be read gives nothing, not the fallback.
    open spec fn parsed(toks: Seq<u64>, default: Option<ConfigStyle>) -> Option<ConfigStyle> {
        match peek(toks, 0) {
            None => default,
            Some(tag) => if tag == 1 {
                Some(ConfigStyle::Plain)
            } else if tag == 2 {
                match CodeGroup::parsed(toks.skip(1), None) {
                    Some(group) => Some(ConfigStyle::CodeGroup(group)),
                    None => None,
                }
            } else {
                default
            },
        }
    }

    open spec fn taken(toks: Seq<u64>) -> nat {
        match peek(toks, 0) {
            None => 0,
            Some(tag) => if tag == 2 {
                upto(toks, 2)
            } else {
                1
            },
        }
    }

    fn from_nums(args: &mut Tokens, default: Option<ConfigStyle>) -> (r: Option<ConfigStyle>) {
        let ghost toks = args@;
        let r = match args.next() {
            Some(1) => Some(ConfigStyle::Plain),
            Some(2) => match CodeGroup::from_nums(args, None) {
                Some(group) => Some(ConfigStyle::CodeGroup(group)),
                None => None,
            },
            _ => default,
        };
        proof {
            assert(args@ =~= toks.skip(Self::taken(toks) as int));
        }
        r
    }

    fn push_nums(&self, out: &mut Vec<u64>) {
        match *self {
            ConfigStyle::Plain => {
                out.push(1);
            },
            ConfigStyle::CodeGroup(group) => {
                out.push(2);
                group.push_nums(out);
            },
        }
        proof {
            assert(final(out)@ =~= old(out)@ + self.tokens());
        }
    }

    proof fn lemma_tokens_parse(self, default: Option<ConfigStyle>) {
        match self {
            ConfigStyle::CodeGroup(group) => {
                assert(self.tokens().skip(1) =~= group.tokens());
                group.lemma_tokens_parse(None);
            },
            _ => {},
        }
    }

    proof fn lemma_parsed_faithful(toks: Seq<u64>, default: Option<ConfigStyle>) {
    }
}

impl Default for ConfigStyle {
    fn default() -> (r: ConfigStyle)
        ensures
            r == ConfigStyle::Plain,
    {
        ConfigStyle::Plain
    }
}

impl CodeGroup {
    /// The tag that stands for this group.
    pub open spec fn tag(self) -> u64 {
        match self {
            CodeGroup::Keyword => 1,
            CodeGroup::Identifier => 2,
            CodeGroup::Type => 3,
            CodeGroup::Literal => 4,
            CodeGroup::Macro => 5,
            CodeGroup::Comment => 6,
            CodeGroup::Documentation => 7,
            CodeGroup::Error => 8,
            CodeGroup::Todo => 9,
            CodeGroup::Special => 10,
        }
    }
}

impl Argument for CodeGroup {
    open spec fn faithful(&self) -> bool {
        true
    }

    open spec fn tokens(&self) -> Seq<u64> {
        seq![self.tag()]
    }

    open spec fn parsed(toks: Seq<u64>, default: Option<CodeGroup>) -> Option<CodeGroup> {
        match peek(toks, 0) {
            None => default,
            Some(tag) => if tag == 1 {
                Some(CodeGroup::Keyword)
            } else if tag == 2 {
                Some(CodeGroup::Identifier)
            } else if tag == 3 {
                Some(CodeGroup::Type)
            } else if tag == 4 {
                Some(CodeGroup::Literal)
            } else if tag == 5 {
                Some(CodeGroup::Macro)
            } else if tag == 6 {
                Some(CodeGroup::Comment)
            } else if tag == 7 {
                Some(CodeGroup::Documentation)
            } else if tag == 8 {
                Some(CodeGroup::Error)
            } else if tag == 9 {
                Some(CodeGroup::Todo)
            } else if tag == 10 {
                Some(CodeGroup::Special)
            } else {
                default
            },
        }
    }

    open spec fn taken(toks: Seq<u64>) -> nat {
        upto(toks, 1)
    }

    fn from_nums(args: &mut Tokens, default: Option<CodeGroup>) -> (r: Option<CodeGroup>) {
        let t = args.next();
        proof {
            assert(args@ =~= old(args)@.skip(Self::taken(old(args)@) as int));
        }
        match t {
            Some(1) => Some(CodeGroup::Keyword),
            Some(2) => Some(CodeGroup::Identifier),
            Some(3) => Some(CodeGroup::Type),
            Some(4) => Some(CodeGroup::Literal),
            Some(5) => Some(CodeGroup::Macro),
            Some(6) => Some(CodeGroup::Comment),
            Some(7) => Some(CodeGroup::Documentation),
            Some(8) => Some(CodeGroup::Error),
            Some(9) => Some(CodeGroup::Todo),
            Some(10) => Some(CodeGroup::Special),
            _ => default,
        }
    }

    fn push_nums(&self, out: &mut Vec<u64>) {
        out.push(
            match *self {
                CodeGroup::Keyword => 1,
                CodeGroup::Identifier => 2,
                CodeGroup::Type => 3,
                CodeGroup::Literal => 4,
                CodeGroup::Macro => 5,
                CodeGroup::Comment => 6,
                CodeGroup::Documentation => 7,
                CodeGroup::Error => 8,
                CodeGroup::Todo => 9,
                CodeGroup::Special => 10,
            },
        );
        proof {
            assert(final(out)@ =~= old(out)@ + self.tokens());
        }
    }

    proof fn lemma_tokens_parse(self, default: Option<CodeGroup>) {
    }

    proof fn lemma_parsed_faithful(toks: Seq<u64>, default: Option<CodeGroup>) {
    }
}

} // verus!
