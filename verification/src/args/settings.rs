use super::{flag_or, peek, upto, Argument, Tokens};
use vstd::prelude::*;

verus! {

/// The control characters of line-buffered input.
#[derive(Copy, Clone, Eq, PartialEq, Debug, Structural)]
pub struct BufferSettings {
    pub eol1: u8,
    pub eol2: u8,
    pub eof: u8,
    pub intr: u8,
    pub quit: u8,
    pub susp: u8,
}

/// The control characters of echoed input.
#[derive(Copy, Clone, Debug, Eq, PartialEq, Structural)]
pub struct EchoSettings {
    pub lerase: u8,
    pub lnext: u8,
    pub werase: u8,
}

/// The mode the input processor is in.
#[derive(Copy, Clone, Eq, PartialEq, Debug)]
pub enum InputSettings {
    /// Ansi-compatible mode, boolean determines of "application" mode or not.
    Ansi(bool),
    /// Notty mode.
    Notty(()),
    LineBufferEcho(EchoSettings, BufferSettings),
    ScreenEcho(EchoSettings),
}

/// Whether a character is the 7-bit ASCII character with the given code.
pub open spec fn is_ascii_code(c: char, code: u8) -> bool {
    (c as u32) < 128 && c as u32 == code as u32
}

impl BufferSettings {
    pub open spec fn spec_eof(&self, c: char) -> bool {
        is_ascii_code(c, self.eof)
    }

    pub open spec fn spec_eol(&self, c: char) -> bool {
        is_ascii_code(c, self.eol1) || is_ascii_code(c, self.eol2) || is_ascii_code(c, self.eof)
    }

    pub open spec fn spec_signal(&self, c: char) -> bool {
        is_ascii_code(c, self.intr) || is_ascii_code(c, self.quit) || is_ascii_code(c, self.susp)
    }

    /// Whether a character ends the input.
    pub fn eof(&self, c: char) -> (r: bool)
        ensures
            r == self.spec_eof(c),
    {
        let n = c as u32;
        if n < 128 {
            n == self.eof as u32
        } else {
            false
        }
    }

    /// Whether a character ends a line: either end-of-line character, or
    /// the one that ends the input.
    pub fn eol(&self, c: char) -> (r: bool)
        ensures
            r == self.spec_eol(c),
    {
        let n = c as u32;
        if n < 128 {
            n == self.eol1 as u32 || n == self.eol2 as u32 || n == self.eof as u32
        } else {
            false
        }
    }

    /// Whether a character raises a signal: interrupt, quit or suspend.
    pub fn signal(&self, c: char) -> (r: bool)
        ensures
            r == self.spec_signal(c),
    {
        let n = c as u32;
        if n < 128 {
            n == self.intr as u32 || n == self.quit as u32 || n == self.susp as u32
        } else {
            false
        }
    }
}

impl Argument for BufferSettings {
    open spec fn faithful(&self) -> bool {
        true
    }

    open spec fn tokens(&self) -> Seq<u64> {
        seq![
            self.intr as u64,
            self.quit as u64,
            self.susp as u64,
            self.eol1 as u64,
            self.eol2 as u64,
            self.eof as u64,
        ]
    }

    open spec fn parsed(toks: Seq<u64>, default: Option<BufferSettings>) -> Option<
        BufferSettings,
    > {
        if toks.len() >= 6 {
            Some(
                BufferSettings {
                    intr: toks[0] as u8,
                    quit: toks[1] as u8,
                    susp: toks[2] as u8,
                    eol1: toks[3] as u8,
                    eol2: toks[4] as u8,
                    eof: toks[5] as u8,
                },
            )
        } else {
            default
        }
    }

    open spec fn taken(toks: Seq<u64>) -> nat {
        upto(toks, 6)
    }

    fn from_nums(args: &mut Tokens, default: Option<BufferSettings>) -> (r: Option<
        BufferSettings,
    >) {
        let ghost toks = args@;
        let intr = args.next();
        let quit = args.next();
        let susp = args.next();
        let eol1 = args.next();
        let eol2 = args.next();
        let eof = args.next();
        proof {
            assert(args@ =~= toks.skip(Self::taken(toks) as int));
        }
        match (intr, quit, susp, eol1, eol2, eof) {
            (Some(intr), Some(quit), Some(susp), Some(eol1), Some(eol2), Some(eof)) => Some(
                BufferSettings {
                    eol1: #[verifier::truncate] (eol1 as u8),
                    eol2: #[verifier::truncate] (eol2 as u8),
                    eof: #[verifier::truncate] (eof as u8),
                    intr: #[verifier::truncate] (intr as u8),
                    quit: #[verifier::truncate] (quit as u8),
                    susp: #[verifier::truncate] (susp as u8),
                },
            ),
            _ => default,
        }
    }

    fn push_nums(&self, out: &mut Vec<u64>) {
        out.push(self.intr as u64);
        out.push(self.quit as u64);
        out.push(self.susp as u64);
        out.push(self.eol1 as u64);
        out.push(self.eol2 as u64);
        out.push(self.eof as u64);
        proof {
            assert(final(out)@ =~= old(out)@ + self.tokens());
        }
    }

    proof fn lemma_tokens_parse(self, default: Option<BufferSettings>) {
    }

    proof fn lemma_parsed_faithful(toks: Seq<u64>, default: Option<BufferSettings>) {
    }
}

impl Argument for EchoSettings {
    open spec fn faithful(&self) -> bool {
        true
    }

    open spec fn tokens(&self) -> Seq<u64> {
        seq![self.lerase as u64, self.lnext as u64, self.werase as u64]
    }

    open spec fn parsed(toks: Seq<u64>, default: Option<EchoSettings>) -> Option<EchoSettings> {
        if toks.len() >= 3 {
            Some(
                EchoSettings {
                    lerase: toks[0] as u8,
                    lnext: toks[1] as u8,
                    werase: toks[2] as u8,
                },
            )
        } else {
            default
        }
    }

    open spec fn taken(toks: Seq<u64>) -> nat {
        upto(toks, 3)
    }

    fn from_nums(args: &mut Tokens, default: Option<EchoSettings>) -> (r: Option<EchoSettings>) {
        let ghost toks = args@;
        let lerase = args.next();
        let lnext = args.next();
        let werase = args.next();
        proof {
            assert(args@ =~= toks.skip(Self::taken(toks) as int));
        }
        match (lerase, lnext, werase) {
            (Some(lerase), Some(lnext), Some(werase)) => Some(
                EchoSettings {
                    lerase: #[verifier::truncate] (lerase as u8),
                    lnext: #[verifier::truncate] (lnext as u8),
                    werase: #[verifier::truncate] (werase as u8),
                },
            ),
            _ => default,
        }
    }

    fn push_nums(&self, out: &mut Vec<u64>) {
        out.push(self.lerase as u64);
        out.push(self.lnext as u64);
        out.push(self.werase as u64);
        proof {
            assert(final(out)@ =~= old(out)@ + self.tokens());
        }
    }

    proof fn lemma_tokens_parse(self, default: Option<EchoSettings>) {
    }

    proof fn lemma_parsed_faithful(toks: Seq<u64>, default: Option<EchoSettings>) {
    }
}

impl Argument for InputSettings {
    open spec fn faithful(&self) -> bool {
        true
    }

    /// The ANSI mode in application mode ends in a 1; out of application
    /// mode it ends without it.
    open spec fn tokens(&self) -> Seq<u64> {
        match *self {
            InputSettings::Ansi(application) => if application {
                seq![1u64, 1u64]
            } else {
                seq![1u64]
            },
            InputSettings::Notty(_) => seq![2u64],
            InputSettings::LineBufferEcho(echo, buffer) => seq![3u64] + echo.tokens()
                + buffer.tokens(),
            InputSettings::ScreenEcho(echo) => seq![4u64] + echo.tokens(),
        }
    }

    /// The ANSI mode without its flag is out of application mode. An echo
    /// mode without all of its control characters gives nothing, not the
    /// fallback.
    open spec fn parsed(toks: Seq<u64>, default: Option<InputSettings>) -> Option<
        InputSettings,
    > {
        match peek(toks, 0) {
            None => default,
            Some(tag) => if tag == 1 {
                Some(InputSettings::Ansi(flag_or(peek(toks, 1), false)))
            } else if tag == 2 {
                Some(InputSettings::Notty(()))
            } else if tag == 3 {
                if toks.len() >= 10 {
                    match (
                        EchoSettings::parsed(toks.subrange(1, 4), None),
                        BufferSettings::parsed(toks.subrange(4, 10), None),
                    ) {
                        (Some(echo), Some(buffer)) => Some(
                            InputSettings::LineBufferEcho(echo, buffer),
                        ),
                        _ => None,
                    }
                } else {
                    None
                }
            } else if tag == 4 {
                match EchoSettings::parsed(toks.skip(1), None) {
                    Some(echo) => Some(InputSettings::ScreenEcho(echo)),
                    None => None,
                }
            } else {
                default
            },
        }
    }

    open spec fn taken(toks: Seq<u64>) -> nat {
        match peek(toks, 0) {
            None => 0,
            Some(tag) => if tag == 3 {
                upto(toks, 10)
            } else if tag == 4 {
                upto(toks, 4)
            } else if tag == 1 {
                upto(toks, 2)
            } else {
                1
            },
        }
    }

    fn from_nums(args: &mut Tokens, default: Option<InputSettings>) -> (r: Option<
        InputSettings,
    >) {
        let ghost toks = args@;
        let r = match args.next() {
            Some(1) => match bool::from_nums(args, Some(false)) {
                Some(application) => Some(InputSettings::Ansi(application)),
                None => None,
            },
            Some(2) => Some(InputSettings::Notty(())),
            Some(3) => match EchoSettings::from_nums(args, None) {
                Some(echo) => {
                    match BufferSettings::from_nums(args, None) {
                        Some(buffer) => Some(InputSettings::LineBufferEcho(echo, buffer)),
                        None => None,
                    }
                },
                None => None,
            },
            Some(4) => match EchoSettings::from_nums(args, None) {
                Some(echo) => Some(InputSettings::ScreenEcho(echo)),
                None => None,
            },
            _ => default,
        };
        proof {
            assert(args@ =~= toks.skip(Self::taken(toks) as int));
        }
        r
    }

    fn push_nums(&self, out: &mut Vec<u64>) {
        match *self {
            InputSettings::Ansi(application) => {
                out.push(1);
                if application {
                    out.push(1);
                }
            },
            InputSettings::Notty(_) => {
                out.push(2);
            },
            InputSettings::LineBufferEcho(echo, buffer) => {
                out.push(3);
                echo.push_nums(out);
                buffer.push_nums(out);
            },
            InputSettings::ScreenEcho(echo) => {
                out.push(4);
                echo.push_nums(out);
            },
        }
        proof {
            assert(final(out)@ =~= old(out)@ + self.tokens());
        }
    }

    proof fn lemma_tokens_parse(self, default: Option<InputSettings>) {
        match self {
            InputSettings::LineBufferEcho(echo, buffer) => {
                let toks = self.tokens();
                assert(toks.subrange(1, 4) =~= echo.tokens());
                assert(toks.subrange(4, 10) =~= buffer.tokens());
            },
            InputSettings::ScreenEcho(echo) => {
                assert(self.tokens().skip(1) =~= echo.tokens());
            },
            _ => {},
        }
    }

    proof fn lemma_parsed_faithful(toks: Seq<u64>, default: Option<InputSettings>) {
    }
}

} // verus!
