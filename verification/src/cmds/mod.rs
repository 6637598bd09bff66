//! The commands, and the frame that carries one to the terminal.

pub mod echo;
pub mod erase;
pub mod meta;
pub mod movement;
pub mod panel;
pub mod put;
pub mod style;
pub mod tooltip;

pub use self::echo::{SetBufferMode, SetEchoMode};
pub use self::erase::{Erase, InsertBlank, InsertRows, RemoveChars, RemoveRows};
pub use self::meta::{HoldForInput, SetInputMode, SetTitle};
pub use self::movement::{Move, ScrollScreen};
pub use self::panel::{
    AdjustPanelSplit, PopPanel, PushPanel, RotateSectionDown, RotateSectionUp, SplitPanel,
    SwitchActiveSection, UnsplitPanel,
};
pub use self::put::{PutMedia, PutMediaAt};
pub use self::style::{
    DefaultCursorStyle, DefaultStyleInArea, DefaultTextStyle, SetCursorStyle, SetStyleInArea,
    SetTextStyle,
};
pub use self::tooltip::{AddDropDown, AddToolTip, RemoveToolTip};

use crate::args::Argument;
use crate::token::{hex_text, push_hex, render};
use vstd::prelude::*;
use vstd::string::*;

verus! {

/// The text that an attachment is carried as: its bytes in base64, the
/// standard alphabet with padding.
pub uninterp spec fn base64_text(bytes: Seq<u8>) -> Seq<char>;

/// The characters of base64 text: letters, digits, `+`, `/` and the padding.
pub open spec fn is_base64_char(c: char) -> bool {
    ('A' <= c && c <= 'Z') || ('a' <= c && c <= 'z') || ('0' <= c && c <= '9') || c == '+' || c
        == '/' || c == '='
}

/// Whether an attachment of this many bytes has a base64 text whose length
/// still is a `usize`.
pub open spec fn fits_base64(len: nat) -> bool {
    len / 3 * 4 + 4 <= usize::MAX
}

/// The characters that open a frame.
pub open spec fn introducer() -> Seq<char> {
    seq!['\u{1b}', '_', '[']
}

/// The character that closes a frame.
pub open spec fn terminator() -> char {
    '\u{9c}'
}

/// The views of a list of texts.
pub open spec fn texts(v: Seq<String>) -> Seq<Seq<char>> {
    Seq::new(v.len(), |i: int| v[i]@)
}

/// The views of a list of attachments.
pub open spec fn blobs(v: Seq<Vec<u8>>) -> Seq<Seq<u8>> {
    Seq::new(v.len(), |i: int| v[i]@)
}

/// The base64 text of each attachment of a list.
pub open spec fn base64_texts(attachments: Seq<Seq<u8>>) -> Seq<Seq<char>> {
    Seq::new(attachments.len(), |i: int| base64_text(attachments[i]))
}

/// The items of a list in order, each behind the separator.
pub open spec fn led(lead: char, items: Seq<Seq<char>>) -> Seq<char>
    decreases items.len(),
{
    if items.len() == 0 {
        Seq::<char>::empty()
    } else {
        led(lead, items.drop_last()) + seq![lead] + items.last()
    }
}

/// A frame: the introducer, the opcode in base 16, each argument behind a
/// `;`, each attachment text behind a `#`, and the terminator.
pub open spec fn frame_text(opcode: u16, args: Seq<Seq<char>>, attachments: Seq<Seq<char>>) -> Seq<
    char,
> {
    introducer() + hex_text(opcode as nat) + led(';', args) + led('#', attachments)
        + seq![terminator()]
}

/// The text of an argument.
pub open spec fn arg_text<T: Argument>(arg: T) -> Seq<char> {
    render(arg.tokens())
}

/// The text of an argument that may be left out: one text or none.
pub open spec fn opt_arg_text<T: Argument>(arg: Option<T>) -> Seq<Seq<char>> {
    match arg {
        Some(a) => seq![arg_text(a)],
        None => Seq::<Seq<char>>::empty(),
    }
}

/// Calls `base64::Engine::encode` on the engine
/// `base64::engine::general_purpose::STANDARD`. The result is a function of
/// the bytes alone and is made of the characters of the standard alphabet
/// and the padding character. The call panics where the length of the
/// result is no `usize`, which the precondition rules out.
#[verifier::external_body]
fn base64_encode(bytes: &Vec<u8>) -> (r: String)
    requires
        fits_base64(bytes@.len()),
    ensures
        r@ == base64_text(bytes@),
        forall|i: int| 0 <= i < r@.len() ==> is_base64_char(#[trigger] r@[i]),
{
    base64::Engine::encode(&base64::engine::general_purpose::STANDARD, bytes)
}

/// Appends each text of a list to a text, each behind the separator.
fn push_led(out: &mut String, lead: &str, items: &Vec<String>)
    requires
        lead@.len() == 1,
    ensures
        final(out)@ == old(out)@ + led(lead@[0], texts(items@)),
{
    let mut i: usize = 0;
    proof {
        assert(texts(items@).take(0) =~= Seq::<Seq<char>>::empty());
        assert(out@ =~= old(out)@ + led(lead@[0], texts(items@).take(0)));
    }
    while i < items.len()
        invariant
            i <= items.len(),
            lead@.len() == 1,
            out@ == old(out)@ + led(lead@[0], texts(items@).take(i as int)),
        decreases items.len() - i,
    {
        out.append(lead);
        out.append(items[i].as_str());
        proof {
            let next = texts(items@).take(i + 1);
            assert(next.drop_last() =~= texts(items@).take(i as int));
            assert(next.last() == items@[i as int]@);
            assert(lead@ =~= seq![lead@[0]]);
            assert(out@ =~= old(out)@ + led(lead@[0], next));
        }
        i += 1;
    }
    proof {
        assert(texts(items@).take(items.len() as int) =~= texts(items@));
    }
}

/// Puts an opcode, arguments that are written already and attachments that
/// are base64 text already into one frame. Arguments and attachments keep
/// their order.
pub fn frame(opcode: u16, args: &Vec<String>, attachments: &Vec<String>) -> (r: String)
    ensures
        r@ == frame_text(opcode, texts(args@), texts(attachments@)),
{
    let mut out = String::from_str("\u{1b}_[");
    proof {
        reveal_strlit("\u{1b}_[");
        reveal_strlit(";");
        reveal_strlit("#");
        reveal_strlit("\u{9c}");
        assert(out@ =~= introducer());
    }
    push_hex(&mut out, opcode as u64);
    push_led(&mut out, ";", args);
    push_led(&mut out, "#", attachments);
    out.append("\u{9c}");
    proof {
        assert("\u{9c}"@ =~= seq![terminator()]);
    }
    out
}

/// Whether every attachment of a list is short enough to be carried in a
/// frame.
pub fn fits_in_frame(attachments: &Vec<Vec<u8>>) -> (r: bool)
    ensures
        r == forall|i: int|
            0 <= i < attachments@.len() ==> fits_base64((#[trigger] attachments@[i])@.len()),
{
    let mut i: usize = 0;
    while i < attachments.len()
        invariant
            i <= attachments.len(),
            forall|k: int| 0 <= k < i ==> fits_base64((#[trigger] attachments@[k])@.len()),
        decreases attachments.len() - i,
    {
        if attachments[i].len() / 3 > (usize::MAX - 4) / 4 {
            return false;
        }
        i += 1;
    }
    true
}

/// The base64 text of each attachment, in order.
pub fn encode_attachments(attachments: &Vec<Vec<u8>>) -> (r: Vec<String>)
    requires
        forall|i: int|
            0 <= i < attachments@.len() ==> fits_base64((#[trigger] attachments@[i])@.len()),
    ensures
        texts(r@) == base64_texts(blobs(attachments@)),
        forall|i: int, j: int|
            0 <= i < r@.len() && 0 <= j < r@[i]@.len() ==> is_base64_char(#[trigger] r@[i]@[j]),
{
    let mut out: Vec<String> = Vec::new();
    let mut i: usize = 0;
    while i < attachments.len()
        invariant
            i <= attachments.len(),
            out@.len() == i,
            forall|k: int|
                0 <= k < attachments@.len() ==> fits_base64((#[trigger] attachments@[k])@.len()),
            forall|k: int| 0 <= k < i ==> (#[trigger] out@[k])@ == base64_text(attachments@[k]@),
            forall|k: int, j: int|
                0 <= k < i && 0 <= j < out@[k]@.len() ==> is_base64_char(#[trigger] out@[k]@[j]),
        decreases attachments.len() - i,
    {
        out.push(base64_encode(&attachments[i]));
        i += 1;
    }
    proof {
        assert(texts(out@) =~= base64_texts(blobs(attachments@)));
    }
    out
}

/// A command of the protocol: an opcode, arguments and attachments.
pub trait EscCode {
    /// The number of this command.
    spec fn spec_opcode(&self) -> u16;

    /// The texts of this command's arguments, in the order of declaration.
    spec fn spec_args(&self) -> Seq<Seq<char>>;

    /// The binary attachments of this command, in order.
    spec fn spec_attachments(&self) -> Seq<Seq<u8>>;

    fn opcode(&self) -> (r: u16)
        ensures
            r == self.spec_opcode(),
    ;

    fn args(&self) -> (r: Vec<String>)
        ensures
            texts(r@) == self.spec_args(),
    ;

    fn attachments(&self) -> (r: Vec<Vec<u8>>)
        ensures
            blobs(r@) == self.spec_attachments(),
    ;

    /// The frame of this command: its opcode, its arguments and the base64
    /// text of each of its attachments.
    fn encode(&self) -> (r: String)
        requires
            forall|i: int|
                0 <= i < self.spec_attachments().len() ==> fits_base64(
                    (#[trigger] self.spec_attachments()[i]).len(),
                ),
        ensures
            r@ == frame_text(
                self.spec_opcode(),
                self.spec_args(),
                base64_texts(self.spec_attachments()),
            ),
            forall|i: int, j: int|
                0 <= i < self.spec_attachments().len() && 0 <= j < base64_text(
                    self.spec_attachments()[i],
                ).len() ==> is_base64_char(
                    #[trigger] base64_texts(self.spec_attachments())[i][j],
                ),
    {
        let args = self.args();
        let attachments = self.attachments();
        proof {
            assert forall|i: int| 0 <= i < attachments@.len() implies fits_base64(
                (#[trigger] attachments@[i])@.len(),
            ) by {
                assert(blobs(attachments@)[i] == attachments@[i]@);
            }
        }
        let encoded = encode_attachments(&attachments);
        proof {
            let named = base64_texts(self.spec_attachments());
            assert(named.len() == self.spec_attachments().len());
            assert(texts(encoded@).len() == encoded@.len());
            assert forall|i: int, j: int|
                0 <= i < self.spec_attachments().len() && 0 <= j < base64_text(
                    self.spec_attachments()[i],
                ).len() implies is_base64_char(#[trigger] named[i][j]) by {
                assert(texts(encoded@)[i] == encoded@[i]@);
                assert(is_base64_char(encoded@[i]@[j]));
            }
        }
        frame(self.opcode(), &args, &encoded)
    }
}

/// No character of base64 text is a separator of the frame or its
/// terminator.
pub proof fn lemma_base64_char_plain(c: char)
    requires
        is_base64_char(c),
    ensures
        c != ';',
        c != '#',
        c != terminator(),
        c != '\u{1b}',
{
}

/// Appends the text of an argument to a list of arguments.
pub fn push_arg<T: Argument>(out: &mut Vec<String>, arg: &T)
    ensures
        texts(final(out)@) == texts(old(out)@).push(arg_text(*arg)),
{
    out.push(arg.encode());
    proof {
        assert(texts(out@) =~= texts(old(out)@).push(arg_text(*arg)));
    }
}

/// Appends the text of an argument to a list of arguments, where the
/// argument is given.
pub fn push_opt_arg<T: Argument>(out: &mut Vec<String>, arg: &Option<T>)
    ensures
        texts(final(out)@) == texts(old(out)@) + opt_arg_text(*arg),
{
    match arg {
        Some(a) => {
            out.push(a.encode());
        },
        None => {},
    }
    proof {
        assert(texts(out@) =~= texts(old(out)@) + opt_arg_text(*arg));
    }
}

} // verus!
