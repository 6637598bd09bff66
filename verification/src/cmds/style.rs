use super::{arg_text, blobs, EscCode, push_arg, texts};
use crate::args::{Area, Style};
use vstd::prelude::*;

verus! {

/// Set a style of all content written from now on.
pub struct SetTextStyle(pub Style);

impl EscCode for SetTextStyle {
    open spec fn spec_opcode(&self) -> u16 {
        0x30
    }

    open spec fn spec_args(&self) -> Seq<Seq<char>> {
        seq![arg_text(self.0)]
    }

    open spec fn spec_attachments(&self) -> Seq<Seq<u8>> {
        Seq::<Seq<u8>>::empty()
    }

    fn opcode(&self) -> (r: u16) {
        0x30
    }

    fn args(&self) -> (r: Vec<String>) {
        let mut r: Vec<String> = Vec::new();
        proof {
            assert(texts(r@) =~= Seq::<Seq<char>>::empty());
        }
        push_arg(&mut r, &self.0);
        proof {
            assert(texts(r@) =~= self.spec_args());
        }
        r
    }

    fn attachments(&self) -> (r: Vec<Vec<u8>>) {
        let r: Vec<Vec<u8>> = Vec::new();
        proof {
            assert(blobs(r@) =~= self.spec_attachments());
        }
        r
    }
}

/// Unset all styles that have been sent for content to be written. It shares its opcode with
/// `SetTextStyle` and is told from it by having no argument.
pub struct DefaultTextStyle;

impl EscCode for DefaultTextStyle {
    open spec fn spec_opcode(&self) -> u16 {
        0x30
    }

    open spec fn spec_args(&self) -> Seq<Seq<char>> {
        Seq::<Seq<char>>::empty()
    }

    open spec fn spec_attachments(&self) -> Seq<Seq<u8>> {
        Seq::<Seq<u8>>::empty()
    }

    fn opcode(&self) -> (r: u16) {
        0x30
    }

    fn args(&self) -> (r: Vec<String>) {
        let r: Vec<String> = Vec::new();
        proof {
            assert(texts(r@) =~= Seq::<Seq<char>>::empty());
        }
        r
    }

    fn attachments(&self) -> (r: Vec<Vec<u8>>) {
        let r: Vec<Vec<u8>> = Vec::new();
        proof {
            assert(blobs(r@) =~= self.spec_attachments());
        }
        r
    }
}

/// Set the style of the cursor marker in the terminal.
pub struct SetCursorStyle(pub Style);

impl EscCode for SetCursorStyle {
    open spec fn spec_opcode(&self) -> u16 {
        0x31
    }

    open spec fn spec_args(&self) -> Seq<Seq<char>> {
        seq![arg_text(self.0)]
    }

    open spec fn spec_attachments(&self) -> Seq<Seq<u8>> {
        Seq::<Seq<u8>>::empty()
    }

    fn opcode(&self) -> (r: u16) {
        0x31
    }

    fn args(&self) -> (r: Vec<String>) {
        let mut r: Vec<String> = Vec::new();
        proof {
            assert(texts(r@) =~= Seq::<Seq<char>>::empty());
        }
        push_arg(&mut r, &self.0);
        proof {
            assert(texts(r@) =~= self.spec_args());
        }
        r
    }

    fn attachments(&self) -> (r: Vec<Vec<u8>>) {
        let r: Vec<Vec<u8>> = Vec::new();
        proof {
            assert(blobs(r@) =~= self.spec_attachments());
        }
        r
    }
}

/// Unset all styles on the cursor and use the default cursor style. It shares its opcode with
/// `SetCursorStyle` and is told from it by having no argument.
pub struct DefaultCursorStyle;

impl EscCode for DefaultCursorStyle {
    open spec fn spec_opcode(&self) -> u16 {
        0x31
    }

    open spec fn spec_args(&self) -> Seq<Seq<char>> {
        Seq::<Seq<char>>::empty()
    }

    open spec fn spec_attachments(&self) -> Seq<Seq<u8>> {
        Seq::<Seq<u8>>::empty()
    }

    fn opcode(&self) -> (r: u16) {
        0x31
    }

    fn args(&self) -> (r: Vec<String>) {
        let r: Vec<String> = Vec::new();
        proof {
            assert(texts(r@) =~= Seq::<Seq<char>>::empty());
        }
        r
    }

    fn attachments(&self) -> (r: Vec<Vec<u8>>) {
        let r: Vec<Vec<u8>> = Vec::new();
        proof {
            assert(blobs(r@) =~= self.spec_attachments());
        }
        r
    }
}

/// Set a style in a given area of the grid.
pub struct SetStyleInArea(pub Area, pub Style);

impl EscCode for SetStyleInArea {
    open spec fn spec_opcode(&self) -> u16 {
        0x32
    }

    open spec fn spec_args(&self) -> Seq<Seq<char>> {
        seq![arg_text(self.0), arg_text(self.1)]
    }

    open spec fn spec_attachments(&self) -> Seq<Seq<u8>> {
        Seq::<Seq<u8>>::empty()
    }

    fn opcode(&self) -> (r: u16) {
        0x32
    }

    fn args(&self) -> (r: Vec<String>) {
        let mut r: Vec<String> = Vec::new();
        proof {
            assert(texts(r@) =~= Seq::<Seq<char>>::empty());
        }
        push_arg(&mut r, &self.0);
        push_arg(&mut r, &self.1);
        proof {
            assert(texts(r@) =~= self.spec_args());
        }
        r
    }

    fn attachments(&self) -> (r: Vec<Vec<u8>>) {
        let r: Vec<Vec<u8>> = Vec::new();
        proof {
            assert(blobs(r@) =~= self.spec_attachments());
        }
        r
    }
}

/// Unset all styles in a given area of the grid. It shares its opcode with `SetStyleInArea`
/// and is told from it by having one argument only.
pub struct DefaultStyleInArea(pub Area);

impl EscCode for DefaultStyleInArea {
    open spec fn spec_opcode(&self) -> u16 {
        0x32
    }

    open spec fn spec_args(&self) -> Seq<Seq<char>> {
        seq![arg_text(self.0)]
    }

    open spec fn spec_attachments(&self) -> Seq<Seq<u8>> {
        Seq::<Seq<u8>>::empty()
    }

    fn opcode(&self) -> (r: u16) {
        0x32
    }

    fn args(&self) -> (r: Vec<String>) {
        let mut r: Vec<String> = Vec::new();
        proof {
            assert(texts(r@) =~= Seq::<Seq<char>>::empty());
        }
        push_arg(&mut r, &self.0);
        proof {
            assert(texts(r@) =~= self.spec_args());
        }
        r
    }

    fn attachments(&self) -> (r: Vec<Vec<u8>>) {
        let r: Vec<Vec<u8>> = Vec::new();
        proof {
            assert(blobs(r@) =~= self.spec_attachments());
        }
        r
    }
}

} // verus!
