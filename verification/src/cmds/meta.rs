use super::{arg_text, blobs, EscCode, push_arg, texts};
use crate::args::InputSettings;
use vstd::prelude::*;
use vstd::string::*;
use vstd::utf8::encode_utf8;

verus! {

/// Set the title of the screen.
pub struct SetTitle(pub String);

impl EscCode for SetTitle {
    open spec fn spec_opcode(&self) -> u16 {
        0x40
    }

    open spec fn spec_args(&self) -> Seq<Seq<char>> {
        Seq::<Seq<char>>::empty()
    }

    open spec fn spec_attachments(&self) -> Seq<Seq<u8>> {
        seq![encode_utf8(self.0@)]
    }

    fn opcode(&self) -> (r: u16) {
        0x40
    }

    fn args(&self) -> (r: Vec<String>) {
        let r: Vec<String> = Vec::new();
        proof {
            assert(texts(r@) =~= Seq::<Seq<char>>::empty());
        }
        r
    }

    fn attachments(&self) -> (r: Vec<Vec<u8>>) {
        let mut r: Vec<Vec<u8>> = Vec::new();
        r.push(self.0.as_str().as_bytes_vec());
        proof {
            assert(blobs(r@) =~= self.spec_attachments());
        }
        r
    }
}

/// Set the input mode for the terminal.
pub struct SetInputMode(pub InputSettings);

impl EscCode for SetInputMode {
    open spec fn spec_opcode(&self) -> u16 {
        0x80
    }

    open spec fn spec_args(&self) -> Seq<Seq<char>> {
        seq![arg_text(self.0)]
    }

    open spec fn spec_attachments(&self) -> Seq<Seq<u8>> {
        Seq::<Seq<u8>>::empty()
    }

    fn opcode(&self) -> (r: u16) {
        0x80
    }

    fn args(&self) -> (r: Vec<String>) {
        let mut r: Vec<String> = Vec::new();
        proof {
            assert(texts(r@) =~= Seq::<Seq<char>>::empty());
        }
        push_arg(&mut r, &self.0);
        proof {
            assert(texts(r@) =~= self.spec_args());
        }
        r
    }

    fn attachments(&self) -> (r: Vec<Vec<u8>>) {
        let r: Vec<Vec<u8>> = Vec::new();
        proof {
            assert(blobs(r@) =~= self.spec_attachments());
        }
        r
    }
}

/// In local echo mode, do not process non-input commands until input has been sent.
pub struct HoldForInput;

impl EscCode for HoldForInput {
    open spec fn spec_opcode(&self) -> u16 {
        0x87
    }

    open spec fn spec_args(&self) -> Seq<Seq<char>> {
        Seq::<Seq<char>>::empty()
    }

    open spec fn spec_attachments(&self) -> Seq<Seq<u8>> {
        Seq::<Seq<u8>>::empty()
    }

    fn opcode(&self) -> (r: u16) {
        0x87
    }

    fn args(&self) -> (r: Vec<String>) {
        let r: Vec<String> = Vec::new();
        proof {
            assert(texts(r@) =~= Seq::<Seq<char>>::empty());
        }
        r
    }

    fn attachments(&self) -> (r: Vec<Vec<u8>>) {
        let r: Vec<Vec<u8>> = Vec::new();
        proof {
            assert(blobs(r@) =~= self.spec_attachments());
        }
        r
    }
}

} // verus!
