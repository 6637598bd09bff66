use super::{arg_text, blobs, EscCode, opt_arg_text, push_opt_arg, texts};
use crate::args::{BufferSettings, EchoSettings};
use vstd::prelude::*;

verus! {

/// Set the control characters of line-buffered input, or go back to the defaults.
pub struct SetBufferMode(pub Option<BufferSettings>);

impl EscCode for SetBufferMode {
    open spec fn spec_opcode(&self) -> u16 {
        0x84
    }

    open spec fn spec_args(&self) -> Seq<Seq<char>> {
        opt_arg_text(self.0)
    }

    open spec fn spec_attachments(&self) -> Seq<Seq<u8>> {
        Seq::<Seq<u8>>::empty()
    }

    fn opcode(&self) -> (r: u16) {
        0x84
    }

    fn args(&self) -> (r: Vec<String>) {
        let mut r: Vec<String> = Vec::new();
        proof {
            assert(texts(r@) =~= Seq::<Seq<char>>::empty());
        }
        push_opt_arg(&mut r, &self.0);
        proof {
            assert(texts(r@) =~= self.spec_args());
        }
        r
    }

    fn attachments(&self) -> (r: Vec<Vec<u8>>) {
        let r: Vec<Vec<u8>> = Vec::new();
        proof {
            assert(blobs(r@) =~= self.spec_attachments());
        }
        r
    }
}

/// Set the control characters of echoed input, or go back to the defaults.
pub struct SetEchoMode(pub Option<EchoSettings>);

impl EscCode for SetEchoMode {
    open spec fn spec_opcode(&self) -> u16 {
        0x88
    }

    open spec fn spec_args(&self) -> Seq<Seq<char>> {
        opt_arg_text(self.0)
    }

    open spec fn spec_attachments(&self) -> Seq<Seq<u8>> {
        Seq::<Seq<u8>>::empty()
    }

    fn opcode(&self) -> (r: u16) {
        0x88
    }

    fn args(&self) -> (r: Vec<String>) {
        let mut r: Vec<String> = Vec::new();
        proof {
            assert(texts(r@) =~= Seq::<Seq<char>>::empty());
        }
        push_opt_arg(&mut r, &self.0);
        proof {
            assert(texts(r@) =~= self.spec_args());
        }
        r
    }

    fn attachments(&self) -> (r: Vec<Vec<u8>>) {
        let r: Vec<Vec<u8>> = Vec::new();
        proof {
            assert(blobs(r@) =~= self.spec_attachments());
        }
        r
    }
}

} // verus!
