use super::{arg_text, blobs, EscCode, push_arg, texts};
use crate::args::Coords;
use vstd::prelude::*;
use vstd::string::*;
use vstd::utf8::encode_utf8;

verus! {

/// Add a tooltip at a given coordinate.
pub struct AddToolTip(pub Coords, pub String);

impl EscCode for AddToolTip {
    open spec fn spec_opcode(&self) -> u16 {
        0x50
    }

    open spec fn spec_args(&self) -> Seq<Seq<char>> {
        seq![arg_text(self.0)]
    }

    open spec fn spec_attachments(&self) -> Seq<Seq<u8>> {
        seq![encode_utf8(self.1@)]
    }

    fn opcode(&self) -> (r: u16) {
        0x50
    }

    fn args(&self) -> (r: Vec<String>) {
        let mut r: Vec<String> = Vec::new();
        proof {
            assert(texts(r@) =~= Seq::<Seq<char>>::empty());
        }
        push_arg(&mut r, &self.0);
        proof {
            assert(texts(r@) =~= self.spec_args());
        }
        r
    }

    fn attachments(&self) -> (r: Vec<Vec<u8>>) {
        let mut r: Vec<Vec<u8>> = Vec::new();
        r.push(self.1.as_str().as_bytes_vec());
        proof {
            assert(blobs(r@) =~= self.spec_attachments());
        }
        r
    }
}

/// Add a dropdown menu at a given coordinate. Each option is an attachment.
pub struct AddDropDown {
    pub coords: Coords,
    pub options: Vec<String>,
}

impl EscCode for AddDropDown {
    open spec fn spec_opcode(&self) -> u16 {
        0x51
    }

    open spec fn spec_args(&self) -> Seq<Seq<char>> {
        seq![arg_text(self.coords)]
    }

    open spec fn spec_attachments(&self) -> Seq<Seq<u8>> {
        Seq::new(self.options@.len(), |i: int| encode_utf8(self.options@[i]@))
    }

    fn opcode(&self) -> (r: u16) {
        0x51
    }

    fn args(&self) -> (r: Vec<String>) {
        let mut r: Vec<String> = Vec::new();
        proof {
            assert(texts(r@) =~= Seq::<Seq<char>>::empty());
        }
        push_arg(&mut r, &self.coords);
        proof {
            assert(texts(r@) =~= self.spec_args());
        }
        r
    }

    fn attachments(&self) -> (r: Vec<Vec<u8>>) {
        let mut r: Vec<Vec<u8>> = Vec::new();
        let mut i: usize = 0;
        while i < self.options.len()
            invariant
                i <= self.options.len(),
                r@.len() == i,
                forall|k: int| 0 <= k < i ==> (#[trigger] r@[k])@ == encode_utf8(self.options@[k]@),
            decreases self.options.len() - i,
        {
            r.push(self.options[i].as_str().as_bytes_vec());
            i += 1;
        }
        proof {
            assert(blobs(r@) =~= self.spec_attachments());
        }
        r
    }
}

/// Remove a tooltip or dropdown from a given coordinate, if there is one there.
pub struct RemoveToolTip(pub Coords);

impl EscCode for RemoveToolTip {
    open spec fn spec_opcode(&self) -> u16 {
        0x54
    }

    open spec fn spec_args(&self) -> Seq<Seq<char>> {
        seq![arg_text(self.0)]
    }

    open spec fn spec_attachments(&self) -> Seq<Seq<u8>> {
        Seq::<Seq<u8>>::empty()
    }

    fn opcode(&self) -> (r: u16) {
        0x54
    }

    fn args(&self) -> (r: Vec<String>) {
        let mut r: Vec<String> = Vec::new();
        proof {
            assert(texts(r@) =~= Seq::<Seq<char>>::empty());
        }
        push_arg(&mut r, &self.0);
        proof {
            assert(texts(r@) =~= self.spec_args());
        }
        r
    }

    fn attachments(&self) -> (r: Vec<Vec<u8>>) {
        let r: Vec<Vec<u8>> = Vec::new();
        proof {
            assert(blobs(r@) =~= self.spec_attachments());
        }
        r
    }
}

} // verus!
