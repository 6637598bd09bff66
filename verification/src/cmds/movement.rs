use super::{arg_text, blobs, EscCode, push_arg, texts};
use crate::args::{Direction, Movement};
use vstd::prelude::*;

verus! {

/// Move the cursor.
#[derive(Copy, Clone)]
pub struct Move {
    pub movement: Movement,
}

impl Move {
    pub fn new(movement: Movement) -> (r: Move)
        ensures
            r.movement == movement,
    {
        Move { movement }
    }
}

impl EscCode for Move {
    open spec fn spec_opcode(&self) -> u16 {
        0x18
    }

    open spec fn spec_args(&self) -> Seq<Seq<char>> {
        seq![arg_text(self.movement)]
    }

    open spec fn spec_attachments(&self) -> Seq<Seq<u8>> {
        Seq::<Seq<u8>>::empty()
    }

    fn opcode(&self) -> (r: u16) {
        0x18
    }

    fn args(&self) -> (r: Vec<String>) {
        let mut r: Vec<String> = Vec::new();
        proof {
            assert(texts(r@) =~= Seq::<Seq<char>>::empty());
        }
        push_arg(&mut r, &self.movement);
        proof {
            assert(texts(r@) =~= self.spec_args());
        }
        r
    }

    fn attachments(&self) -> (r: Vec<Vec<u8>>) {
        let r: Vec<Vec<u8>> = Vec::new();
        proof {
            assert(blobs(r@) =~= self.spec_attachments());
        }
        r
    }
}

/// Scroll the screen.
pub struct ScrollScreen {
    pub dir: Direction,
    pub n: u32,
}

impl ScrollScreen {
    pub fn new(dir: Direction, n: u32) -> (r: ScrollScreen)
        ensures
            r.dir == dir,
            r.n == n,
    {
        ScrollScreen { dir, n }
    }
}

impl EscCode for ScrollScreen {
    open spec fn spec_opcode(&self) -> u16 {
        0x19
    }

    open spec fn spec_args(&self) -> Seq<Seq<char>> {
        seq![arg_text(self.dir), arg_text(self.n)]
    }

    open spec fn spec_attachments(&self) -> Seq<Seq<u8>> {
        Seq::<Seq<u8>>::empty()
    }

    fn opcode(&self) -> (r: u16) {
        0x19
    }

    fn args(&self) -> (r: Vec<String>) {
        let mut r: Vec<String> = Vec::new();
        proof {
            assert(texts(r@) =~= Seq::<Seq<char>>::empty());
        }
        push_arg(&mut r, &self.dir);
        push_arg(&mut r, &self.n);
        proof {
            assert(texts(r@) =~= self.spec_args());
        }
        r
    }

    fn attachments(&self) -> (r: Vec<Vec<u8>>) {
        let r: Vec<Vec<u8>> = Vec::new();
        proof {
            assert(blobs(r@) =~= self.spec_attachments());
        }
        r
    }
}

} // verus!
