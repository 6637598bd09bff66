use super::{arg_text, blobs, EscCode, push_arg, texts};
use crate::args::Area;
use vstd::prelude::*;

verus! {

/// Command to erase all content in an area, replacing it with empty cells.
pub struct Erase {
    pub area: Area,
}

impl Erase {
    pub fn new(area: Area) -> (r: Erase)
        ensures
            r.area == area,
    {
        Erase { area }
    }
}

impl EscCode for Erase {
    open spec fn spec_opcode(&self) -> u16 {
        0x20
    }

    open spec fn spec_args(&self) -> Seq<Seq<char>> {
        seq![arg_text(self.area)]
    }

    open spec fn spec_attachments(&self) -> Seq<Seq<u8>> {
        Seq::<Seq<u8>>::empty()
    }

    fn opcode(&self) -> (r: u16) {
        0x20
    }

    fn args(&self) -> (r: Vec<String>) {
        let mut r: Vec<String> = Vec::new();
        proof {
            assert(texts(r@) =~= Seq::<Seq<char>>::empty());
        }
        push_arg(&mut r, &self.area);
        proof {
            assert(texts(r@) =~= self.spec_args());
        }
        r
    }

    fn attachments(&self) -> (r: Vec<Vec<u8>>) {
        let r: Vec<Vec<u8>> = Vec::new();
        proof {
            assert(blobs(r@) =~= self.spec_attachments());
        }
        r
    }
}

/// Command to remove characters, beginning at the cursor. This is not the same as erasing these
/// characters: characters to the right of them will move to the left to fill their position
/// (though characters from the next line will not wrap into this line).
pub struct RemoveChars {
    pub count: u32,
}

impl RemoveChars {
    pub fn new(count: u32) -> (r: RemoveChars)
        ensures
            r.count == count,
    {
        RemoveChars { count }
    }
}

impl EscCode for RemoveChars {
    open spec fn spec_opcode(&self) -> u16 {
        0x21
    }

    open spec fn spec_args(&self) -> Seq<Seq<char>> {
        seq![arg_text(self.count)]
    }

    open spec fn spec_attachments(&self) -> Seq<Seq<u8>> {
        Seq::<Seq<u8>>::empty()
    }

    fn opcode(&self) -> (r: u16) {
        0x21
    }

    fn args(&self) -> (r: Vec<String>) {
        let mut r: Vec<String> = Vec::new();
        proof {
            assert(texts(r@) =~= Seq::<Seq<char>>::empty());
        }
        push_arg(&mut r, &self.count);
        proof {
            assert(texts(r@) =~= self.spec_args());
        }
        r
    }

    fn attachments(&self) -> (r: Vec<Vec<u8>>) {
        let r: Vec<Vec<u8>> = Vec::new();
        proof {
            assert(blobs(r@) =~= self.spec_attachments());
        }
        r
    }
}

/// Command to remove rows, beginning at the cursor. Lines below them will move upward to replace
/// them; the boolean determines if the row the cursor is in is included in the content to be
/// removed.
pub struct RemoveRows {
    pub count: u32,
    pub include_cu_row: bool,
}

impl RemoveRows {
    pub fn new(count: u32, include_cu_row: bool) -> (r: RemoveRows)
        ensures
            r.count == count,
            r.include_cu_row == include_cu_row,
    {
        RemoveRows { count, include_cu_row }
    }
}

impl EscCode for RemoveRows {
    open spec fn spec_opcode(&self) -> u16 {
        0x22
    }

    open spec fn spec_args(&self) -> Seq<Seq<char>> {
        seq![arg_text(self.count), arg_text(self.include_cu_row)]
    }

    open spec fn spec_attachments(&self) -> Seq<Seq<u8>> {
        Seq::<Seq<u8>>::empty()
    }

    fn opcode(&self) -> (r: u16) {
        0x22
    }

    fn args(&self) -> (r: Vec<String>) {
        let mut r: Vec<String> = Vec::new();
        proof {
            assert(texts(r@) =~= Seq::<Seq<char>>::empty());
        }
        push_arg(&mut r, &self.count);
        push_arg(&mut r, &self.include_cu_row);
        proof {
            assert(texts(r@) =~= self.spec_args());
        }
        r
    }

    fn attachments(&self) -> (r: Vec<Vec<u8>>) {
        let r: Vec<Vec<u8>> = Vec::new();
        proof {
            assert(blobs(r@) =~= self.spec_attachments());
        }
        r
    }
}

/// Insert blank characters at the cursor, this will insert empty cells, and move the character
/// at the cursor over to the right (it will not wrap, but instead be removed from the screen).
pub struct InsertBlank {
    pub count: u32,
}

impl InsertBlank {
    pub fn new(count: u32) -> (r: InsertBlank)
        ensures
            r.count == count,
    {
        InsertBlank { count }
    }
}

impl EscCode for InsertBlank {
    open spec fn spec_opcode(&self) -> u16 {
        0x26
    }

    open spec fn spec_args(&self) -> Seq<Seq<char>> {
        seq![arg_text(self.count)]
    }

    open spec fn spec_attachments(&self) -> Seq<Seq<u8>> {
        Seq::<Seq<u8>>::empty()
    }

    fn opcode(&self) -> (r: u16) {
        0x26
    }

    fn args(&self) -> (r: Vec<String>) {
        let mut r: Vec<String> = Vec::new();
        proof {
            assert(texts(r@) =~= Seq::<Seq<char>>::empty());
        }
        push_arg(&mut r, &self.count);
        proof {
            assert(texts(r@) =~= self.spec_args());
        }
        r
    }

    fn attachments(&self) -> (r: Vec<Vec<u8>>) {
        let r: Vec<Vec<u8>> = Vec::new();
        proof {
            assert(blobs(r@) =~= self.spec_attachments());
        }
        r
    }
}

/// Insert blank rows at the cursor. The boolean determines if they are inserted above the cursor
/// row, or below.
pub struct InsertRows {
    pub count: u32,
    pub include_cu_row: bool,
}

impl InsertRows {
    pub fn new(count: u32, include_cu_row: bool) -> (r: InsertRows)
        ensures
            r.count == count,
            r.include_cu_row == include_cu_row,
    {
        InsertRows { count, include_cu_row }
    }
}

impl EscCode for InsertRows {
    open spec fn spec_opcode(&self) -> u16 {
        0x27
    }

    open spec fn spec_args(&self) -> Seq<Seq<char>> {
        seq![arg_text(self.count), arg_text(self.include_cu_row)]
    }

    open spec fn spec_attachments(&self) -> Seq<Seq<u8>> {
        Seq::<Seq<u8>>::empty()
    }

    fn opcode(&self) -> (r: u16) {
        0x27
    }

    fn args(&self) -> (r: Vec<String>) {
        let mut r: Vec<String> = Vec::new();
        proof {
            assert(texts(r@) =~= Seq::<Seq<char>>::empty());
        }
        push_arg(&mut r, &self.count);
        push_arg(&mut r, &self.include_cu_row);
        proof {
            assert(texts(r@) =~= self.spec_args());
        }
        r
    }

    fn attachments(&self) -> (r: Vec<Vec<u8>>) {
        let r: Vec<Vec<u8>> = Vec::new();
        proof {
            assert(blobs(r@) =~= self.spec_attachments());
        }
        r
    }
}

} // verus!
