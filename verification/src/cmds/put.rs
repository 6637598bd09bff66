use super::{arg_text, blobs, EscCode, push_arg, texts};
use crate::args::{Coords, MediaPosition};
use crate::MediaFormat;
use vstd::prelude::*;
use vstd::string::*;
use vstd::utf8::encode_utf8;

verus! {

/// Command to put some media object at the cursor position. The first attachment names the
/// format of the media, the second holds its data.
pub struct PutMedia {
    pub width: u32,
    pub height: u32,
    pub position: MediaPosition,
    pub fmt: MediaFormat,
    pub data: Vec<u8>,
}

impl PutMedia {
    pub fn new(
        width: u32,
        height: u32,
        position: MediaPosition,
        fmt: MediaFormat,
        data: Vec<u8>,
    ) -> (r: PutMedia)
        ensures
            r.width == width,
            r.height == height,
            r.position == position,
            r.fmt == fmt,
            r.data == data,
    {
        PutMedia { width, height, position, fmt, data }
    }
}

impl EscCode for PutMedia {
    open spec fn spec_opcode(&self) -> u16 {
        0x14
    }

    open spec fn spec_args(&self) -> Seq<Seq<char>> {
        seq![arg_text(self.width), arg_text(self.height), arg_text(self.position)]
    }

    open spec fn spec_attachments(&self) -> Seq<Seq<u8>> {
        seq![encode_utf8(self.fmt.spec_mime()), self.data@]
    }

    fn opcode(&self) -> (r: u16) {
        0x14
    }

    fn args(&self) -> (r: Vec<String>) {
        let mut r: Vec<String> = Vec::new();
        proof {
            assert(texts(r@) =~= Seq::<Seq<char>>::empty());
        }
        push_arg(&mut r, &self.width);
        push_arg(&mut r, &self.height);
        push_arg(&mut r, &self.position);
        proof {
            assert(texts(r@) =~= self.spec_args());
        }
        r
    }

    fn attachments(&self) -> (r: Vec<Vec<u8>>) {
        let mut r: Vec<Vec<u8>> = Vec::new();
        r.push(self.fmt.mime().as_bytes_vec());
        r.push(self.data.clone());
        proof {
            assert(blobs(r@) =~= self.spec_attachments());
        }
        r
    }
}

/// Command to put some media object at a given coordinate. The first attachment names the
/// format of the media, the second holds its data.
pub struct PutMediaAt {
    pub coords: Coords,
    pub width: u32,
    pub height: u32,
    pub position: MediaPosition,
    pub fmt: MediaFormat,
    pub data: Vec<u8>,
}

impl PutMediaAt {
    pub fn new(
        coords: Coords,
        width: u32,
        height: u32,
        position: MediaPosition,
        fmt: MediaFormat,
        data: Vec<u8>,
    ) -> (r: PutMediaAt)
        ensures
            r.coords == coords,
            r.width == width,
            r.height == height,
            r.position == position,
            r.fmt == fmt,
            r.data == data,
    {
        PutMediaAt { coords, width, height, position, fmt, data }
    }
}

impl EscCode for PutMediaAt {
    open spec fn spec_opcode(&self) -> u16 {
        0x15
    }

    open spec fn spec_args(&self) -> Seq<Seq<char>> {
        seq![arg_text(self.coords), arg_text(self.width), arg_text(self.height), arg_text(self.position)]
    }

    open spec fn spec_attachments(&self) -> Seq<Seq<u8>> {
        seq![encode_utf8(self.fmt.spec_mime()), self.data@]
    }

    fn opcode(&self) -> (r: u16) {
        0x15
    }

    fn args(&self) -> (r: Vec<String>) {
        let mut r: Vec<String> = Vec::new();
        proof {
            assert(texts(r@) =~= Seq::<Seq<char>>::empty());
        }
        push_arg(&mut r, &self.coords);
        push_arg(&mut r, &self.width);
        push_arg(&mut r, &self.height);
        push_arg(&mut r, &self.position);
        proof {
            assert(texts(r@) =~= self.spec_args());
        }
        r
    }

    fn attachments(&self) -> (r: Vec<Vec<u8>>) {
        let mut r: Vec<Vec<u8>> = Vec::new();
        r.push(self.fmt.mime().as_bytes_vec());
        r.push(self.data.clone());
        proof {
            assert(blobs(r@) =~= self.spec_attachments());
        }
        r
    }
}

} // verus!
