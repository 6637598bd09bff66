//! A compact encoding for the arguments of terminal escape-code commands.
//!
//! An argument is written as dot-separated lowercase hex tokens, a leading
//! tag token selecting the variant. A command is framed as an introducer, its
//! opcode, its arguments and its base64 attachments, closed by a terminator.

pub mod token;
pub mod args;
pub mod cmds;

use vstd::prelude::*;

verus! {

/// The format of a media object that is put on the screen.
pub enum MediaFormat {
    Png,
    Gif,
    Jpeg,
}

impl MediaFormat {
    /// The MIME type of this format.
    pub open spec fn spec_mime(&self) -> Seq<char> {
        match *self {
            MediaFormat::Png => "image/png"@,
            MediaFormat::Gif => "image/gif"@,
            MediaFormat::Jpeg => "image/jpeg"@,
        }
    }

    /// The MIME type of this format.
    pub fn mime(&self) -> (r: &'static str)
        ensures
            r@ == self.spec_mime(),
    {
        match *self {
            MediaFormat::Png => "image/png",
            MediaFormat::Gif => "image/gif",
            MediaFormat::Jpeg => "image/jpeg",
        }
    }
}

} // verus!
