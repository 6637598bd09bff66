use super::{arg_text, blobs, EscCode, opt_arg_text, push_arg, push_opt_arg, texts};
use crate::args::{ResizeRule, SaveGrid, SplitKind};
use vstd::prelude::*;

verus! {

/// Add a new panel to the top of a section of the screen. This panel will contain an empty grid.
/// Argument 1: Which section to put the panel over (defaults to the active section).
/// Argument 2: Whether or not the new grid created retains offscreen state (defaults to true).
pub struct PushPanel(pub Option<u64>, pub Option<bool>);

impl EscCode for PushPanel {
    open spec fn spec_opcode(&self) -> u16 {
        0x60
    }

    open spec fn spec_args(&self) -> Seq<Seq<char>> {
        opt_arg_text(self.0) + opt_arg_text(self.1)
    }

    open spec fn spec_attachments(&self) -> Seq<Seq<u8>> {
        Seq::<Seq<u8>>::empty()
    }

    fn opcode(&self) -> (r: u16) {
        0x60
    }

    fn args(&self) -> (r: Vec<String>) {
        let mut r: Vec<String> = Vec::new();
        proof {
            assert(texts(r@) =~= Seq::<Seq<char>>::empty());
        }
        push_opt_arg(&mut r, &self.0);
        push_opt_arg(&mut r, &self.1);
        proof {
            assert(texts(r@) =~= self.spec_args());
        }
        r
    }

    fn attachments(&self) -> (r: Vec<Vec<u8>>) {
        let r: Vec<Vec<u8>> = Vec::new();
        proof {
            assert(blobs(r@) =~= self.spec_attachments());
        }
        r
    }
}

/// Remove the top panel in a section of the screen. If that section has only one panel, this does
/// nothing.
/// Argument 1: Which section to remove the panel from (defaults to the active section).
pub struct PopPanel(pub Option<u64>);

impl EscCode for PopPanel {
    open spec fn spec_opcode(&self) -> u16 {
        0x61
    }

    open spec fn spec_args(&self) -> Seq<Seq<char>> {
        opt_arg_text(self.0)
    }

    open spec fn spec_attachments(&self) -> Seq<Seq<u8>> {
        Seq::<Seq<u8>>::empty()
    }

    fn opcode(&self) -> (r: u16) {
        0x61
    }

    fn args(&self) -> (r: Vec<String>) {
        let mut r: Vec<String> = Vec::new();
        proof {
            assert(texts(r@) =~= Seq::<Seq<char>>::empty());
        }
        push_opt_arg(&mut r, &self.0);
        proof {
            assert(texts(r@) =~= self.spec_args());
        }
        r
    }

    fn attachments(&self) -> (r: Vec<Vec<u8>>) {
        let r: Vec<Vec<u8>> = Vec::new();
        proof {
            assert(blobs(r@) =~= self.spec_attachments());
        }
        r
    }
}

/// Split the top panel of some section into two subsections.
/// * l_tag: The tag to identify the left/top subsection.
/// * r_tag: The tag to identify the right/bottom subsection.
/// * kind: The axis and position of the split in this panel.
/// * save: Which of the subsections the current contents of the panel should be saved to.
/// * rule: What rules should be applied to resizing the current contents to fit into the
/// subsection.
/// * split_tag: Which section to split (defaults to the active section).
/// * retain_offscreen_state: Whether new panels created by this split retain offscreen state
/// (defaults to true)
pub struct SplitPanel {
    pub l_tag: u64,
    pub r_tag: u64,
    pub kind: SplitKind,
    pub save: Option<SaveGrid>,
    pub rule: Option<ResizeRule>,
    pub split_tag: Option<u64>,
    pub retain_offscreen_state: Option<bool>,
}

impl SplitPanel {
    pub fn new(
        l_tag: u64,
        r_tag: u64,
        kind: SplitKind,
        save: Option<SaveGrid>,
        rule: Option<ResizeRule>,
        split_tag: Option<u64>,
        offscreen_state: Option<bool>,
    ) -> (r: SplitPanel)
        ensures
            r.l_tag == l_tag,
            r.r_tag == r_tag,
            r.kind == kind,
            r.save == save,
            r.rule == rule,
            r.split_tag == split_tag,
            r.retain_offscreen_state == offscreen_state,
    {
        SplitPanel { l_tag, r_tag, kind, save, rule, split_tag, retain_offscreen_state: offscreen_state }
    }
}

impl EscCode for SplitPanel {
    open spec fn spec_opcode(&self) -> u16 {
        0x62
    }

    open spec fn spec_args(&self) -> Seq<Seq<char>> {
        seq![arg_text(self.l_tag), arg_text(self.r_tag), arg_text(self.kind)] + opt_arg_text(self.save) + opt_arg_text(self.rule) + opt_arg_text(self.split_tag) + opt_arg_text(self.retain_offscreen_state)
    }

    open spec fn spec_attachments(&self) -> Seq<Seq<u8>> {
        Seq::<Seq<u8>>::empty()
    }

    fn opcode(&self) -> (r: u16) {
        0x62
    }

    fn args(&self) -> (r: Vec<String>) {
        let mut r: Vec<String> = Vec::new();
        proof {
            assert(texts(r@) =~= Seq::<Seq<char>>::empty());
        }
        push_arg(&mut r, &self.l_tag);
        push_arg(&mut r, &self.r_tag);
        push_arg(&mut r, &self.kind);
        push_opt_arg(&mut r, &self.save);
        push_opt_arg(&mut r, &self.rule);
        push_opt_arg(&mut r, &self.split_tag);
        push_opt_arg(&mut r, &self.retain_offscreen_state);
        proof {
            assert(texts(r@) =~= self.spec_args());
        }
        r
    }

    fn attachments(&self) -> (r: Vec<Vec<u8>>) {
        let r: Vec<Vec<u8>> = Vec::new();
        proof {
            assert(blobs(r@) =~= self.spec_attachments());
        }
        r
    }
}

/// Remove the split from a split panel.
/// * save: Which side of the split to save into the unsplit section.
/// * unsplit_tag: Which section's panel to unsplit
pub struct UnsplitPanel {
    pub unsplit_tag: u64,
    pub save: SaveGrid,
}

impl UnsplitPanel {
    pub fn new(save: SaveGrid, unsplit_tag: u64) -> (r: UnsplitPanel)
        ensures
            r.save == save,
            r.unsplit_tag == unsplit_tag,
    {
        UnsplitPanel { unsplit_tag, save }
    }
}

impl EscCode for UnsplitPanel {
    open spec fn spec_opcode(&self) -> u16 {
        0x63
    }

    open spec fn spec_args(&self) -> Seq<Seq<char>> {
        seq![arg_text(self.save), arg_text(self.unsplit_tag)]
    }

    open spec fn spec_attachments(&self) -> Seq<Seq<u8>> {
        Seq::<Seq<u8>>::empty()
    }

    fn opcode(&self) -> (r: u16) {
        0x63
    }

    fn args(&self) -> (r: Vec<String>) {
        let mut r: Vec<String> = Vec::new();
        proof {
            assert(texts(r@) =~= Seq::<Seq<char>>::empty());
        }
        push_arg(&mut r, &self.save);
        push_arg(&mut r, &self.unsplit_tag);
        proof {
            assert(texts(r@) =~= self.spec_args());
        }
        r
    }

    fn attachments(&self) -> (r: Vec<Vec<u8>>) {
        let r: Vec<Vec<u8>> = Vec::new();
        proof {
            assert(blobs(r@) =~= self.spec_attachments());
        }
        r
    }
}

/// Adjust the split in a split panel.
/// * kind: The new axis and position for the split.
/// * rule: How to resize child panels.
/// * adjust_tag: Which section's panel to adjust the split of.
pub struct AdjustPanelSplit {
    pub kind: SplitKind,
    pub rule: ResizeRule,
    pub adjust_tag: u64,
}

impl AdjustPanelSplit {
    pub fn new(kind: SplitKind, rule: ResizeRule, adjust_tag: u64) -> (r: AdjustPanelSplit)
        ensures
            r.kind == kind,
            r.rule == rule,
            r.adjust_tag == adjust_tag,
    {
        AdjustPanelSplit { kind, rule, adjust_tag }
    }
}

impl EscCode for AdjustPanelSplit {
    open spec fn spec_opcode(&self) -> u16 {
        0x64
    }

    open spec fn spec_args(&self) -> Seq<Seq<char>> {
        seq![arg_text(self.kind), arg_text(self.rule), arg_text(self.adjust_tag)]
    }

    open spec fn spec_attachments(&self) -> Seq<Seq<u8>> {
        Seq::<Seq<u8>>::empty()
    }

    fn opcode(&self) -> (r: u16) {
        0x64
    }

    fn args(&self) -> (r: Vec<String>) {
        let mut r: Vec<String> = Vec::new();
        proof {
            assert(texts(r@) =~= Seq::<Seq<char>>::empty());
        }
        push_arg(&mut r, &self.kind);
        push_arg(&mut r, &self.rule);
        push_arg(&mut r, &self.adjust_tag);
        proof {
            assert(texts(r@) =~= self.spec_args());
        }
        r
    }

    fn attachments(&self) -> (r: Vec<Vec<u8>>) {
        let r: Vec<Vec<u8>> = Vec::new();
        proof {
            assert(blobs(r@) =~= self.spec_attachments());
        }
        r
    }
}

/// Rotate the stack of a section down, putting the top panel on the bottom of the stack.
/// Argument: the tag of the section being rotated (defaults to active section).
pub struct RotateSectionDown(pub Option<u64>);

impl EscCode for RotateSectionDown {
    open spec fn spec_opcode(&self) -> u16 {
        0x65
    }

    open spec fn spec_args(&self) -> Seq<Seq<char>> {
        opt_arg_text(self.0)
    }

    open spec fn spec_attachments(&self) -> Seq<Seq<u8>> {
        Seq::<Seq<u8>>::empty()
    }

    fn opcode(&self) -> (r: u16) {
        0x65
    }

    fn args(&self) -> (r: Vec<String>) {
        let mut r: Vec<String> = Vec::new();
        proof {
            assert(texts(r@) =~= Seq::<Seq<char>>::empty());
        }
        push_opt_arg(&mut r, &self.0);
        proof {
            assert(texts(r@) =~= self.spec_args());
        }
        r
    }

    fn attachments(&self) -> (r: Vec<Vec<u8>>) {
        let r: Vec<Vec<u8>> = Vec::new();
        proof {
            assert(blobs(r@) =~= self.spec_attachments());
        }
        r
    }
}

/// Rotate the stack of a section up, putting the bottom panel on the top of the stack.
/// Argument: the tag of the section being rotated (defaults to active section).
pub struct RotateSectionUp(pub Option<u64>);

impl EscCode for RotateSectionUp {
    open spec fn spec_opcode(&self) -> u16 {
        0x66
    }

    open spec fn spec_args(&self) -> Seq<Seq<char>> {
        opt_arg_text(self.0)
    }

    open spec fn spec_attachments(&self) -> Seq<Seq<u8>> {
        Seq::<Seq<u8>>::empty()
    }

    fn opcode(&self) -> (r: u16) {
        0x66
    }

    fn args(&self) -> (r: Vec<String>) {
        let mut r: Vec<String> = Vec::new();
        proof {
            assert(texts(r@) =~= Seq::<Seq<char>>::empty());
        }
        push_opt_arg(&mut r, &self.0);
        proof {
            assert(texts(r@) =~= self.spec_args());
        }
        r
    }

    fn attachments(&self) -> (r: Vec<Vec<u8>>) {
        let r: Vec<Vec<u8>> = Vec::new();
        proof {
            assert(blobs(r@) =~= self.spec_attachments());
        }
        r
    }
}

/// Switch which section of the screen is currently active. The active section must have a grid
/// panel at the top of it.
/// Argument: The tag of the section to switch to.
pub struct SwitchActiveSection(pub u64);

impl EscCode for SwitchActiveSection {
    open spec fn spec_opcode(&self) -> u16 {
        0x67
    }

    open spec fn spec_args(&self) -> Seq<Seq<char>> {
        seq![arg_text(self.0)]
    }

    open spec fn spec_attachments(&self) -> Seq<Seq<u8>> {
        Seq::<Seq<u8>>::empty()
    }

    fn opcode(&self) -> (r: u16) {
        0x67
    }

    fn args(&self) -> (r: Vec<String>) {
        let mut r: Vec<String> = Vec::new();
        proof {
            assert(texts(r@) =~= Seq::<Seq<char>>::empty());
        }
        push_arg(&mut r, &self.0);
        proof {
            assert(texts(r@) =~= self.spec_args());
        }
        r
    }

    fn attachments(&self) -> (r: Vec<Vec<u8>>) {
        let r: Vec<Vec<u8>> = Vec::new();
        proof {
            assert(blobs(r@) =~= self.spec_attachments());
        }
        r
    }
}

} // verus!
