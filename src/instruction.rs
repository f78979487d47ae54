//! The description of one instruction, and how it is shown to a user.
use vstd::prelude::*;
use crate::text::push_str;

verus! {

/// What the knowledge base holds for one mnemonic.
pub struct InstructionSpec {
    pub desc: String,
    pub code: String,
    pub notes: String,
}

/// The line that opens and closes a code block: three backquotes.
pub open spec fn fence() -> Seq<char> {
    seq!['`', '`', '`']
}

/// The notes section: a heading and the notes, or nothing when there are no notes.
pub open spec fn notes_block(notes: Seq<char>) -> Seq<char> {
    if notes.len() == 0 {
        Seq::empty()
    } else {
        seq!['*', 'N', 'o', 't', 'e', 's', '*', '\n'] + notes
    }
}

/// The markdown text of a description: the description, the example code in a
/// fenced block, then the notes section.
pub open spec fn rendered(desc: Seq<char>, code: Seq<char>, notes: Seq<char>) -> Seq<char> {
    desc + seq!['\n'] + fence() + seq!['\n'] + code + seq!['\n'] + fence() + seq!['\n']
        + notes_block(notes)
}

impl InstructionSpec {
    pub open spec fn rendered(&self) -> Seq<char> {
        rendered(self.desc@, self.code@, self.notes@)
    }

    pub fn new(desc: String, code: String, notes: String) -> (r: Self)
        ensures
            r.desc == desc,
            r.code == code,
            r.notes == notes,
    {
        InstructionSpec { desc, code, notes }
    }

    /// The markdown text shown for this instruction.
    pub fn render(&self) -> (r: String)
        ensures
            r@ == self.rendered(),
    {
        let mut out = String::new();
        push_str(&mut out, self.desc.as_str());
        push_str(&mut out, "\n```\n");
        push_str(&mut out, self.code.as_str());
        push_str(&mut out, "\n```\n");
        if self.notes.as_str().is_empty() {
        } else {
            push_str(&mut out, "*Notes*\n");
            push_str(&mut out, self.notes.as_str());
        }
        proof {
            reveal_strlit("\n```\n");
            reveal_strlit("*Notes*\n");
            assert(seq!['\n'] + fence() + seq!['\n'] =~= "\n```\n"@);
            assert(seq!['*', 'N', 'o', 't', 'e', 's', '*', '\n'] =~= "*Notes*\n"@);
            assert(out@ =~= self.rendered());
        }
        out
    }
}

} // verus!
