//! The command words of the prompt.

use vstd::prelude::*;
use vstd::slice::*;
use vstd::string::*;

verus! {

/// The operation that the first token of a line selects.
#[derive(Clone, Copy, Debug, PartialEq, Eq, Structural)]
pub enum Command {
    Run,
    Break,
    Continue,
    Stepi,
    Registers,
    Exit,
    Help,
    /// Any other word.
    Unknown,
}

/// The command that a word stands for. Words are case-sensitive.
pub open spec fn keyword(word: Seq<char>) -> Command {
    if word == "run"@ || word == "r"@ {
        Command::Run
    } else if word == "break"@ || word == "b"@ {
        Command::Break
    } else if word == "continue"@ || word == "c"@ {
        Command::Continue
    } else if word == "stepi"@ || word == "s"@ {
        Command::Stepi
    } else if word == "registers"@ || word == "regs"@ {
        Command::Registers
    } else if word == "exit"@ {
        Command::Exit
    } else if word == "help"@ || word == "h"@ {
        Command::Help
    } else {
        Command::Unknown
    }
}

/// The tokens of a line as texts.
pub open spec fn texts(tokens: Seq<&str>) -> Seq<Seq<char>> {
    Seq::new(tokens.len(), |i: int| tokens[i]@)
}

/// Whether two strings hold the same text.
pub fn same_text(a: &str, b: &str) -> (same: bool)
    ensures
        same == (a@ == b@),
{
    broadcast use vstd::utf8::encode_utf8_decode_utf8;

    let x = a.as_bytes();
    let y = b.as_bytes();
    if x.len() != y.len() {
        return false;
    }
    let mut i: usize = 0;
    while i < x.len()
        invariant
            i <= x.len(),
            x.len() == y.len(),
            x@ == a.spec_bytes(),
            y@ == b.spec_bytes(),
            forall|j: int| 0 <= j < i ==> x@[j] == y@[j],
        decreases x.len() - i,
    {
        if x[i] != y[i] {
            return false;
        }
        i += 1;
    }
    proof {
        assert(x@ =~= y@);
        assert(vstd::utf8::decode_utf8(vstd::utf8::encode_utf8(a@)) == a@);
        assert(vstd::utf8::decode_utf8(vstd::utf8::encode_utf8(b@)) == b@);
    }
    true
}

/// Recognizes a command word.
pub fn classify(word: &str) -> (command: Command)
    ensures
        command == keyword(word@),
{
    if same_text(word, "run") || same_text(word, "r") {
        Command::Run
    } else if same_text(word, "break") || same_text(word, "b") {
        Command::Break
    } else if same_text(word, "continue") || same_text(word, "c") {
        Command::Continue
    } else if same_text(word, "stepi") || same_text(word, "s") {
        Command::Stepi
    } else if same_text(word, "registers") || same_text(word, "regs") {
        Command::Registers
    } else if same_text(word, "exit") {
        Command::Exit
    } else if same_text(word, "help") || same_text(word, "h") {
        Command::Help
    } else {
        Command::Unknown
    }
}

} // verus!
