//! The general-purpose register file of a stopped x86-64 process.

use vstd::prelude::*;
use vstd::string::*;
use crate::address::{hex_field, push_lower_hex};

verus! {

/// One cell of the register table: a label, then the value.
pub open spec fn cell(label: Seq<char>, value: u64) -> Seq<char> {
    label + hex_field(value)
}

/// Appends one cell of the register table.
fn push_cell(out: &mut String, label: &str, value: u64)
    ensures
        final(out)@ == old(out)@ + cell(label@, value),
{
    out.append(label);
    out.append("0x");
    proof {
        reveal_strlit("0x");
        assert("0x"@ =~= seq!['0', 'x']);
    }
    push_lower_hex(out, value, 14);
    assert(out@ =~= old(out)@ + cell(label@, value));
}

/// A snapshot of the register file, field for field as the kernel hands it
/// out, so that a changed copy can be written back whole.
#[derive(Clone, Copy, Debug, PartialEq, Eq, Structural)]
pub struct Registers {
    pub r15: u64,
    pub r14: u64,
    pub r13: u64,
    pub r12: u64,
    pub rbp: u64,
    pub rbx: u64,
    pub r11: u64,
    pub r10: u64,
    pub r9: u64,
    pub r8: u64,
    pub rax: u64,
    pub rcx: u64,
    pub rdx: u64,
    pub rsi: u64,
    pub rdi: u64,
    pub orig_rax: u64,
    pub rip: u64,
    pub cs: u64,
    pub eflags: u64,
    pub rsp: u64,
    pub ss: u64,
    pub fs_base: u64,
    pub gs_base: u64,
    pub ds: u64,
    pub es: u64,
    pub fs: u64,
    pub gs: u64,
}

impl Registers {
    /// The same register file with another instruction pointer.
    pub open spec fn spec_with_rip(self, rip: u64) -> Registers {
        Registers { rip, ..self }
    }

    /// The same register file with another instruction pointer.
    pub fn with_rip(&self, rip: u64) -> (r: Registers)
        ensures
            r == self.spec_with_rip(rip),
    {
        let mut r = *self;
        r.rip = rip;
        r
    }

    /// The register table: six lines of hexadecimal values, the instruction
    /// pointer first.
    pub open spec fn table(self) -> Seq<char> {
        cell("RIP: "@, self.rip) + cell(", RSP: "@, self.rsp) + cell(", RBP: "@, self.rbp)
            + cell("\nRAX: "@, self.rax) + cell(", RBX: "@, self.rbx) + cell(", RCX: "@, self.rcx)
            + cell("\nRDX: "@, self.rdx) + cell(", RSI: "@, self.rsi) + cell(", RDI: "@, self.rdi)
            + cell("\n R8: "@, self.r8) + cell(",  R9: "@, self.r9) + cell(", R10: "@, self.r10)
            + cell("\nR11: "@, self.r11) + cell(", R12: "@, self.r12) + cell(", R13: "@, self.r13)
            + cell("\nR14: "@, self.r14) + cell(", R15: "@, self.r15)
    }

    /// Writes the register table.
    pub fn render(&self) -> (out: String)
        ensures
            out@ == self.table(),
    {
        let mut out = String::new();
        push_cell(&mut out, "RIP: ", self.rip);
        push_cell(&mut out, ", RSP: ", self.rsp);
        push_cell(&mut out, ", RBP: ", self.rbp);
        push_cell(&mut out, "\nRAX: ", self.rax);
        push_cell(&mut out, ", RBX: ", self.rbx);
        push_cell(&mut out, ", RCX: ", self.rcx);
        push_cell(&mut out, "\nRDX: ", self.rdx);
        push_cell(&mut out, ", RSI: ", self.rsi);
        push_cell(&mut out, ", RDI: ", self.rdi);
        push_cell(&mut out, "\n R8: ", self.r8);
        push_cell(&mut out, ",  R9: ", self.r9);
        push_cell(&mut out, ", R10: ", self.r10);
        push_cell(&mut out, "\nR11: ", self.r11);
        push_cell(&mut out, ", R12: ", self.r12);
        push_cell(&mut out, ", R13: ", self.r13);
        push_cell(&mut out, "\nR14: ", self.r14);
        push_cell(&mut out, ", R15: ", self.r15);
        assert(out@ =~= self.table());
        out
    }
}

} // verus!
