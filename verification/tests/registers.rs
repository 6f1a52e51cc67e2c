use zdbg::host::Notice;
use zdbg::registers::Registers;

fn sample() -> Registers {
    Registers {
        r15: 0xf,
        r14: 0xe,
        r13: 0xd,
        r12: 0xc,
        rbp: 0x7ffd_0000_1000,
        rbx: 0xb,
        r11: 0x246,
        r10: 0xa,
        r9: 0x9,
        r8: 0x8,
        rax: 0x1c,
        rcx: 0x7ffd_0000_2000,
        rdx: 0x7f00_dead_beef,
        rsi: 0x1,
        rdi: 0x0,
        orig_rax: 0x3b,
        rip: 0x4000,
        cs: 0x33,
        eflags: 0x200,
        rsp: 0x7ffd_0000_0ff0,
        ss: 0x2b,
        fs_base: 0,
        gs_base: 0,
        ds: 0,
        es: 0,
        fs: 0,
        gs: 0,
    }
}

#[test]
fn renders_the_register_table() {
    let expected = "RIP: 0x00000000004000, RSP: 0x007ffd00000ff0, RBP: 0x007ffd00001000\n\
RAX: 0x0000000000001c, RBX: 0x0000000000000b, RCX: 0x007ffd00002000\n\
RDX: 0x007f00deadbeef, RSI: 0x00000000000001, RDI: 0x00000000000000\n \
R8: 0x00000000000008,  R9: 0x00000000000009, R10: 0x0000000000000a\n\
R11: 0x00000000000246, R12: 0x0000000000000c, R13: 0x0000000000000d\n\
R14: 0x0000000000000e, R15: 0x0000000000000f";
    assert_eq!(sample().render(), expected);
}

#[test]
fn renders_as_the_standard_library_does() {
    let r = sample();
    let expected = format!(
        "RIP: {:#016x}, RSP: {:#016x}, RBP: {:#016x}\n\
RAX: {:#016x}, RBX: {:#016x}, RCX: {:#016x}\n\
RDX: {:#016x}, RSI: {:#016x}, RDI: {:#016x}\n \
R8: {:#016x},  R9: {:#016x}, R10: {:#016x}\n\
R11: {:#016x}, R12: {:#016x}, R13: {:#016x}\n\
R14: {:#016x}, R15: {:#016x}",
        r.rip, r.rsp, r.rbp, r.rax, r.rbx, r.rcx, r.rdx, r.rsi, r.rdi, r.r8, r.r9, r.r10, r.r11,
        r.r12, r.r13, r.r14, r.r15,
    );
    assert_eq!(r.render(), expected);
}

#[test]
fn renders_wide_values_in_full() {
    let mut r = sample();
    r.rip = u64::MAX;
    r.r15 = 1 << 56;
    let table = r.render();
    assert!(table.starts_with("RIP: 0xffffffffffffffff, RSP: "));
    assert!(table.ends_with("R15: 0x100000000000000"));
}

#[test]
fn with_rip_changes_the_instruction_pointer_alone() {
    let r = sample();
    let moved = r.with_rip(0x3fff);
    assert_eq!(moved.rip, 0x3fff);
    assert_eq!(Registers { rip: r.rip, ..moved }, r);
}

#[test]
fn the_register_notice_is_the_table() {
    let r = sample();
    assert_eq!(Notice::Registers { regs: r }.text(), r.render());
    assert!(!Notice::Registers { regs: r }.is_warning());
}
