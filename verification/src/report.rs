//! The words in which the debugger speaks to its user.

use vstd::prelude::*;
use vstd::string::*;
use crate::address::{digit_char, digit_str, lower_hex, push_lower_hex, AddressError};
use crate::host::Notice;

verus! {

/// The digits of `n` in decimal.
pub open spec fn decimal_digits(n: nat) -> Seq<char>
    decreases n,
{
    if n < 10 {
        seq![digit_char(n)]
    } else {
        decimal_digits(n / 10).push(digit_char(n % 10))
    }
}

/// `n` in decimal, with a minus sign where it is negative.
pub open spec fn decimal(n: int) -> Seq<char> {
    if n < 0 {
        "-"@ + decimal_digits((-n) as nat)
    } else {
        decimal_digits(n as nat)
    }
}

/// An address in hexadecimal, with the prefix and without padding.
pub open spec fn pointer(addr: u64) -> Seq<char> {
    "0x"@ + lower_hex(addr as nat, 1)
}

/// Appends the digits of `n` in decimal.
fn push_decimal_digits(out: &mut String, n: u64)
    ensures
        final(out)@ == old(out)@ + decimal_digits(n as nat),
    decreases n,
{
    if n < 10 {
        out.append(digit_str(n as u8));
    } else {
        push_decimal_digits(out, n / 10);
        out.append(digit_str((n % 10) as u8));
        assert(out@ =~= old(out)@ + decimal_digits(n as nat));
    }
}

/// Appends `n` in decimal.
pub fn push_decimal(out: &mut String, n: i32)
    ensures
        final(out)@ == old(out)@ + decimal(n as int),
{
    if n < 0 {
        out.append("-");
        push_decimal_digits(out, (-(n as i64)) as u64);
        assert(out@ =~= old(out)@ + decimal(n as int));
    } else {
        push_decimal_digits(out, n as u64);
    }
}

/// Appends an address in hexadecimal.
pub fn push_pointer(out: &mut String, addr: u64)
    ensures
        final(out)@ == old(out)@ + pointer(addr),
{
    out.append("0x");
    push_lower_hex(out, addr, 1);
    assert(out@ =~= old(out)@ + pointer(addr));
}

impl AddressError {
    /// Why the digits after the prefix give no number.
    pub open spec fn spec_reason(self) -> Seq<char> {
        match self {
            AddressError::NoPrefix => "missing prefix"@,
            AddressError::NoDigits => "cannot parse integer from empty string"@,
            AddressError::BadDigit => "invalid digit found in string"@,
            AddressError::Overflow => "number too large to fit in target type"@,
        }
    }

    /// Why the digits after the prefix give no number.
    pub fn reason(&self) -> (s: &'static str)
        ensures
            s@ == self.spec_reason(),
    {
        match self {
            AddressError::NoPrefix => "missing prefix",
            AddressError::NoDigits => "cannot parse integer from empty string",
            AddressError::BadDigit => "invalid digit found in string",
            AddressError::Overflow => "number too large to fit in target type",
        }
    }
}

/// The list of commands.
pub open spec fn help_text() -> Seq<char> {
    "コマンド一覧 (括弧内は省略記法)\n\
break 0x8000 : ブレークポイントを0x8000番地に設定 (b 0x8000)\n\
run          : プログラムを実行 (r)\n\
continue     : プログラムを再開 (c)\n\
stepi        : 機械語レベルで1ステップ実行 (s)\n\
registers    : レジスタを表示 (regs)\n\
exit         : 終了\n\
help         : このヘルプを表示 (h)"@
}

impl Notice {
    /// Whether the notice reports a refusal, which goes to the error
    /// stream, or a piece of information.
    pub open spec fn spec_is_warning(self) -> bool {
        self is NotRunning || self is AlreadyRunning || self is BreakpointTaken
            || self is AddressMissing || self is AddressRejected || self is LaunchFailed
    }

    /// Whether the notice reports a refusal.
    pub fn is_warning(&self) -> (warning: bool)
        ensures
            warning == self.spec_is_warning(),
    {
        match self {
            Notice::NotRunning
            | Notice::AlreadyRunning
            | Notice::BreakpointTaken { .. }
            | Notice::AddressMissing
            | Notice::AddressRejected { .. }
            | Notice::LaunchFailed => true,
            _ => false,
        }
    }

    /// The notice in words.
    pub open spec fn spec_text(self) -> Seq<char> {
        match self {
            Notice::Help => help_text(),
            Notice::NotRunning => "<<ターゲットを実行していません。runで実行してください>>"@,
            Notice::AlreadyRunning => "<<既に実行中です>>"@,
            Notice::BreakpointTaken { addr } => "<<ブレークポイントは設定済みです：Addr = "@
                + pointer(addr) + ">>"@,
            Notice::AddressMissing => "<<アドレスを指定してください\n例：break 0x8000>>"@,
            Notice::AddressRejected { why: AddressError::NoPrefix } =>
                "<<アドレスは16進数でのみ指定可能です\n例：break 0x8000>>"@,
            Notice::AddressRejected { why } => "<<アドレス変換エラー："@ + why.spec_reason()
                + ">>"@,
            Notice::Launched { pid } => "<<子プロセスの実行に成功しました：PID = "@ + decimal(
                pid as int,
            ) + ">>"@,
            Notice::LaunchFailed => "<<子プロセスの実行に失敗しました>>"@,
            Notice::Stopped { pc } => "<<子プロセスが停止しました：PC = "@ + pointer(pc) + ">>"@,
            Notice::Terminated => "<<子プロセスが終了しました>>"@,
            Notice::Registers { regs } => regs.table(),
        }
    }

    /// Writes the notice in words.
    pub fn text(&self) -> (s: String)
        ensures
            s@ == self.spec_text(),
    {
        match self {
            Notice::Help => String::from_str(
                "コマンド一覧 (括弧内は省略記法)\n\
break 0x8000 : ブレークポイントを0x8000番地に設定 (b 0x8000)\n\
run          : プログラムを実行 (r)\n\
continue     : プログラムを再開 (c)\n\
stepi        : 機械語レベルで1ステップ実行 (s)\n\
registers    : レジスタを表示 (regs)\n\
exit         : 終了\n\
help         : このヘルプを表示 (h)",
            ),
            Notice::NotRunning => String::from_str(
                "<<ターゲットを実行していません。runで実行してください>>",
            ),
            Notice::AlreadyRunning => String::from_str("<<既に実行中です>>"),
            Notice::BreakpointTaken { addr } => {
                let mut s = String::from_str("<<ブレークポイントは設定済みです：Addr = ");
                push_pointer(&mut s, *addr);
                s.append(">>");
                s
            },
            Notice::AddressMissing => String::from_str(
                "<<アドレスを指定してください\n例：break 0x8000>>",
            ),
            Notice::AddressRejected { why: AddressError::NoPrefix } => String::from_str(
                "<<アドレスは16進数でのみ指定可能です\n例：break 0x8000>>",
            ),
            Notice::AddressRejected { why } => {
                let mut s = String::from_str("<<アドレス変換エラー：");
                s.append(why.reason());
                s.append(">>");
                s
            },
            Notice::Launched { pid } => {
                let mut s = String::from_str("<<子プロセスの実行に成功しました：PID = ");
                push_decimal(&mut s, *pid);
                s.append(">>");
                s
            },
            Notice::LaunchFailed => String::from_str("<<子プロセスの実行に失敗しました>>"),
            Notice::Stopped { pc } => {
                let mut s = String::from_str("<<子プロセスが停止しました：PC = ");
                push_pointer(&mut s, *pc);
                s.append(">>");
                s
            },
            Notice::Terminated => String::from_str("<<子プロセスが終了しました>>"),
            Notice::Registers { regs } => regs.render(),
        }
    }
}

} // verus!
