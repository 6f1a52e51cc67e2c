use zdbg::address::AddressError;
use zdbg::host::Notice;
use zdbg::report::{push_decimal, push_pointer};

#[test]
fn writes_decimal_numbers() {
    for n in [0, 1, 9, 10, 42, 4711, 32768, i32::MAX, -1, -10, -4711, i32::MIN] {
        let mut s = String::from("PID = ");
        push_decimal(&mut s, n);
        assert_eq!(s, format!("PID = {}", n));
    }
}

#[test]
fn writes_pointers_without_padding() {
    for a in [0u64, 1, 0x4000, 0x8000, 0xdead_beef, u64::MAX] {
        let mut s = String::from("Addr = ");
        push_pointer(&mut s, a);
        assert_eq!(s, format!("Addr = {:#x}", a));
    }
}

#[test]
fn words_of_the_refusals() {
    assert_eq!(
        Notice::NotRunning.text(),
        "<<ターゲットを実行していません。runで実行してください>>"
    );
    assert_eq!(Notice::AlreadyRunning.text(), "<<既に実行中です>>");
    assert_eq!(
        Notice::BreakpointTaken { addr: 0x4000 }.text(),
        "<<ブレークポイントは設定済みです：Addr = 0x4000>>"
    );
    assert_eq!(
        Notice::AddressMissing.text(),
        "<<アドレスを指定してください\n例：break 0x8000>>"
    );
    assert_eq!(
        Notice::AddressRejected { why: AddressError::NoPrefix }.text(),
        "<<アドレスは16進数でのみ指定可能です\n例：break 0x8000>>"
    );
    assert_eq!(
        Notice::AddressRejected { why: AddressError::NoDigits }.text(),
        "<<アドレス変換エラー：cannot parse integer from empty string>>"
    );
    assert_eq!(
        Notice::AddressRejected { why: AddressError::BadDigit }.text(),
        "<<アドレス変換エラー：invalid digit found in string>>"
    );
    assert_eq!(
        Notice::AddressRejected { why: AddressError::Overflow }.text(),
        "<<アドレス変換エラー：number too large to fit in target type>>"
    );
}

#[test]
fn words_of_the_reports() {
    assert_eq!(
        Notice::Launched { pid: 4711 }.text(),
        "<<子プロセスの実行に成功しました：PID = 4711>>"
    );
    assert_eq!(
        Notice::Stopped { pc: 0x4000 }.text(),
        "<<子プロセスが停止しました：PC = 0x4000>>"
    );
    assert_eq!(Notice::Terminated.text(), "<<子プロセスが終了しました>>");
    assert_eq!(Notice::LaunchFailed.text(), "<<子プロセスの実行に失敗しました>>");
}

#[test]
fn words_of_the_help() {
    let help = Notice::Help.text();
    let lines: Vec<&str> = help.split('\n').collect();
    assert_eq!(lines.len(), 8);
    assert_eq!(lines[0], "コマンド一覧 (括弧内は省略記法)");
    assert_eq!(lines[1], "break 0x8000 : ブレークポイントを0x8000番地に設定 (b 0x8000)");
    assert_eq!(lines[2], "run          : プログラムを実行 (r)");
    assert_eq!(lines[3], "continue     : プログラムを再開 (c)");
    assert_eq!(lines[4], "stepi        : 機械語レベルで1ステップ実行 (s)");
    assert_eq!(lines[5], "registers    : レジスタを表示 (regs)");
    assert_eq!(lines[6], "exit         : 終了");
    assert_eq!(lines[7], "help         : このヘルプを表示 (h)");
}

#[test]
fn refusals_are_warnings() {
    assert!(Notice::NotRunning.is_warning());
    assert!(Notice::AlreadyRunning.is_warning());
    assert!(Notice::BreakpointTaken { addr: 1 }.is_warning());
    assert!(Notice::AddressMissing.is_warning());
    assert!(Notice::AddressRejected { why: AddressError::BadDigit }.is_warning());
    assert!(Notice::LaunchFailed.is_warning());
    assert!(!Notice::Help.is_warning());
    assert!(!Notice::Launched { pid: 1 }.is_warning());
    assert!(!Notice::Stopped { pc: 1 }.is_warning());
    assert!(!Notice::Terminated.is_warning());
}

#[test]
fn reasons_of_rejected_addresses() {
    assert_eq!(AddressError::NoDigits.reason(), "cannot parse integer from empty string");
    assert_eq!(AddressError::BadDigit.reason(), "invalid digit found in string");
    assert_eq!(AddressError::Overflow.reason(), "number too large to fit in target type");
    assert_eq!(
        AddressError::NoDigits.reason(),
        usize::from_str_radix("", 16).unwrap_err().to_string()
    );
    assert_eq!(
        AddressError::BadDigit.reason(),
        usize::from_str_radix("g", 16).unwrap_err().to_string()
    );
    assert_eq!(
        AddressError::Overflow.reason(),
        usize::from_str_radix("10000000000000000", 16).unwrap_err().to_string()
    );
}
