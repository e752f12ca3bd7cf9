use vstd::prelude::*;
use vstd::string::*;

verus! {

/// What a line of command words asks the debugger to do.
#[derive(PartialEq, Eq, Structural, Clone, Copy, Debug)]
pub enum Command {
    /// No words at all.
    Empty,
    /// `run` / `r`: launch the target.
    Run,
    /// `break` / `b`: set the breakpoint; `None` when the address is missing
    /// or malformed.
    Break(Option<u64>),
    /// `continue` / `c`.
    Continue,
    /// `stepi` / `s` (declared, not implemented).
    StepI,
    /// `registers` / `regs` (declared, not implemented).
    Registers,
    /// `exit`.
    Exit,
    /// `help` / `h`.
    Help,
    /// Any other leading word.
    Unknown,
}

/// The value of a hexadecimal digit, or `None` for any other character.
pub open spec fn hex_digit(c: char) -> Option<nat> {
    if '0' <= c && c <= '9' {
        Some((c as nat - '0' as nat) as nat)
    } else if 'a' <= c && c <= 'f' {
        Some((c as nat - 'a' as nat + 10) as nat)
    } else if 'A' <= c && c <= 'F' {
        Some((c as nat - 'A' as nat + 10) as nat)
    } else {
        None
    }
}

/// Every character of `s` is a hexadecimal digit.
pub open spec fn all_hex(s: Seq<char>) -> bool {
    forall|i: int| 0 <= i < s.len() ==> (#[trigger] hex_digit(s[i])).is_some()
}

/// The number that the hexadecimal digits `s` denote, most significant first.
pub open spec fn hex_value(s: Seq<char>) -> nat
    decreases s.len(),
{
    if s.len() == 0 {
        0
    } else {
        hex_value(s.drop_last()) * 16 + hex_digit(s.last()).unwrap_or(0)
    }
}

/// The address written as `0x` followed by one or more hexadecimal digits,
/// if it fits in 64 bits.
pub open spec fn address_of(s: Seq<char>) -> Option<u64> {
    if s.len() > 2 && s[0] == '0' && s[1] == 'x' && all_hex(s.skip(2)) && hex_value(s.skip(2))
        <= u64::MAX {
        Some(hex_value(s.skip(2)) as u64)
    } else {
        None
    }
}

/// The breakpoint address given as the second word of a command.
pub open spec fn break_addr_of(cmd: Seq<&str>) -> Option<u64> {
    if cmd.len() < 2 {
        None
    } else {
        address_of(cmd[1]@)
    }
}

/// The command denoted by a sequence of words: the first word selects it,
/// long and short forms alike.
pub open spec fn command_of(cmd: Seq<&str>) -> Command {
    if cmd.len() == 0 {
        Command::Empty
    } else {
        let w = cmd[0]@;
        if w == "run"@ || w == "r"@ {
            Command::Run
        } else if w == "break"@ || w == "b"@ {
            Command::Break(break_addr_of(cmd))
        } else if w == "continue"@ || w == "c"@ {
            Command::Continue
        } else if w == "stepi"@ || w == "s"@ {
            Command::StepI
        } else if w == "registers"@ || w == "regs"@ {
            Command::Registers
        } else if w == "exit"@ {
            Command::Exit
        } else if w == "help"@ || w == "h"@ {
            Command::Help
        } else {
            Command::Unknown
        }
    }
}

/// The value of hexadecimal digits never drops when more digits follow.
proof fn lemma_hex_value_prefix(s: Seq<char>, j: int)
    requires
        0 <= j <= s.len(),
        all_hex(s),
    ensures
        hex_value(s.subrange(0, j)) <= hex_value(s),
    decreases s.len(),
{
    if j < s.len() {
        let t = s.drop_last();
        assert(all_hex(t)) by {
            assert forall|i: int| 0 <= i < t.len() implies (#[trigger] hex_digit(t[i])).is_some() by {
                assert(t[i] == s[i]);
            }
        }
        lemma_hex_value_prefix(t, j);
        assert(t.subrange(0, j) =~= s.subrange(0, j));
    } else {
        assert(s.subrange(0, j) =~= s);
    }
}

/// Whether `w` is exactly the characters of `lit`.
pub fn word_eq(w: &str, lit: &str) -> (r: bool)
    ensures
        r == (w@ == lit@),
{
    let n = w.unicode_len();
    if n != lit.unicode_len() {
        return false;
    }
    let mut i: usize = 0;
    while i < n
        invariant
            n == w@.len(),
            n == lit@.len(),
            i <= n,
            w@.subrange(0, i as int) =~= lit@.subrange(0, i as int),
        decreases n - i,
    {
        if w.get_char(i) != lit.get_char(i) {
            return false;
        }
        assert(w@.subrange(0, i + 1) =~= w@.subrange(0, i as int).push(w@[i as int]));
        assert(lit@.subrange(0, i + 1) =~= lit@.subrange(0, i as int).push(lit@[i as int]));
        i = i + 1;
    }
    assert(w@ =~= w@.subrange(0, n as int));
    assert(lit@ =~= lit@.subrange(0, n as int));
    true
}

/// The value of one hexadecimal digit.
fn hex_digit_value(c: char) -> (r: Option<u64>)
    ensures
        r.is_some() == hex_digit(c).is_some(),
        r.is_some() ==> r.unwrap() as nat == hex_digit(c).unwrap() && r.unwrap() < 16,
{
    if '0' <= c && c <= '9' {
        Some(c as u64 - '0' as u64)
    } else if 'a' <= c && c <= 'f' {
        Some(c as u64 - 'a' as u64 + 10)
    } else if 'A' <= c && c <= 'F' {
        Some(c as u64 - 'A' as u64 + 10)
    } else {
        None
    }
}

/// Parses an address written as `0x` followed by hexadecimal digits.
pub fn parse_address(s: &str) -> (r: Option<u64>)
    ensures
        r == address_of(s@),
{
    let n = s.unicode_len();
    if n <= 2 || s.get_char(0) != '0' || s.get_char(1) != 'x' {
        return None;
    }
    let ghost digits = s@.skip(2);
    let mut acc: u64 = 0;
    let mut i: usize = 2;
    while i < n
        invariant
            n == s@.len(),
            2 <= i <= n,
            digits == s@.skip(2),
            all_hex(digits.subrange(0, i - 2)),
            acc as nat == hex_value(digits.subrange(0, i - 2)),
        decreases n - i,
    {
        let c = s.get_char(i);
        let ghost pre = digits.subrange(0, i - 2);
        let ghost next = digits.subrange(0, i - 1);
        assert(next.drop_last() =~= pre);
        assert(next.last() == c);
        match hex_digit_value(c) {
            None => {
                assert(!all_hex(digits)) by {
                    assert(digits[i - 2] == c);
                }
                return None;
            },
            Some(d) => {
                assert(all_hex(next)) by {
                    assert forall|k: int| 0 <= k < next.len() implies (#[trigger] hex_digit(next[k])).is_some() by {
                        if k < pre.len() {
                            assert(next[k] == pre[k]);
                        }
                    }
                }
                if acc > (u64::MAX - d) / 16 {
                    assert(hex_value(next) > u64::MAX) by (nonlinear_arith)
                        requires
                            hex_value(next) == acc * 16 + d,
                            acc > (u64::MAX - d) / 16,
                            d < 16,
                    ;
                    proof {
                        if all_hex(digits) {
                            lemma_hex_value_prefix(digits, i - 1);
                        }
                    }
                    return None;
                }
                assert(acc * 16 + d <= u64::MAX) by (nonlinear_arith)
                    requires
                        acc <= (u64::MAX - d) / 16,
                        d < 16,
                ;
                acc = acc * 16 + d;
            },
        }
        i = i + 1;
    }
    assert(digits.subrange(0, n - 2) =~= digits);
    Some(acc)
}

/// The breakpoint address given as the second word of `cmd`.
pub fn get_break_addr(cmd: &[&str]) -> (r: Option<u64>)
    ensures
        r == break_addr_of(cmd@),
{
    if cmd.len() < 2 {
        None
    } else {
        parse_address(cmd[1])
    }
}

/// Classifies a sequence of command words.
pub fn parse_command(cmd: &[&str]) -> (r: Command)
    ensures
        r == command_of(cmd@),
{
    if cmd.len() == 0 {
        return Command::Empty;
    }
    let w = cmd[0];
    if word_eq(w, "run") || word_eq(w, "r") {
        Command::Run
    } else if word_eq(w, "break") || word_eq(w, "b") {
        Command::Break(get_break_addr(cmd))
    } else if word_eq(w, "continue") || word_eq(w, "c") {
        Command::Continue
    } else if word_eq(w, "stepi") || word_eq(w, "s") {
        Command::StepI
    } else if word_eq(w, "registers") || word_eq(w, "regs") {
        Command::Registers
    } else if word_eq(w, "exit") {
        Command::Exit
    } else if word_eq(w, "help") || word_eq(w, "h") {
        Command::Help
    } else {
        Command::Unknown
    }
}

} // verus!
