//! Registers, display elements and their textual form.
use vstd::prelude::*;
use vstd::arithmetic::div_mod::{lemma_div_is_strictly_smaller, lemma_small_mod};

verus! {

/// The registers of the Toy processor, with their sub-registers and the
/// context register.
#[derive(Clone, Copy, Debug, PartialEq, Eq, Structural)]
pub enum Register {
    r0,
    r1,
    r2,
    r3,
    r4,
    r5,
    r6,
    r7,
    r8,
    r9,
    r10,
    r11,
    r12,
    sp,
    lr,
    pc,
    C,
    Z,
    N,
    V,
    r0l,
    r0h,
    r1l,
    r1h,
    r2l,
    r2h,
    r3l,
    r3h,
    r4l,
    r4h,
    r5l,
    r5h,
    r6l,
    r6h,
    r7l,
    r7h,
    r8l,
    r8h,
    r9l,
    r9h,
    r10l,
    r10h,
    r11l,
    r11h,
    r12l,
    r12h,
    spl,
    sph,
    lrl,
    lrh,
    pcl,
    pch,
    contextreg,
}

/// The name under which a register is shown.
pub open spec fn register_name(r: Register) -> Seq<char> {
    match r {
        Register::r0 => "r0"@,
        Register::r1 => "r1"@,
        Register::r2 => "r2"@,
        Register::r3 => "r3"@,
        Register::r4 => "r4"@,
        Register::r5 => "r5"@,
        Register::r6 => "r6"@,
        Register::r7 => "r7"@,
        Register::r8 => "r8"@,
        Register::r9 => "r9"@,
        Register::r10 => "r10"@,
        Register::r11 => "r11"@,
        Register::r12 => "r12"@,
        Register::sp => "sp"@,
        Register::lr => "lr"@,
        Register::pc => "pc"@,
        Register::C => "C"@,
        Register::Z => "Z"@,
        Register::N => "N"@,
        Register::V => "V"@,
        Register::r0l => "r0l"@,
        Register::r0h => "r0h"@,
        Register::r1l => "r1l"@,
        Register::r1h => "r1h"@,
        Register::r2l => "r2l"@,
        Register::r2h => "r2h"@,
        Register::r3l => "r3l"@,
        Register::r3h => "r3h"@,
        Register::r4l => "r4l"@,
        Register::r4h => "r4h"@,
        Register::r5l => "r5l"@,
        Register::r5h => "r5h"@,
        Register::r6l => "r6l"@,
        Register::r6h => "r6h"@,
        Register::r7l => "r7l"@,
        Register::r7h => "r7h"@,
        Register::r8l => "r8l"@,
        Register::r8h => "r8h"@,
        Register::r9l => "r9l"@,
        Register::r9h => "r9h"@,
        Register::r10l => "r10l"@,
        Register::r10h => "r10h"@,
        Register::r11l => "r11l"@,
        Register::r11h => "r11h"@,
        Register::r12l => "r12l"@,
        Register::r12h => "r12h"@,
        Register::spl => "spl"@,
        Register::sph => "sph"@,
        Register::lrl => "lrl"@,
        Register::lrh => "lrh"@,
        Register::pcl => "pcl"@,
        Register::pch => "pch"@,
        Register::contextreg => "contextreg"@,
    }
}

impl Register {
    /// The register's name, as it appears in disassembly.
    pub fn name(&self) -> (s: &'static str)
        ensures
            s@ == register_name(*self),
    {
        match self {
            Register::r0 => "r0",
            Register::r1 => "r1",
            Register::r2 => "r2",
            Register::r3 => "r3",
            Register::r4 => "r4",
            Register::r5 => "r5",
            Register::r6 => "r6",
            Register::r7 => "r7",
            Register::r8 => "r8",
            Register::r9 => "r9",
            Register::r10 => "r10",
            Register::r11 => "r11",
            Register::r12 => "r12",
            Register::sp => "sp",
            Register::lr => "lr",
            Register::pc => "pc",
            Register::C => "C",
            Register::Z => "Z",
            Register::N => "N",
            Register::V => "V",
            Register::r0l => "r0l",
            Register::r0h => "r0h",
            Register::r1l => "r1l",
            Register::r1h => "r1h",
            Register::r2l => "r2l",
            Register::r2h => "r2h",
            Register::r3l => "r3l",
            Register::r3h => "r3h",
            Register::r4l => "r4l",
            Register::r4h => "r4h",
            Register::r5l => "r5l",
            Register::r5h => "r5h",
            Register::r6l => "r6l",
            Register::r6h => "r6h",
            Register::r7l => "r7l",
            Register::r7h => "r7h",
            Register::r8l => "r8l",
            Register::r8h => "r8h",
            Register::r9l => "r9l",
            Register::r9h => "r9h",
            Register::r10l => "r10l",
            Register::r10h => "r10h",
            Register::r11l => "r11l",
            Register::r11h => "r11h",
            Register::r12l => "r12l",
            Register::r12h => "r12h",
            Register::spl => "spl",
            Register::sph => "sph",
            Register::lrl => "lrl",
            Register::lrh => "lrh",
            Register::pcl => "pcl",
            Register::pch => "pch",
            Register::contextreg => "contextreg",
        }
    }
}
/// The general purpose register numbered `n` (0 to 15) in an instruction's
/// register field.
pub open spec fn register_of(n: u8) -> Register {
    if n == 0 { Register::r0 }
    else if n == 1 { Register::r1 }
    else if n == 2 { Register::r2 }
    else if n == 3 { Register::r3 }
    else if n == 4 { Register::r4 }
    else if n == 5 { Register::r5 }
    else if n == 6 { Register::r6 }
    else if n == 7 { Register::r7 }
    else if n == 8 { Register::r8 }
    else if n == 9 { Register::r9 }
    else if n == 10 { Register::r10 }
    else if n == 11 { Register::r11 }
    else if n == 12 { Register::r12 }
    else if n == 13 { Register::sp }
    else if n == 14 { Register::lr }
    else { Register::pc }
}

/// One piece of an instruction's textual form.
#[derive(Clone, Copy, Debug)]
pub enum DisplayElement {
    /// Fixed text: a mnemonic, a separator, a bracket.
    Literal(&'static str),
    /// A register operand.
    Register(Register),
    /// A number, shown in hexadecimal when the flag is set.
    Number(bool, i64),
}

/// A number operand.
pub fn meaning_number(hex: bool, num: i64) -> (r: DisplayElement)
    ensures
        r == DisplayElement::Number(hex, num),
{
    DisplayElement::Number(hex, num)
}

/// The register operand for a register field value.
pub fn meaning_0_display(num: u8) -> (r: DisplayElement)
    requires
        num < 16,
    ensures
        r == DisplayElement::Register(register_of(num)),
{
    let value = meaning_0_value(num);
    DisplayElement::Register(value)
}

/// The register named by a register field value.
pub fn meaning_0_value(num: u8) -> (r: Register)
    requires
        num < 16,
    ensures
        r == register_of(num),
{
    match num {
        0 => Register::r0,
        1 => Register::r1,
        2 => Register::r2,
        3 => Register::r3,
        4 => Register::r4,
        5 => Register::r5,
        6 => Register::r6,
        7 => Register::r7,
        8 => Register::r8,
        9 => Register::r9,
        10 => Register::r10,
        11 => Register::r11,
        12 => Register::r12,
        13 => Register::sp,
        14 => Register::lr,
        _ => Register::pc,
    }
}


/// The character of the digit `d` (0 to 15), in lower case.
pub open spec fn digit_char(d: nat) -> char {
    if d == 0 {
        '0'
    } else if d == 1 {
        '1'
    } else if d == 2 {
        '2'
    } else if d == 3 {
        '3'
    } else if d == 4 {
        '4'
    } else if d == 5 {
        '5'
    } else if d == 6 {
        '6'
    } else if d == 7 {
        '7'
    } else if d == 8 {
        '8'
    } else if d == 9 {
        '9'
    } else if d == 10 {
        'a'
    } else if d == 11 {
        'b'
    } else if d == 12 {
        'c'
    } else if d == 13 {
        'd'
    } else if d == 14 {
        'e'
    } else {
        'f'
    }
}

/// The digits of `n` in base `base` (2 to 16), most significant first,
/// without leading zeros (a single `0` for zero).
pub open spec fn digits_text(n: nat, base: nat) -> Seq<char>
    recommends
        2 <= base <= 16,
    decreases n,
{
    if n < base || base < 2 {
        seq![digit_char(n)]
    } else {
        proof {
            lemma_div_is_strictly_smaller(n as int, base as int);
        }
        digits_text(n / base, base).push(digit_char(n % base))
    }
}

/// How a number operand is shown: in hexadecimal with a `0x` prefix when
/// `hex` is set, in decimal otherwise; negative numbers start with `-`.
pub open spec fn number_text(hex: bool, value: int) -> Seq<char> {
    let sign: Seq<char> = if value < 0 { seq!['-'] } else { Seq::empty() };
    let magnitude: nat = if value < 0 { (-value) as nat } else { value as nat };
    if hex {
        sign + seq!['0', 'x'] + digits_text(magnitude, 16)
    } else {
        sign + digits_text(magnitude, 10)
    }
}

/// How a display element is shown.
pub open spec fn element_text(e: DisplayElement) -> Seq<char> {
    match e {
        DisplayElement::Literal(s) => s@,
        DisplayElement::Register(r) => register_name(r),
        DisplayElement::Number(hex, value) => number_text(hex, value as int),
    }
}

/// The one-character string of the digit `d`.
fn digit_str(d: u64) -> (s: &'static str)
    requires
        d < 16,
    ensures
        s@ == seq![digit_char(d as nat)],
{
    if d == 0 {
        proof {
            reveal_strlit("0");
        }
        "0"
    } else if d == 1 {
        proof {
            reveal_strlit("1");
        }
        "1"
    } else if d == 2 {
        proof {
            reveal_strlit("2");
        }
        "2"
    } else if d == 3 {
        proof {
            reveal_strlit("3");
        }
        "3"
    } else if d == 4 {
        proof {
            reveal_strlit("4");
        }
        "4"
    } else if d == 5 {
        proof {
            reveal_strlit("5");
        }
        "5"
    } else if d == 6 {
        proof {
            reveal_strlit("6");
        }
        "6"
    } else if d == 7 {
        proof {
            reveal_strlit("7");
        }
        "7"
    } else if d == 8 {
        proof {
            reveal_strlit("8");
        }
        "8"
    } else if d == 9 {
        proof {
            reveal_strlit("9");
        }
        "9"
    } else if d == 10 {
        proof {
            reveal_strlit("a");
        }
        "a"
    } else if d == 11 {
        proof {
            reveal_strlit("b");
        }
        "b"
    } else if d == 12 {
        proof {
            reveal_strlit("c");
        }
        "c"
    } else if d == 13 {
        proof {
            reveal_strlit("d");
        }
        "d"
    } else if d == 14 {
        proof {
            reveal_strlit("e");
        }
        "e"
    } else {
        proof {
            reveal_strlit("f");
        }
        "f"
    }
}

/// Appends the digits of `n` in base `base` to `s`.
fn push_digits(s: &mut String, n: u64, base: u64)
    requires
        2 <= base <= 16,
    ensures
        final(s)@ == old(s)@ + digits_text(n as nat, base as nat),
    decreases n,
{
    if n >= base {
        proof {
            lemma_div_is_strictly_smaller(n as int, base as int);
        }
        push_digits(s, n / base, base);
    }
    s.append(digit_str(n % base));
    proof {
        if n >= base {
            assert(digits_text(n as nat, base as nat) =~= digits_text((n / base) as nat, base as nat)
                + seq![digit_char((n % base) as nat)]);
        } else {
            lemma_small_mod(n as nat, base as nat);
        }
    }
}

impl Register {
    /// The register's name as a string.
    pub fn to_string(&self) -> (s: String)
        ensures
            s@ == register_name(*self),
    {
        String::from_str(self.name())
    }
}

impl DisplayElement {
    /// The element's text: literals as they are, registers by name, numbers
    /// in hexadecimal (`0x1f`, `-0x1f`) or decimal (`31`, `-31`).
    pub fn to_string(&self) -> (s: String)
        requires
            *self matches DisplayElement::Number(hex, value) ==> !(hex && value == i64::MIN),
        ensures
            s@ == element_text(*self),
    {
        match self {
            DisplayElement::Literal(lit) => String::from_str(lit),
            DisplayElement::Register(reg) => reg.to_string(),
            DisplayElement::Number(hex, value) => {
                let mut s = String::new();
                let negative = *value < 0;
                let magnitude: u64 = if negative {
                    (0i128 - (*value as i128)) as u64
                } else {
                    *value as u64
                };
                if negative {
                    s.append("-");
                    proof {
                        reveal_strlit("-");
                    }
                }
                if *hex {
                    s.append("0x");
                    proof {
                        reveal_strlit("0x");
                    }
                    push_digits(&mut s, magnitude, 16);
                } else {
                    push_digits(&mut s, magnitude, 10);
                }
                assert(s@ =~= number_text(*hex, *value as int));
                s
            },
        }
    }
}

} // verus!
