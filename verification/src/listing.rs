//! Text for a debugger: the registers of a processor and the instruction that it
//! stands at, in hexadecimal.

use vstd::prelude::*;
use vstd::string::StringExecFns;
use crate::bits::{high8, low8};
use crate::condition_codes::ConditionCodes;
use crate::cpu::Cpu;
use crate::mnemonic::hex_digit;
use crate::opcode::Opcode;
use crate::state::State;

verus! {

/// A byte as two hexadecimal digits.
pub open spec fn hex2(byte: u8) -> Seq<char> {
    seq![hex_digit(byte as int / 16), hex_digit(byte as int % 16)]
}

/// A 16-bit value as four hexadecimal digits.
pub open spec fn hex4(word: u16) -> Seq<char> {
    hex2(crate::state::high_byte(word)) + hex2(crate::state::low_byte(word))
}

/// The hexadecimal digit for a number below sixteen.
fn hex_digit_text(nibble: u8) -> (text: &'static str)
    requires
        nibble < 16,
    ensures
        text@ == seq![hex_digit(nibble as int)],
{
    match nibble {
        0 => {
            proof {
                reveal_strlit("0");
                assert("0"@ =~= seq![hex_digit(0)]);
            }
            "0"
        },
        1 => {
            proof {
                reveal_strlit("1");
                assert("1"@ =~= seq![hex_digit(1)]);
            }
            "1"
        },
        2 => {
            proof {
                reveal_strlit("2");
                assert("2"@ =~= seq![hex_digit(2)]);
            }
            "2"
        },
        3 => {
            proof {
                reveal_strlit("3");
                assert("3"@ =~= seq![hex_digit(3)]);
            }
            "3"
        },
        4 => {
            proof {
                reveal_strlit("4");
                assert("4"@ =~= seq![hex_digit(4)]);
            }
            "4"
        },
        5 => {
            proof {
                reveal_strlit("5");
                assert("5"@ =~= seq![hex_digit(5)]);
            }
            "5"
        },
        6 => {
            proof {
                reveal_strlit("6");
                assert("6"@ =~= seq![hex_digit(6)]);
            }
            "6"
        },
        7 => {
            proof {
                reveal_strlit("7");
                assert("7"@ =~= seq![hex_digit(7)]);
            }
            "7"
        },
        8 => {
            proof {
                reveal_strlit("8");
                assert("8"@ =~= seq![hex_digit(8)]);
            }
            "8"
        },
        9 => {
            proof {
                reveal_strlit("9");
                assert("9"@ =~= seq![hex_digit(9)]);
            }
            "9"
        },
        10 => {
            proof {
                reveal_strlit("a");
                assert("a"@ =~= seq![hex_digit(10)]);
            }
            "a"
        },
        11 => {
            proof {
                reveal_strlit("b");
                assert("b"@ =~= seq![hex_digit(11)]);
            }
            "b"
        },
        12 => {
            proof {
                reveal_strlit("c");
                assert("c"@ =~= seq![hex_digit(12)]);
            }
            "c"
        },
        13 => {
            proof {
                reveal_strlit("d");
                assert("d"@ =~= seq![hex_digit(13)]);
            }
            "d"
        },
        14 => {
            proof {
                reveal_strlit("e");
                assert("e"@ =~= seq![hex_digit(14)]);
            }
            "e"
        },
        _ => {
            proof {
                reveal_strlit("f");
                assert("f"@ =~= seq![hex_digit(15)]);
            }
            "f"
        },
    }
}

/// A byte as two hexadecimal digits.
pub fn hex_byte(byte: u8) -> (text: String)
    ensures
        text@ == hex2(byte),
{
    let mut text: String = String::from_str(hex_digit_text(byte / 16));
    text.append(hex_digit_text(byte % 16));
    assert(text@ =~= hex2(byte));
    text
}

/// A 16-bit value as four hexadecimal digits.
pub fn hex_word(word: u16) -> (text: String)
    ensures
        text@ == hex4(word),
{
    let mut text: String = hex_byte(high8(word));
    let low: String = hex_byte(low8(word));
    text.append(low.as_str());
    text
}

impl ConditionCodes {
    /// The flags in the order sign, zero, auxiliary carry, parity, carry: the name of
    /// each flag that is set, a dot for each that is clear.
    pub open spec fn text_of(self) -> Seq<char> {
        (if self.s {
            "s"@
        } else {
            "."@
        }) + (if self.z {
            "z"@
        } else {
            "."@
        }) + (if self.ac {
            "ac"@
        } else {
            "."@
        }) + (if self.p {
            "p"@
        } else {
            "."@
        }) + (if self.cy {
            "cy"@
        } else {
            "."@
        })
    }

    /// The flags as text: the name of each flag that is set, a dot for each that is
    /// clear.
    pub fn text(&self) -> (text: String)
        ensures
            text@ == self.text_of(),
    {
        let mut text: String = String::from_str(if self.s { "s" } else { "." });
        text.append(if self.z { "z" } else { "." });
        text.append(if self.ac { "ac" } else { "." });
        text.append(if self.p { "p" } else { "." });
        text.append(if self.cy { "cy" } else { "." });
        text
    }
}

impl State {
    /// The line of a listing for the instruction at the program counter: the address,
    /// the name of the instruction, and its immediate operand if it has one, the
    /// high byte first.
    pub open spec fn listing(self) -> Seq<char> {
        let head: Seq<char> = hex4(self.pc) + " "@ + Opcode::name_of(self.opcode());
        if Opcode::size_of(self.opcode()) == 1 {
            head
        } else if Opcode::size_of(self.opcode()) == 2 {
            head + " "@ + hex2(self.d8())
        } else {
            head + " "@ + hex4(self.d16())
        }
    }

    /// The registers in two lines: a line of headings, and below it the accumulator,
    /// the three register pairs, the program counter, the stack pointer and the
    /// flags.
    pub open spec fn dump(self) -> Seq<char> {
        "   a   bc   de   hl   pc   sp flags\n"@ + hex4(self.a as u16) + " "@ + hex2(self.b)
            + hex2(self.c) + " "@ + hex2(self.d) + hex2(self.e) + " "@ + hex2(self.h) + hex2(
            self.l,
        ) + " "@ + hex4(self.pc) + " "@ + hex4(self.sp) + " "@ + self.conditions.text_of()
    }
}

impl Cpu {
    /// The line of a listing for the instruction at the program counter.
    pub fn listing(&self) -> (line: String)
        ensures
            line@ == self@.listing(),
    {
        let opcode: Opcode = Opcode(self.memory.read(self.pc.0));
        let mut line: String = hex_word(self.pc.0);
        line.append(" ");
        line.append(opcode.mnemonic());
        let size: u8 = opcode.size();
        if size == 2 {
            line.append(" ");
            let operand: String = hex_byte(self.get_d8());
            line.append(operand.as_str());
        } else if size == 3 {
            line.append(" ");
            let operand: String = hex_word(self.get_d16());
            line.append(operand.as_str());
        }
        line
    }

    /// The registers in two lines, for a debugger.
    pub fn dump(&self) -> (text: String)
        ensures
            text@ == self@.dump(),
    {
        let mut text: String = String::from_str("   a   bc   de   hl   pc   sp flags\n");
        let a: String = hex_word(self.a.0 as u16);
        text.append(a.as_str());
        text.append(" ");
        let b: String = hex_byte(self.b.0);
        text.append(b.as_str());
        let c: String = hex_byte(self.c.0);
        text.append(c.as_str());
        text.append(" ");
        let d: String = hex_byte(self.d.0);
        text.append(d.as_str());
        let e: String = hex_byte(self.e.0);
        text.append(e.as_str());
        text.append(" ");
        let h: String = hex_byte(self.h.0);
        text.append(h.as_str());
        let l: String = hex_byte(self.l.0);
        text.append(l.as_str());
        text.append(" ");
        let pc: String = hex_word(self.pc.0);
        text.append(pc.as_str());
        text.append(" ");
        let sp: String = hex_word(self.sp.0);
        text.append(sp.as_str());
        text.append(" ");
        let flags: String = self.conditions.text();
        text.append(flags.as_str());
        text
    }
}

} // verus!
