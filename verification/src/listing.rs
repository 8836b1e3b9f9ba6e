use vstd::prelude::*;
use vstd::string::StringExecFns;
use crate::opcode::{Instruction, Opcode};
use crate::state::{State, MEMORY_START};

verus! {

/// The lower-case hexadecimal digit for a value below 16.
pub open spec fn hex_digit(n: int) -> Seq<char> {
    if n == 0 {
        "0"@
    } else if n == 1 {
        "1"@
    } else if n == 2 {
        "2"@
    } else if n == 3 {
        "3"@
    } else if n == 4 {
        "4"@
    } else if n == 5 {
        "5"@
    } else if n == 6 {
        "6"@
    } else if n == 7 {
        "7"@
    } else if n == 8 {
        "8"@
    } else if n == 9 {
        "9"@
    } else if n == 10 {
        "a"@
    } else if n == 11 {
        "b"@
    } else if n == 12 {
        "c"@
    } else if n == 13 {
        "d"@
    } else if n == 14 {
        "e"@
    } else {
        "f"@
    }
}

/// A byte as two hexadecimal digits.
pub open spec fn hex2(n: int) -> Seq<char> {
    hex_digit(n / 16) + hex_digit(n % 16)
}

/// A value below 0x1000 as three hexadecimal digits.
pub open spec fn hex3(n: int) -> Seq<char> {
    hex_digit(n / 256) + hex2(n % 256)
}

/// A sixteen-bit value as four hexadecimal digits.
pub open spec fn hex4(n: int) -> Seq<char> {
    hex2(n / 256) + hex2(n % 256)
}

/// A sixteen-bit value in hexadecimal, padded with zeros to two digits.
pub open spec fn hex_wide(n: int) -> Seq<char> {
    if n < 0x100 {
        hex2(n)
    } else if n < 0x1000 {
        hex3(n)
    } else {
        hex4(n)
    }
}

fn digit(n: u8) -> (text: &'static str)
    requires
        n < 16,
    ensures
        text@ == hex_digit(n as int),
{
    match n {
        0 => "0",
        1 => "1",
        2 => "2",
        3 => "3",
        4 => "4",
        5 => "5",
        6 => "6",
        7 => "7",
        8 => "8",
        9 => "9",
        10 => "a",
        11 => "b",
        12 => "c",
        13 => "d",
        14 => "e",
        _ => "f",
    }
}

fn push_hex2(out: &mut String, n: u8)
    ensures
        final(out)@ == old(out)@ + hex2(n as int),
{
    out.append(digit(n / 16));
    out.append(digit(n % 16));
    assert(out@ =~= old(out)@ + hex2(n as int));
}

fn push_hex3(out: &mut String, n: u16)
    requires
        n < 0x1000,
    ensures
        final(out)@ == old(out)@ + hex3(n as int),
{
    out.append(digit((n / 256) as u8));
    push_hex2(out, (n % 256) as u8);
    assert(out@ =~= old(out)@ + hex3(n as int));
}

fn push_hex4(out: &mut String, n: u16)
    ensures
        final(out)@ == old(out)@ + hex4(n as int),
{
    push_hex2(out, (n / 256) as u8);
    push_hex2(out, (n % 256) as u8);
    assert(out@ =~= old(out)@ + hex4(n as int));
}

fn push_hex_wide(out: &mut String, n: u16)
    ensures
        final(out)@ == old(out)@ + hex_wide(n as int),
{
    if n < 0x100 {
        push_hex2(out, n as u8);
    } else if n < 0x1000 {
        push_hex3(out, n);
    } else {
        push_hex4(out, n);
    }
}

/// The name of a register: `V` and its index as one hexadecimal digit.
pub open spec fn register_name(x: int) -> Seq<char> {
    "V"@ + hex_digit(x)
}

/// A mnemonic with one register operand.
pub open spec fn with_register_operand(name: Seq<char>, x: int) -> Seq<char> {
    name + "\t\t"@ + register_name(x)
}

/// A mnemonic with two register operands.
pub open spec fn with_register_pair(name: Seq<char>, x: int, y: int) -> Seq<char> {
    name + "\t\t"@ + register_name(x) + ", "@ + register_name(y)
}

/// A mnemonic with a register and an immediate byte.
pub open spec fn with_register_byte(name: Seq<char>, x: int, nn: int) -> Seq<char> {
    name + "\t\t"@ + register_name(x) + ", "@ + hex2(nn)
}

/// The mnemonic and operands of an instruction. Bytes that encode no
/// instruction are listed as `UNKNOWN`.
pub open spec fn mnemonic_text(ins: Instruction) -> Seq<char> {
    match ins {
        Instruction::ClearDisplay => "dclr"@,
        Instruction::Return => "ret"@,
        Instruction::Jump { target } => "jmp\t\t"@ + hex3(target as int),
        Instruction::Call { target } => "call\t\t"@ + hex3(target as int),
        Instruction::SkipEqImm { x, nn } => with_register_byte("skipifeq"@, x as int, nn as int),
        Instruction::SkipNeImm { x, nn } => with_register_byte("skipifne"@, x as int, nn as int),
        Instruction::SkipEqReg { x, y } => with_register_pair("skipifeq"@, x as int, y as int),
        Instruction::LoadImm { x, nn } => with_register_byte("mov"@, x as int, nn as int),
        Instruction::AddImm { x, nn } => with_register_byte("add"@, x as int, nn as int),
        Instruction::Assign { x, y } => with_register_pair("mov"@, x as int, y as int),
        Instruction::Or { x, y } => with_register_pair("or"@, x as int, y as int),
        Instruction::And { x, y } => with_register_pair("and"@, x as int, y as int),
        Instruction::Xor { x, y } => with_register_pair("xor"@, x as int, y as int),
        Instruction::AddCarry { x, y } => with_register_pair("addwc"@, x as int, y as int),
        Instruction::SubBorrow { x, y } => with_register_pair("subwc"@, x as int, y as int),
        Instruction::ShiftRight { x } => with_register_operand("shr"@, x as int),
        Instruction::ReverseSub { x, y } => with_register_pair("subwc"@, x as int, y as int)
            + ", "@ + register_name(x as int),
        Instruction::ShiftLeft { x } => with_register_operand("shl"@, x as int),
        Instruction::SetAddress { target } => "mov\t\tI, "@ + hex3(target as int),
        Instruction::Random { x, .. } => with_register_operand("rnd"@, x as int),
        Instruction::Draw { x, y, rows } => with_register_pair("draw"@, x as int, y as int)
            + ", "@ + hex_digit(rows as int),
        Instruction::AddAddress { x } => "add\t\tI, "@ + register_name(x as int),
        Instruction::StoreBlock { x } => "movm\t\tI, V0-"@ + register_name(x as int),
        Instruction::LoadBlock { x } => "movm\t\tV0-"@ + register_name(x as int) + ", I"@,
        Instruction::Unknown { .. } => "UNKNOWN"@,
    }
}

/// One line of a listing: the address in four hexadecimal digits, the two
/// bytes, and the mnemonic of the instruction they encode.
#[verifier::opaque]
pub open spec fn disassembly(op: Opcode, pc: u16) -> Seq<char> {
    hex4(pc as int) + ":\t"@ + hex2(op.0 as int) + " "@ + hex2(op.1 as int) + "\t"@
        + mnemonic_text(op.decode()) + "\n"@
}

/// The listing of the first `count` instructions of program space.
pub open spec fn listing(memory: Seq<u8>, count: int) -> Seq<char>
    decreases count,
{
    if count <= 0 {
        Seq::empty()
    } else {
        let at = MEMORY_START + 2 * (count - 1);
        listing(memory, count - 1) + disassembly(Opcode(memory[at], memory[at + 1]), at as u16)
    }
}

/// A listing grows by one line for each further instruction.
pub proof fn lemma_listing_next(memory: Seq<u8>, count: int)
    requires
        count >= 0,
    ensures
        listing(memory, count + 1) == listing(memory, count) + disassembly(
            Opcode(memory[MEMORY_START + 2 * count], memory[MEMORY_START + 2 * count + 1]),
            (MEMORY_START + 2 * count) as u16,
        ),
{
}

/// The first `count` registers, each as its index, a colon, its value in two
/// hexadecimal digits and a space.
pub open spec fn register_list(v: Seq<u8>, count: int) -> Seq<char>
    decreases count,
{
    if count <= 0 {
        Seq::empty()
    } else {
        register_list(v, count - 1) + hex_digit(count - 1) + ":"@ + hex2(v[count - 1] as int)
            + " "@
    }
}

/// The dump of all registers: the general registers, then the address
/// register, the stack pointer and the program counter, in hexadecimal.
pub open spec fn register_dump(s: State) -> Seq<char> {
    "REGISTERS:\nV = ["@ + register_list(s.v, 16) + "]\nI  = "@ + hex_wide(s.i as int)
        + "\nSP = "@ + hex_wide(s.sp as int) + "\nPC = "@ + hex_wide(s.pc as int) + "\n"@
}

fn push_register(out: &mut String, x: usize)
    requires
        x < 16,
    ensures
        final(out)@ == old(out)@ + register_name(x as int),
{
    out.append("V");
    out.append(digit(x as u8));
    assert(out@ =~= old(out)@ + register_name(x as int));
}

fn register_operand(name: &str, x: usize) -> (text: String)
    requires
        x < 16,
    ensures
        text@ == with_register_operand(name@, x as int),
{
    let mut text = String::from_str(name);
    text.append("\t\t");
    push_register(&mut text, x);
    text
}

fn register_pair(name: &str, x: usize, y: usize) -> (text: String)
    requires
        x < 16,
        y < 16,
    ensures
        text@ == with_register_pair(name@, x as int, y as int),
{
    let mut text = register_operand(name, x);
    text.append(", ");
    push_register(&mut text, y);
    text
}

fn register_byte(name: &str, x: usize, nn: u8) -> (text: String)
    requires
        x < 16,
    ensures
        text@ == with_register_byte(name@, x as int, nn as int),
{
    let mut text = register_operand(name, x);
    text.append(", ");
    push_hex2(&mut text, nn);
    text
}

impl Instruction {
    /// The mnemonic and operands of the instruction, as a listing shows them.
    pub fn mnemonic(&self) -> (text: String)
        requires
            self.wf(),
        ensures
            text@ == mnemonic_text(*self),
    {
        match *self {
            Instruction::ClearDisplay => String::from_str("dclr"),
            Instruction::Return => String::from_str("ret"),
            Instruction::Jump { target } => {
                let mut text = String::from_str("jmp\t\t");
                push_hex3(&mut text, target);
                text
            },
            Instruction::Call { target } => {
                let mut text = String::from_str("call\t\t");
                push_hex3(&mut text, target);
                text
            },
            Instruction::SkipEqImm { x, nn } => register_byte("skipifeq", x, nn),
            Instruction::SkipNeImm { x, nn } => register_byte("skipifne", x, nn),
            Instruction::SkipEqReg { x, y } => register_pair("skipifeq", x, y),
            Instruction::LoadImm { x, nn } => register_byte("mov", x, nn),
            Instruction::AddImm { x, nn } => register_byte("add", x, nn),
            Instruction::Assign { x, y } => register_pair("mov", x, y),
            Instruction::Or { x, y } => register_pair("or", x, y),
            Instruction::And { x, y } => register_pair("and", x, y),
            Instruction::Xor { x, y } => register_pair("xor", x, y),
            Instruction::AddCarry { x, y } => register_pair("addwc", x, y),
            Instruction::SubBorrow { x, y } => register_pair("subwc", x, y),
            Instruction::ShiftRight { x } => register_operand("shr", x),
            Instruction::ReverseSub { x, y } => {
                let mut text = register_pair("subwc", x, y);
                text.append(", ");
                push_register(&mut text, x);
                text
            },
            Instruction::ShiftLeft { x } => register_operand("shl", x),
            Instruction::SetAddress { target } => {
                let mut text = String::from_str("mov\t\tI, ");
                push_hex3(&mut text, target);
                text
            },
            Instruction::Random { x, .. } => register_operand("rnd", x),
            Instruction::Draw { x, y, rows } => {
                let mut text = register_pair("draw", x, y);
                text.append(", ");
                text.append(digit(rows));
                text
            },
            Instruction::AddAddress { x } => {
                let mut text = String::from_str("add\t\tI, ");
                push_register(&mut text, x);
                text
            },
            Instruction::StoreBlock { x } => {
                let mut text = String::from_str("movm\t\tI, V0-");
                push_register(&mut text, x);
                text
            },
            Instruction::LoadBlock { x } => {
                let mut text = String::from_str("movm\t\tV0-");
                push_register(&mut text, x);
                text.append(", I");
                text
            },
            Instruction::Unknown { .. } => String::from_str("UNKNOWN"),
        }
    }
}

impl Opcode {
    /// The listing line of the instruction at address `pc`. Bytes that
    /// encode no instruction are listed as `UNKNOWN`.
    pub fn disassemble(&self, pc: u16) -> (line: String)
        ensures
            line@ == disassembly(*self, pc),
    {
        let mut line = String::new();
        push_hex4(&mut line, pc);
        line.append(":\t");
        push_hex2(&mut line, self.0);
        line.append(" ");
        push_hex2(&mut line, self.1);
        line.append("\t");
        let text = self.decode().mnemonic();
        line.append(text.as_str());
        line.append("\n");
        reveal(disassembly);
        assert(line@ =~= disassembly(*self, pc));
        line
    }
}

/// Appends the listing line of every register to `out`.
pub(crate) fn push_register_list(out: &mut String, v: &[u8; 16])
    ensures
        final(out)@ == old(out)@ + register_list(v@, 16),
{
    let mut k: usize = 0;
    assert(out@ =~= old(out)@ + register_list(v@, 0));
    while k < 16
        invariant
            k <= 16,
            out@ == old(out)@ + register_list(v@, k as int),
        decreases 16 - k,
    {
        let ghost before = out@;
        out.append(digit(k as u8));
        out.append(":");
        push_hex2(out, v[k]);
        out.append(" ");
        k += 1;
        assert(out@ =~= old(out)@ + register_list(v@, k as int));
    }
}

/// Appends a labelled sixteen-bit register to `out`.
pub(crate) fn push_labelled(out: &mut String, label: &str, n: u16)
    ensures
        final(out)@ == old(out)@ + label@ + hex_wide(n as int),
{
    out.append(label);
    push_hex_wide(out, n);
}

} // verus!
