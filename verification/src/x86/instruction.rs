//! The decoded form of an instruction, and its text.

use vstd::prelude::*;
use vstd::string::*;
use crate::text::{hex_bytes, hex_padded, pad_right, push_hex, push_hex_bytes, push_padded};
use crate::x86::operand::Operand;

verus! {

/// One decoded instruction: a mnemonic with the operands it needs.
///
/// `byte` on `Mov`, `Cmp` and `Test` marks the byte-wide form. `Rep` holds
/// the string instruction that it repeats.
#[allow(inconsistent_fields)]
#[derive(Debug, PartialEq, Eq)]
pub enum IR {
    Mov { dest: Operand, src: Operand, byte: bool },
    Push { src: Operand },
    Pop { dest: Operand },
    Xchg { dest: Operand, src: Operand },
    In { dest: Operand, src: Operand },
    Out { dest: Operand, src: Operand },
    Xlat,
    Lea { dest: Operand, src: Operand },
    Lds { dest: Operand, src: Operand },
    Les { dest: Operand, src: Operand },
    Lahf,
    Sahf,
    Pushf,
    Popf,
    Add { dest: Operand, src: Operand },
    Adc { dest: Operand, src: Operand },
    Inc { dest: Operand },
    Aaa,
    Baa,
    Sub { dest: Operand, src: Operand },
    Ssb { dest: Operand, src: Operand },
    Dec { dest: Operand },
    Neg { dest: Operand },
    Cmp { dest: Operand, src: Operand, byte: bool },
    Aas,
    Das,
    Mul { dest: Operand },
    Imul { dest: Operand },
    Aam,
    Div { dest: Operand },
    Idiv { dest: Operand },
    Aad,
    Cbw,
    Cwd,
    Not { dest: Operand },
    Shl { dest: Operand, src: Operand },
    Shr { dest: Operand, src: Operand },
    Sar { dest: Operand, src: Operand },
    Rol { dest: Operand, src: Operand },
    Ror { dest: Operand, src: Operand },
    Rcl { dest: Operand, src: Operand },
    Rcr { dest: Operand, src: Operand },
    And { dest: Operand, src: Operand },
    Test { dest: Operand, src: Operand, byte: bool },
    Or { dest: Operand, src: Operand },
    Xor { dest: Operand, src: Operand },
    Rep { z: bool, string_ir: Box<IR> },
    Movs { word: bool },
    Cmps { word: bool },
    Scas { word: bool },
    Lods { word: bool },
    Stos { word: bool },
    Call { dest: Operand },
    Jmp { dest: Operand, short: bool },
    Ret { src: Option<Operand> },
    Je { dest: Operand },
    Jl { dest: Operand },
    Jle { dest: Operand },
    Jb { dest: Operand },
    Jbe { dest: Operand },
    Jp { dest: Operand },
    Jo { dest: Operand },
    Js { dest: Operand },
    Jne { dest: Operand },
    Jnl { dest: Operand },
    Jnle { dest: Operand },
    Jnb { dest: Operand },
    Jnbe { dest: Operand },
    Jnp { dest: Operand },
    Jno { dest: Operand },
    Jns { dest: Operand },
    Loop { dest: Operand },
    Loopz { dest: Operand },
    Loopnz { dest: Operand },
    Jcxz { dest: Operand },
    Int { int_type: u8 },
    Into,
    Iret,
    Clc,
    Cmc,
    Stc,
    Cld,
    Std,
    Cli,
    Sti,
    Hlt,
    Wait,
    Esc { dest: Operand },
    Lock,
    Undefined,
}

/// A mnemonic with two operands: `name dest, src`.
pub open spec fn binary_text(name: Seq<char>, dest: Operand, src: Operand) -> Seq<char> {
    name + " "@ + dest.text() + ", "@ + src.text()
}

/// A mnemonic with two operands and a width: `name dest, src`, with
/// `byte ` before the first operand when the instruction is byte-wide and
/// the operand does not show it by being a byte register.
pub open spec fn sized_text(name: Seq<char>, dest: Operand, src: Operand, byte: bool) -> Seq<char> {
    if byte && dest.takes_width() {
        name + " "@ + "byte "@ + dest.text() + ", "@ + src.text()
    } else {
        binary_text(name, dest, src)
    }
}

/// A mnemonic with one operand: `name operand`.
pub open spec fn unary_text(name: Seq<char>, operand: Operand) -> Seq<char> {
    name + " "@ + operand.text()
}

/// A string instruction: the mnemonic with `w` or `b` for its width.
pub open spec fn string_text(name: Seq<char>, word: bool) -> Seq<char> {
    if word {
        name + "w"@
    } else {
        name + "b"@
    }
}

/// Appends a mnemonic and two operands.
fn push_binary(out: &mut String, name: &str, dest: &Operand, src: &Operand)
    ensures
        final(out)@ == old(out)@ + binary_text(name@, *dest, *src),
{
    out.append(name);
    out.append(" ");
    dest.push_text(out);
    out.append(", ");
    src.push_text(out);
    assert(out@ =~= old(out)@ + binary_text(name@, *dest, *src));
}

/// Appends a mnemonic and two operands, with the width where it shows.
fn push_sized(out: &mut String, name: &str, dest: &Operand, src: &Operand, byte: bool)
    ensures
        final(out)@ == old(out)@ + sized_text(name@, *dest, *src, byte),
{
    let wide = match dest {
        Operand::Register(r) => r.is_word_register(),
        _ => true,
    };
    if byte && wide {
        out.append(name);
        out.append(" ");
        out.append("byte ");
        dest.push_text(out);
        out.append(", ");
        src.push_text(out);
        assert(out@ =~= old(out)@ + sized_text(name@, *dest, *src, byte));
    } else {
        push_binary(out, name, dest, src);
    }
}

/// Appends a mnemonic and one operand.
fn push_unary(out: &mut String, name: &str, operand: &Operand)
    ensures
        final(out)@ == old(out)@ + unary_text(name@, *operand),
{
    out.append(name);
    out.append(" ");
    operand.push_text(out);
    assert(out@ =~= old(out)@ + unary_text(name@, *operand));
}

/// Appends a mnemonic.
fn push_plain(out: &mut String, name: &str)
    ensures
        final(out)@ == old(out)@ + name@,
{
    out.append(name);
}

/// Appends a string instruction with the letter for its width.
fn push_string_op(out: &mut String, name: &str, word: bool)
    ensures
        final(out)@ == old(out)@ + string_text(name@, word),
{
    out.append(name);
    if word {
        out.append("w");
    } else {
        out.append("b");
    }
    assert(out@ =~= old(out)@ + string_text(name@, word));
}

impl IR {
    /// The text of the instruction: the mnemonic in lower case, then the
    /// operands, the destination first.
    ///
    /// A short jump reads `jmp short`, interrupt 3 reads `int` alone, a
    /// repeated string instruction reads `rep` before it.
    pub open spec fn text(self) -> Seq<char>
        decreases self,
    {
        match self {
            IR::Mov { dest, src, byte } => sized_text("mov"@, dest, src, byte),
            IR::Cmp { dest, src, byte } => sized_text("cmp"@, dest, src, byte),
            IR::Test { dest, src, byte } => sized_text("test"@, dest, src, byte),
            IR::Push { src } => unary_text("push"@, src),
            IR::Xchg { dest, src } => binary_text("xchg"@, dest, src),
            IR::In { dest, src } => binary_text("in"@, dest, src),
            IR::Out { dest, src } => binary_text("out"@, dest, src),
            IR::Lea { dest, src } => binary_text("lea"@, dest, src),
            IR::Lds { dest, src } => binary_text("lds"@, dest, src),
            IR::Les { dest, src } => binary_text("les"@, dest, src),
            IR::Add { dest, src } => binary_text("add"@, dest, src),
            IR::Adc { dest, src } => binary_text("adc"@, dest, src),
            IR::Sub { dest, src } => binary_text("sub"@, dest, src),
            IR::Ssb { dest, src } => binary_text("sbb"@, dest, src),
            IR::Shl { dest, src } => binary_text("shl"@, dest, src),
            IR::Shr { dest, src } => binary_text("shr"@, dest, src),
            IR::Sar { dest, src } => binary_text("sar"@, dest, src),
            IR::Rol { dest, src } => binary_text("rol"@, dest, src),
            IR::Ror { dest, src } => binary_text("ror"@, dest, src),
            IR::Rcl { dest, src } => binary_text("rcl"@, dest, src),
            IR::Rcr { dest, src } => binary_text("rcr"@, dest, src),
            IR::And { dest, src } => binary_text("and"@, dest, src),
            IR::Or { dest, src } => binary_text("or"@, dest, src),
            IR::Xor { dest, src } => binary_text("xor"@, dest, src),
            IR::Pop { dest } => unary_text("pop"@, dest),
            IR::Inc { dest } => unary_text("inc"@, dest),
            IR::Dec { dest } => unary_text("dec"@, dest),
            IR::Neg { dest } => unary_text("neg"@, dest),
            IR::Mul { dest } => unary_text("mul"@, dest),
            IR::Imul { dest } => unary_text("imul"@, dest),
            IR::Div { dest } => unary_text("div"@, dest),
            IR::Idiv { dest } => unary_text("idiv"@, dest),
            IR::Not { dest } => unary_text("not"@, dest),
            IR::Call { dest } => unary_text("call"@, dest),
            IR::Je { dest } => unary_text("je"@, dest),
            IR::Jl { dest } => unary_text("jl"@, dest),
            IR::Jle { dest } => unary_text("jle"@, dest),
            IR::Jb { dest } => unary_text("jb"@, dest),
            IR::Jbe { dest } => unary_text("jbe"@, dest),
            IR::Jp { dest } => unary_text("jp"@, dest),
            IR::Jo { dest } => unary_text("jo"@, dest),
            IR::Js { dest } => unary_text("js"@, dest),
            IR::Jne { dest } => unary_text("jne"@, dest),
            IR::Jnl { dest } => unary_text("jnl"@, dest),
            IR::Jnle { dest } => unary_text("jnle"@, dest),
            IR::Jnb { dest } => unary_text("jnb"@, dest),
            IR::Jnbe { dest } => unary_text("jnbe"@, dest),
            IR::Jnp { dest } => unary_text("jnp"@, dest),
            IR::Jno { dest } => unary_text("jno"@, dest),
            IR::Jns { dest } => unary_text("jns"@, dest),
            IR::Loop { dest } => unary_text("loop"@, dest),
            IR::Loopz { dest } => unary_text("loopz"@, dest),
            IR::Loopnz { dest } => unary_text("loopnz"@, dest),
            IR::Jcxz { dest } => unary_text("jcxz"@, dest),
            IR::Esc { dest } => unary_text("esc"@, dest),
            IR::Xlat => "xlat"@,
            IR::Lahf => "lahf"@,
            IR::Sahf => "sahf"@,
            IR::Pushf => "pushf"@,
            IR::Popf => "popf"@,
            IR::Aaa => "aaa"@,
            IR::Baa => "baa"@,
            IR::Aas => "aas"@,
            IR::Das => "das"@,
            IR::Aam => "aam"@,
            IR::Aad => "aad"@,
            IR::Cbw => "cbw"@,
            IR::Cwd => "cwd"@,
            IR::Into => "into"@,
            IR::Iret => "iret"@,
            IR::Clc => "clc"@,
            IR::Cmc => "cmc"@,
            IR::Stc => "stc"@,
            IR::Cld => "cld"@,
            IR::Std => "std"@,
            IR::Cli => "cli"@,
            IR::Sti => "sti"@,
            IR::Hlt => "hlt"@,
            IR::Wait => "wait"@,
            IR::Lock => "lock"@,
            IR::Undefined => "(undefined)"@,
            IR::Movs { word } => string_text("movs"@, word),
            IR::Cmps { word } => string_text("cmps"@, word),
            IR::Scas { word } => string_text("scas"@, word),
            IR::Lods { word } => string_text("lods"@, word),
            IR::Stos { word } => string_text("stos"@, word),
            IR::Rep { z, string_ir } => "rep "@ + string_ir.text(),
            IR::Jmp { dest, short } => if short {
                unary_text("jmp short"@, dest)
            } else {
                unary_text("jmp"@, dest)
            },
            IR::Ret { src } => match src {
                Some(operand) => unary_text("ret"@, operand),
                None => "ret"@,
            },
            IR::Int { int_type } => if int_type == 3 {
                "int"@
            } else {
                "int "@ + hex_padded(int_type as nat, 2)
            },
        }
    }

    /// Appends the text of the instruction.
    pub fn push_text(&self, out: &mut String)
        ensures
            final(out)@ == old(out)@ + self.text(),
        decreases self,
    {
        match self {
            IR::Mov { dest, src, byte } => push_sized(out, "mov", dest, src, *byte),
            IR::Cmp { dest, src, byte } => push_sized(out, "cmp", dest, src, *byte),
            IR::Test { dest, src, byte } => push_sized(out, "test", dest, src, *byte),
            IR::Push { src } => push_unary(out, "push", src),
            IR::Xchg { dest, src } => push_binary(out, "xchg", dest, src),
            IR::In { dest, src } => push_binary(out, "in", dest, src),
            IR::Out { dest, src } => push_binary(out, "out", dest, src),
            IR::Lea { dest, src } => push_binary(out, "lea", dest, src),
            IR::Lds { dest, src } => push_binary(out, "lds", dest, src),
            IR::Les { dest, src } => push_binary(out, "les", dest, src),
            IR::Add { dest, src } => push_binary(out, "add", dest, src),
            IR::Adc { dest, src } => push_binary(out, "adc", dest, src),
            IR::Sub { dest, src } => push_binary(out, "sub", dest, src),
            IR::Ssb { dest, src } => push_binary(out, "sbb", dest, src),
            IR::Shl { dest, src } => push_binary(out, "shl", dest, src),
            IR::Shr { dest, src } => push_binary(out, "shr", dest, src),
            IR::Sar { dest, src } => push_binary(out, "sar", dest, src),
            IR::Rol { dest, src } => push_binary(out, "rol", dest, src),
            IR::Ror { dest, src } => push_binary(out, "ror", dest, src),
            IR::Rcl { dest, src } => push_binary(out, "rcl", dest, src),
            IR::Rcr { dest, src } => push_binary(out, "rcr", dest, src),
            IR::And { dest, src } => push_binary(out, "and", dest, src),
            IR::Or { dest, src } => push_binary(out, "or", dest, src),
            IR::Xor { dest, src } => push_binary(out, "xor", dest, src),
            IR::Pop { dest } => push_unary(out, "pop", dest),
            IR::Inc { dest } => push_unary(out, "inc", dest),
            IR::Dec { dest } => push_unary(out, "dec", dest),
            IR::Neg { dest } => push_unary(out, "neg", dest),
            IR::Mul { dest } => push_unary(out, "mul", dest),
            IR::Imul { dest } => push_unary(out, "imul", dest),
            IR::Div { dest } => push_unary(out, "div", dest),
            IR::Idiv { dest } => push_unary(out, "idiv", dest),
            IR::Not { dest } => push_unary(out, "not", dest),
            IR::Call { dest } => push_unary(out, "call", dest),
            IR::Je { dest } => push_unary(out, "je", dest),
            IR::Jl { dest } => push_unary(out, "jl", dest),
            IR::Jle { dest } => push_unary(out, "jle", dest),
            IR::Jb { dest } => push_unary(out, "jb", dest),
            IR::Jbe { dest } => push_unary(out, "jbe", dest),
            IR::Jp { dest } => push_unary(out, "jp", dest),
            IR::Jo { dest } => push_unary(out, "jo", dest),
            IR::Js { dest } => push_unary(out, "js", dest),
            IR::Jne { dest } => push_unary(out, "jne", dest),
            IR::Jnl { dest } => push_unary(out, "jnl", dest),
            IR::Jnle { dest } => push_unary(out, "jnle", dest),
            IR::Jnb { dest } => push_unary(out, "jnb", dest),
            IR::Jnbe { dest } => push_unary(out, "jnbe", dest),
            IR::Jnp { dest } => push_unary(out, "jnp", dest),
            IR::Jno { dest } => push_unary(out, "jno", dest),
            IR::Jns { dest } => push_unary(out, "jns", dest),
            IR::Loop { dest } => push_unary(out, "loop", dest),
            IR::Loopz { dest } => push_unary(out, "loopz", dest),
            IR::Loopnz { dest } => push_unary(out, "loopnz", dest),
            IR::Jcxz { dest } => push_unary(out, "jcxz", dest),
            IR::Esc { dest } => push_unary(out, "esc", dest),
            IR::Xlat => push_plain(out, "xlat"),
            IR::Lahf => push_plain(out, "lahf"),
            IR::Sahf => push_plain(out, "sahf"),
            IR::Pushf => push_plain(out, "pushf"),
            IR::Popf => push_plain(out, "popf"),
            IR::Aaa => push_plain(out, "aaa"),
            IR::Baa => push_plain(out, "baa"),
            IR::Aas => push_plain(out, "aas"),
            IR::Das => push_plain(out, "das"),
            IR::Aam => push_plain(out, "aam"),
            IR::Aad => push_plain(out, "aad"),
            IR::Cbw => push_plain(out, "cbw"),
            IR::Cwd => push_plain(out, "cwd"),
            IR::Into => push_plain(out, "into"),
            IR::Iret => push_plain(out, "iret"),
            IR::Clc => push_plain(out, "clc"),
            IR::Cmc => push_plain(out, "cmc"),
            IR::Stc => push_plain(out, "stc"),
            IR::Cld => push_plain(out, "cld"),
            IR::Std => push_plain(out, "std"),
            IR::Cli => push_plain(out, "cli"),
            IR::Sti => push_plain(out, "sti"),
            IR::Hlt => push_plain(out, "hlt"),
            IR::Wait => push_plain(out, "wait"),
            IR::Lock => push_plain(out, "lock"),
            IR::Undefined => push_plain(out, "(undefined)"),
            IR::Movs { word } => push_string_op(out, "movs", *word),
            IR::Cmps { word } => push_string_op(out, "cmps", *word),
            IR::Scas { word } => push_string_op(out, "scas", *word),
            IR::Lods { word } => push_string_op(out, "lods", *word),
            IR::Stos { word } => push_string_op(out, "stos", *word),
            IR::Rep { z, string_ir } => {
                out.append("rep ");
                string_ir.push_text(out);
                assert(out@ =~= old(out)@ + self.text());
            },
            IR::Jmp { dest, short } => {
                if *short {
                    push_unary(out, "jmp short", dest);
                } else {
                    push_unary(out, "jmp", dest);
                }
            },
            IR::Ret { src } => {
                match src {
                    Some(operand) => push_unary(out, "ret", operand),
                    None => push_plain(out, "ret"),
                }
            },
            IR::Int { int_type } => {
                if *int_type == 3 {
                    out.append("int");
                } else {
                    out.append("int ");
                    push_hex(out, *int_type as u64, 2);
                    assert(out@ =~= old(out)@ + self.text());
                }
            },
        }
    }

    /// The text of the instruction.
    pub fn to_string(&self) -> (s: String)
        ensures
            s@ == self.text(),
    {
        let mut s = String::new();
        self.push_text(&mut s);
        assert(s@ =~= self.text());
        s
    }
}

/// An instruction together with the bytes it was decoded from.
#[derive(Debug, PartialEq, Eq)]
pub struct Instruction {
    pub ir: IR,
    pub raw: Vec<u8>,
}

impl View for Instruction {
    type V = (IR, Seq<u8>);

    /// The record as plain values: the instruction and its bytes.
    open spec fn view(&self) -> (IR, Seq<u8>) {
        (self.ir, self.raw@)
    }
}

impl Instruction {
    /// The text of the record: the bytes in hexadecimal, filled with
    /// spaces to fourteen characters, then the text of the instruction.
    pub open spec fn text(self) -> Seq<char> {
        pad_right(hex_bytes(self.raw@), 14) + self.ir.text()
    }

    /// A record of an instruction and its bytes.
    pub fn new(ir: IR, raw: Vec<u8>) -> (ins: Instruction)
        ensures
            ins.ir == ir,
            ins.raw == raw,
    {
        Instruction { ir, raw }
    }

    /// Appends the text of the record.
    pub fn push_text(&self, out: &mut String)
        ensures
            final(out)@ == old(out)@ + self.text(),
    {
        let mut column = String::new();
        push_hex_bytes(&mut column, self.raw.as_slice());
        assert(column@ =~= hex_bytes(self.raw@));
        push_padded(out, column.as_str(), 14);
        self.ir.push_text(out);
        assert(out@ =~= old(out)@ + self.text());
    }

    /// The text of the record.
    pub fn to_string(&self) -> (s: String)
        ensures
            s@ == self.text(),
    {
        let mut s = String::new();
        self.push_text(&mut s);
        assert(s@ =~= self.text());
        s
    }
}

} // verus!
