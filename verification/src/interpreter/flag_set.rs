//! The flags of the processor.

use vstd::prelude::*;
use vstd::string::*;
use crate::word::{i16_to_word, u16_of};

verus! {

/// The name of a flag.
#[derive(Debug, Copy, Clone, PartialEq, Eq, Hash, Structural)]
pub enum Flag {
    Zero,
    Sign,
    Parity,
    Carry,
    Overflow,
    Direction,
    Interrupt,
    Trap,
    Aux,
}

/// Whether the binary numeral of `v` holds an even number of ones.
pub open spec fn even_ones(v: nat) -> bool
    decreases v,
{
    if v == 0 {
        true
    } else if v % 2 == 1 {
        !even_ones(v / 2)
    } else {
        even_ones(v / 2)
    }
}

impl Flag {
    /// What a result says of the flag: zero for `Zero`, below zero for
    /// `Sign`, an even number of ones among all sixteen bits for `Parity`.
    pub open spec fn spec_result(self, value: i16) -> bool {
        match self {
            Flag::Zero => value == 0,
            Flag::Sign => value < 0,
            _ => even_ones(u16_of(value as int) as nat),
        }
    }

    /// Whether the flag follows from a result alone.
    pub open spec fn of_result(self) -> bool {
        self == Flag::Zero || self == Flag::Sign || self == Flag::Parity
    }

    /// The name of the flag.
    pub open spec fn label(self) -> Seq<char> {
        match self {
            Flag::Zero => "Zero"@,
            Flag::Sign => "Sign"@,
            Flag::Parity => "Parity"@,
            Flag::Carry => "Carry"@,
            Flag::Overflow => "Overflow"@,
            Flag::Direction => "Direction"@,
            Flag::Interrupt => "Interrupt"@,
            Flag::Trap => "Trap"@,
            Flag::Aux => "Aux"@,
        }
    }

    /// The name of the flag.
    pub fn label_str(&self) -> (s: &'static str)
        ensures
            s@ == self.label(),
    {
        match self {
            Flag::Zero => "Zero",
            Flag::Sign => "Sign",
            Flag::Parity => "Parity",
            Flag::Carry => "Carry",
            Flag::Overflow => "Overflow",
            Flag::Direction => "Direction",
            Flag::Interrupt => "Interrupt",
            Flag::Trap => "Trap",
            Flag::Aux => "Aux",
        }
    }

    /// All flags.
    pub fn iter() -> (all: Vec<Flag>)
        ensures
            all@ == seq![
                Flag::Zero,
                Flag::Sign,
                Flag::Parity,
                Flag::Carry,
                Flag::Overflow,
                Flag::Direction,
                Flag::Interrupt,
                Flag::Trap,
                Flag::Aux,
            ],
    {
        let mut all: Vec<Flag> = Vec::new();
        all.push(Flag::Zero);
        all.push(Flag::Sign);
        all.push(Flag::Parity);
        all.push(Flag::Carry);
        all.push(Flag::Overflow);
        all.push(Flag::Direction);
        all.push(Flag::Interrupt);
        all.push(Flag::Trap);
        all.push(Flag::Aux);
        assert(all@ =~= seq![
            Flag::Zero,
            Flag::Sign,
            Flag::Parity,
            Flag::Carry,
            Flag::Overflow,
            Flag::Direction,
            Flag::Interrupt,
            Flag::Trap,
            Flag::Aux,
        ]);
        all
    }

    /// What the result `value` says of this flag, which is `Zero`, `Sign`
    /// or `Parity`.
    pub fn result(&self, value: i16) -> (b: bool)
        requires
            self.of_result(),
        ensures
            b == self.spec_result(value),
    {
        match self {
            Flag::Zero => value == 0,
            Flag::Sign => value < 0,
            _ => {
                let bits = i16_to_word(value);
                let mut rest: u16 = bits;
                let mut even = true;
                while rest != 0
                    invariant
                        even_ones(bits as nat) == (even == even_ones(rest as nat)),
                    decreases rest,
                {
                    if rest % 2 == 1 {
                        even = !even;
                    }
                    rest = rest / 2;
                }
                even
            },
        }
    }
}

/// The value of every flag.
#[derive(Debug, Copy, Clone, PartialEq, Eq)]
pub struct FlagSet {
    pub zero: bool,
    pub sign: bool,
    pub parity: bool,
    pub carry: bool,
    pub overflow: bool,
    pub direction: bool,
    pub interrupt: bool,
    pub trap: bool,
    pub aux: bool,
}

impl FlagSet {
    /// The value of a flag.
    pub open spec fn spec_get(self, flag: Flag) -> bool {
        match flag {
            Flag::Zero => self.zero,
            Flag::Sign => self.sign,
            Flag::Parity => self.parity,
            Flag::Carry => self.carry,
            Flag::Overflow => self.overflow,
            Flag::Direction => self.direction,
            Flag::Interrupt => self.interrupt,
            Flag::Trap => self.trap,
            Flag::Aux => self.aux,
        }
    }

    /// The flags with one of them changed.
    pub open spec fn spec_set(self, flag: Flag, value: bool) -> FlagSet {
        match flag {
            Flag::Zero => FlagSet { zero: value, ..self },
            Flag::Sign => FlagSet { sign: value, ..self },
            Flag::Parity => FlagSet { parity: value, ..self },
            Flag::Carry => FlagSet { carry: value, ..self },
            Flag::Overflow => FlagSet { overflow: value, ..self },
            Flag::Direction => FlagSet { direction: value, ..self },
            Flag::Interrupt => FlagSet { interrupt: value, ..self },
            Flag::Trap => FlagSet { trap: value, ..self },
            Flag::Aux => FlagSet { aux: value, ..self },
        }
    }

    /// The flags with `Zero`, `Sign` and `Parity` as the result `value`
    /// has them.
    pub open spec fn spec_szp(self, value: i16) -> FlagSet {
        FlagSet {
            zero: value == 0,
            sign: value < 0,
            parity: even_ones(u16_of(value as int) as nat),
            ..self
        }
    }

    /// All flags clear.
    pub open spec fn cleared() -> FlagSet {
        FlagSet {
            zero: false,
            sign: false,
            parity: false,
            carry: false,
            overflow: false,
            direction: false,
            interrupt: false,
            trap: false,
            aux: false,
        }
    }

    /// One line of a dump of the flags: the name of the flag, a colon and
    /// a space, `true` or `false`, and a line feed.
    pub open spec fn line(self, flag: Flag) -> Seq<char> {
        flag.label() + ": "@ + (if self.spec_get(flag) { "true"@ } else { "false"@ }) + "\n"@
    }

    /// A dump of the flags: one line for each.
    pub open spec fn text(self) -> Seq<char> {
        self.line(Flag::Zero)
            + self.line(Flag::Sign)
            + self.line(Flag::Parity)
            + self.line(Flag::Carry)
            + self.line(Flag::Overflow)
            + self.line(Flag::Direction)
            + self.line(Flag::Interrupt)
            + self.line(Flag::Trap)
            + self.line(Flag::Aux)
    }

    /// Appends one line of a dump of the flags.
    fn push_line(&self, out: &mut String, flag: Flag)
        ensures
            final(out)@ == old(out)@ + self.line(flag),
    {
        out.append(flag.label_str());
        out.append(": ");
        if self.get(flag) {
            out.append("true");
        } else {
            out.append("false");
        }
        out.append("\n");
        assert(out@ =~= old(out)@ + self.line(flag));
    }

    /// Appends a dump of the flags.
    pub fn push_text(&self, out: &mut String)
        ensures
            final(out)@ == old(out)@ + self.text(),
    {
        self.push_line(out, Flag::Zero);
        self.push_line(out, Flag::Sign);
        self.push_line(out, Flag::Parity);
        self.push_line(out, Flag::Carry);
        self.push_line(out, Flag::Overflow);
        self.push_line(out, Flag::Direction);
        self.push_line(out, Flag::Interrupt);
        self.push_line(out, Flag::Trap);
        self.push_line(out, Flag::Aux);
        assert(out@ =~= old(out)@ + self.text());
    }

    /// A dump of the flags.
    pub fn to_string(&self) -> (s: String)
        ensures
            s@ == self.text(),
    {
        let mut s = String::new();
        self.push_text(&mut s);
        assert(s@ =~= self.text());
        s
    }

    /// All flags clear.
    pub fn new() -> (flags: FlagSet)
        ensures
            flags == FlagSet::cleared(),
    {
        FlagSet {
            zero: false,
            sign: false,
            parity: false,
            carry: false,
            overflow: false,
            direction: false,
            interrupt: false,
            trap: false,
            aux: false,
        }
    }

    /// The value of a flag.
    pub fn get(&self, flag: Flag) -> (value: bool)
        ensures
            value == self.spec_get(flag),
    {
        match flag {
            Flag::Zero => self.zero,
            Flag::Sign => self.sign,
            Flag::Parity => self.parity,
            Flag::Carry => self.carry,
            Flag::Overflow => self.overflow,
            Flag::Direction => self.direction,
            Flag::Interrupt => self.interrupt,
            Flag::Trap => self.trap,
            Flag::Aux => self.aux,
        }
    }

    /// Gives a flag a value and leaves the others.
    pub fn set(&mut self, flag: Flag, value: bool)
        ensures
            *final(self) == old(self).spec_set(flag, value),
    {
        match flag {
            Flag::Zero => self.zero = value,
            Flag::Sign => self.sign = value,
            Flag::Parity => self.parity = value,
            Flag::Carry => self.carry = value,
            Flag::Overflow => self.overflow = value,
            Flag::Direction => self.direction = value,
            Flag::Interrupt => self.interrupt = value,
            Flag::Trap => self.trap = value,
            Flag::Aux => self.aux = value,
        }
    }

    /// Sets `Zero`, `Sign` and `Parity` from a result and leaves the
    /// others.
    pub fn set_szp(&mut self, value: i16)
        ensures
            *final(self) == old(self).spec_szp(value),
    {
        self.zero = Flag::Zero.result(value);
        self.sign = Flag::Sign.result(value);
        self.parity = Flag::Parity.result(value);
    }

    /// Clears a flag and leaves the others.
    pub fn clear(&mut self, flag: Flag)
        ensures
            *final(self) == old(self).spec_set(flag, false),
    {
        self.set(flag, false);
    }
}

} // verus!
