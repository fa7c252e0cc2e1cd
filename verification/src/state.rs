//! Processor state of the 6502: the status register, the register file and
//! the log of bus cycles that the processor has performed.
use vstd::prelude::*;

verus! {

/// Mask of the negative (N) flag in the status register.
pub const FLAG_NEGATIVE: u8 = 0b1000_0000;
/// Mask of the overflow (V) flag.
pub const FLAG_OVERFLOW: u8 = 0b0100_0000;
/// Mask of the expansion bit (unused on the 6502, always wired high).
pub const FLAG_EXPANSION: u8 = 0b0010_0000;
/// Mask of the break (B) flag.
pub const FLAG_BREAK: u8 = 0b0001_0000;
/// Mask of the decimal (D) flag.
pub const FLAG_DECIMAL: u8 = 0b0000_1000;
/// Mask of the interrupt-disable (I) flag.
pub const FLAG_INTERRUPT_DISABLE: u8 = 0b0000_0100;
/// Mask of the zero (Z) flag.
pub const FLAG_ZERO: u8 = 0b0000_0010;
/// Mask of the carry (C) flag.
pub const FLAG_CARRY: u8 = 0b0000_0001;

/// `p` with the bits of `mask` set when `on` holds and cleared otherwise.
pub open spec fn flag_set(p: u8, mask: u8, on: bool) -> u8 {
    if on {
        p | mask
    } else {
        p & !mask
    }
}

/// Whether every bit of `mask` is set in `p`.
pub open spec fn flag_on(p: u8, mask: u8) -> bool {
    p & mask == mask
}

/// Setting or clearing the flags of a mask is what a test of that mask reads
/// back, and leaves every flag outside the mask as it was.
pub proof fn law_flag_set_then_test(p: u8, mask: u8, on: bool, other: u8)
    requires
        mask != 0,
        other & mask == 0,
    ensures
        flag_on(flag_set(p, mask, on), mask) == on,
        flag_set(p, mask, on) & other == p & other,
{
    assert(flag_on(p | mask, mask)) by (bit_vector);
    assert(!flag_on(p & !mask, mask)) by (bit_vector)
        requires
            mask != 0,
    ;
    assert((p | mask) & other == p & other && (p & !mask) & other == p & other) by (bit_vector)
        requires
            other & mask == 0,
    ;
}

/// The processor status register: a set of flags held as the bits of a byte.
/// Every bit pattern is a valid value; the named flags are the masks above.
#[derive(Debug, Clone, Copy, PartialEq, Eq, Structural, Hash)]
pub struct SystemFlags {
    pub bits: u8,
}

impl View for SystemFlags {
    type V = u8;

    open spec fn view(&self) -> u8 {
        self.bits
    }
}

impl SystemFlags {
    /// The status register with no flag set.
    pub fn empty() -> (f: SystemFlags)
        ensures
            f@ == 0,
    {
        SystemFlags { bits: 0 }
    }

    /// The negative flag alone.
    pub fn negative() -> (f: SystemFlags)
        ensures
            f@ == FLAG_NEGATIVE,
    {
        SystemFlags { bits: FLAG_NEGATIVE }
    }

    /// The overflow flag alone.
    pub fn overflow() -> (f: SystemFlags)
        ensures
            f@ == FLAG_OVERFLOW,
    {
        SystemFlags { bits: FLAG_OVERFLOW }
    }

    /// The expansion bit alone.
    pub fn expansion() -> (f: SystemFlags)
        ensures
            f@ == FLAG_EXPANSION,
    {
        SystemFlags { bits: FLAG_EXPANSION }
    }

    /// The break flag alone.
    pub fn break_command() -> (f: SystemFlags)
        ensures
            f@ == FLAG_BREAK,
    {
        SystemFlags { bits: FLAG_BREAK }
    }

    /// The decimal flag alone.
    pub fn decimal() -> (f: SystemFlags)
        ensures
            f@ == FLAG_DECIMAL,
    {
        SystemFlags { bits: FLAG_DECIMAL }
    }

    /// The interrupt-disable flag alone.
    pub fn interrupt_disable() -> (f: SystemFlags)
        ensures
            f@ == FLAG_INTERRUPT_DISABLE,
    {
        SystemFlags { bits: FLAG_INTERRUPT_DISABLE }
    }

    /// The zero flag alone.
    pub fn zero() -> (f: SystemFlags)
        ensures
            f@ == FLAG_ZERO,
    {
        SystemFlags { bits: FLAG_ZERO }
    }

    /// The carry flag alone.
    pub fn carry() -> (f: SystemFlags)
        ensures
            f@ == FLAG_CARRY,
    {
        SystemFlags { bits: FLAG_CARRY }
    }

    /// The raw byte of the status register.
    pub fn bits(&self) -> (b: u8)
        ensures
            b == self@,
    {
        self.bits
    }

    /// The status register holding exactly `bits`, unknown bits included.
    pub fn from_bits_retain(bits: u8) -> (f: SystemFlags)
        ensures
            f@ == bits,
    {
        SystemFlags { bits }
    }

    /// The raw byte of the status register.
    pub fn as_u8(&self) -> (b: u8)
        ensures
            b == self@,
    {
        self.bits
    }

    /// Whether every flag of `other` is set.
    pub fn contains(&self, other: SystemFlags) -> (b: bool)
        ensures
            b == flag_on(self@, other@),
    {
        (self.bits & other.bits) == other.bits
    }

    /// Sets every flag of `other`.
    pub fn insert(&mut self, other: SystemFlags)
        ensures
            final(self)@ == old(self)@ | other@,
    {
        self.bits = self.bits | other.bits;
    }

    /// Clears every flag of `other`.
    pub fn remove(&mut self, other: SystemFlags)
        ensures
            final(self)@ == old(self)@ & !other@,
    {
        self.bits = self.bits & !other.bits;
    }

    /// Sets the flags of `other` when `value` holds, clears them otherwise.
    pub fn set(&mut self, other: SystemFlags, value: bool)
        ensures
            final(self)@ == flag_set(old(self)@, other@, value),
    {
        if value {
            self.insert(other);
        } else {
            self.remove(other);
        }
    }
}

/// `text` followed by `name` when `on` holds, with " | " between them when
/// `text` already names a flag.
pub open spec fn with_flag_name(text: Seq<char>, on: bool, name: Seq<char>) -> Seq<char> {
    if !on {
        text
    } else if text.len() == 0 {
        name
    } else {
        text + seq![' ', '|', ' '] + name
    }
}

/// The names of the flags set in `bits`, in the order the flags are
/// declared (negative first, carry last), joined by " | "; no flag set
/// gives the empty text.
pub open spec fn flags_text(bits: u8) -> Seq<char> {
    with_flag_name(with_flag_name(with_flag_name(with_flag_name(with_flag_name(with_flag_name(with_flag_name(with_flag_name(Seq::<char>::empty(), flag_on(bits, FLAG_NEGATIVE), seq!['n', 'e', 'g', 'a', 't', 'i', 'v', 'e']), flag_on(bits, FLAG_OVERFLOW), seq!['o', 'v', 'e', 'r', 'f', 'l', 'o', 'w']), flag_on(bits, FLAG_EXPANSION), seq!['e', 'x', 'p', 'a', 'n', 's', 'i', 'o', 'n']), flag_on(bits, FLAG_BREAK), seq!['b', 'r', 'e', 'a', 'k', '_', 'c', 'o', 'm', 'm', 'a', 'n', 'd']), flag_on(bits, FLAG_DECIMAL), seq!['d', 'e', 'c', 'i', 'm', 'a', 'l']), flag_on(bits, FLAG_INTERRUPT_DISABLE), seq!['i', 'n', 't', 'e', 'r', 'r', 'u', 'p', 't', '_', 'd', 'i', 's', 'a', 'b', 'l', 'e']), flag_on(bits, FLAG_ZERO), seq!['z', 'e', 'r', 'o']), flag_on(bits, FLAG_CARRY), seq!['c', 'a', 'r', 'r', 'y'])
}

/// Appends `name` to `text` when `on` holds, after " | " when `named` says
/// that `text` already names a flag; answers whether `text` names a flag
/// afterwards.
fn add_flag_name(text: &mut String, named: bool, on: bool, name: &[char]) -> (now_named: bool)
    requires
        named == (old(text)@.len() > 0),
        name@.len() > 0,
    ensures
        final(text)@ == with_flag_name(old(text)@, on, name@),
        now_named == (final(text)@.len() > 0),
{
    if on {
        if named {
            push_chars(text, &[' ', '|', ' ']);
        }
        push_chars(text, name);
        true
    } else {
        named
    }
}

impl SystemFlags {
    /// The names of the set flags, in declaration order, joined by " | ",
    /// such as `zero | carry`.
    pub fn text(&self) -> (t: String)
        ensures
            t@ == flags_text(self@),
    {
        let bits = self.bits;
        let mut t = String::new();
        let mut named = false;
        named = add_flag_name(&mut t, named, (bits & FLAG_NEGATIVE) == FLAG_NEGATIVE, &['n', 'e', 'g', 'a', 't', 'i', 'v', 'e']);
        named = add_flag_name(&mut t, named, (bits & FLAG_OVERFLOW) == FLAG_OVERFLOW, &['o', 'v', 'e', 'r', 'f', 'l', 'o', 'w']);
        named = add_flag_name(&mut t, named, (bits & FLAG_EXPANSION) == FLAG_EXPANSION, &['e', 'x', 'p', 'a', 'n', 's', 'i', 'o', 'n']);
        named = add_flag_name(&mut t, named, (bits & FLAG_BREAK) == FLAG_BREAK, &['b', 'r', 'e', 'a', 'k', '_', 'c', 'o', 'm', 'm', 'a', 'n', 'd']);
        named = add_flag_name(&mut t, named, (bits & FLAG_DECIMAL) == FLAG_DECIMAL, &['d', 'e', 'c', 'i', 'm', 'a', 'l']);
        named = add_flag_name(&mut t, named, (bits & FLAG_INTERRUPT_DISABLE) == FLAG_INTERRUPT_DISABLE, &['i', 'n', 't', 'e', 'r', 'r', 'u', 'p', 't', '_', 'd', 'i', 's', 'a', 'b', 'l', 'e']);
        named = add_flag_name(&mut t, named, (bits & FLAG_ZERO) == FLAG_ZERO, &['z', 'e', 'r', 'o']);
        add_flag_name(&mut t, named, (bits & FLAG_CARRY) == FLAG_CARRY, &['c', 'a', 'r', 'r', 'y']);
        t
    }
}

impl From<u8> for SystemFlags {
    fn from(value: u8) -> (f: SystemFlags) {
        SystemFlags { bits: value }
    }
}

impl vstd::std_specs::convert::FromSpecImpl<u8> for SystemFlags {
    open spec fn obeys_from_spec() -> bool {
        true
    }

    open spec fn from_spec(v: u8) -> SystemFlags {
        SystemFlags { bits: v }
    }
}

/// The kind of a bus cycle: the processor either reads or writes a byte.
#[derive(Debug, PartialEq, Eq, Structural, Clone, Copy)]
pub enum SystemAction {
    READ,
    WRITE,
}

impl SystemAction {
    /// The lower-case name of the action, as the cycle logs print it.
    pub fn name(&self) -> (s: &'static str)
        ensures
            self is READ ==> s@ == "read"@,
            self is WRITE ==> s@ == "write"@,
    {
        match self {
            SystemAction::READ => "read",
            SystemAction::WRITE => "write",
        }
    }
}

/// One bus cycle: the address, the byte that travelled and its direction.
#[derive(Debug, PartialEq, Eq, Structural, Clone, Copy)]
pub struct SystemCycle {
    pub address: u16,
    pub value: u8,
    pub action: SystemAction,
}

/// The characters of the decimal numeral of `n`, most significant first.
pub open spec fn decimal(n: nat) -> Seq<char>
    decreases n,
{
    if n < 10 {
        seq![digit(n)]
    } else {
        decimal(n / 10).push(digit(n % 10))
    }
}

/// The decimal digit character of `d`, for `d` below ten.
pub open spec fn digit(d: nat) -> char {
    (48 + d) as char
}

/// The text of a bus cycle: the direction, "from", the address and "with
/// value" and the byte, both in decimal, and a closing space.
pub open spec fn cycle_text(c: SystemCycle) -> Seq<char> {
    let action = if c.action is READ {
        seq!['r', 'e', 'a', 'd']
    } else {
        seq!['w', 'r', 'i', 't', 'e']
    };
    action + seq![' ', 'f', 'r', 'o', 'm', ' '] + decimal(c.address as nat) + seq![
        ' ',
        'w',
        'i',
        't',
        'h',
        ' ',
        'v',
        'a',
        'l',
        'u',
        'e',
        ' ',
    ] + decimal(c.value as nat) + seq![' ']
}

/// `String::push`: appends `c` to the end of `s`.
#[verifier::external_body]
fn push_char(s: &mut String, c: char)
    ensures
        final(s)@ == old(s)@.push(c),
{
    s.push(c);
}

/// Appends the characters of `text` to `s`.
fn push_chars(s: &mut String, text: &[char])
    ensures
        final(s)@ == old(s)@ + text@,
{
    let mut i: usize = 0;
    while i < text.len()
        invariant
            i <= text@.len(),
            s@ == old(s)@ + text@.subrange(0, i as int),
        decreases text@.len() - i,
    {
        push_char(s, text[i]);
        assert(text@.subrange(0, i + 1) =~= text@.subrange(0, i as int).push(text@[i as int]));
        i = i + 1;
    }
    assert(text@.subrange(0, i as int) =~= text@);
}

/// Appends the decimal numeral of `n` to `s`.
fn push_decimal(s: &mut String, n: u16)
    ensures
        final(s)@ == old(s)@ + decimal(n as nat),
    decreases n,
{
    if n >= 10 {
        push_decimal(s, n / 10);
    }
    let d = (n % 10) as u8;
    let c = (48 + d) as char;
    assert(c == digit((n % 10) as nat));
    push_char(s, c);
    proof {
        if n >= 10 {
            assert(old(s)@ + decimal((n / 10) as nat) + seq![c] =~= old(s)@ + decimal(n as nat));
        } else {
            assert(old(s)@.push(c) =~= old(s)@ + decimal(n as nat));
        }
    }
}

impl SystemCycle {
    /// The cycle as text, such as `read from 512 with value 169 `.
    pub fn text(&self) -> (t: String)
        ensures
            t@ == cycle_text(*self),
    {
        let mut t = String::new();
        match self.action {
            SystemAction::READ => push_chars(&mut t, &['r', 'e', 'a', 'd']),
            SystemAction::WRITE => push_chars(&mut t, &['w', 'r', 'i', 't', 'e']),
        }
        push_chars(&mut t, &[' ', 'f', 'r', 'o', 'm', ' ']);
        push_decimal(&mut t, self.address);
        push_chars(&mut t, &[' ', 'w', 'i', 't', 'h', ' ', 'v', 'a', 'l', 'u', 'e', ' ']);
        push_decimal(&mut t, self.value as u16);
        push_chars(&mut t, &[' ']);
        proof {
            assert(t@ =~= cycle_text(*self));
        }
        t
    }
}

/// The registers of the processor, its run flag and the bus cycles it has
/// performed so far.
#[derive(Debug, Clone, PartialEq, Eq)]
pub struct SystemState {
    pub running: bool,
    pub pc: u16,
    pub a: u8,
    pub x: u8,
    pub y: u8,
    /// Stack pointer. The processor's 256-byte stack lies between $0100
    /// and $01FF.
    pub s: u8,
    pub p: SystemFlags,
    pub cycles: Vec<SystemCycle>,
}

impl Default for SystemState {
    fn default() -> (st: SystemState)
        ensures
            !st.running,
            st.pc == 0,
            st.a == 0,
            st.x == 0,
            st.y == 0,
            st.s == 0,
            st.p@ == 0,
            st.cycles@.len() == 0,
    {
        SystemState {
            running: false,
            pc: 0,
            a: 0,
            x: 0,
            y: 0,
            s: 0,
            p: SystemFlags::empty(),
            cycles: Vec::new(),
        }
    }
}

/// The ways in which executing an instruction can fail.
#[derive(Debug, PartialEq, Eq, Structural, Clone, Copy)]
pub enum EmulatorError {
    MemoryReadError,
    MemoryWriteError,
    UnimplementedInstruction,
    InvalidInstructionMode,
    ExpectedMemoryPair,
}

impl EmulatorError {
    /// The human-readable description of the error.
    pub fn message(&self) -> (s: &'static str)
        ensures
            self is MemoryReadError ==> s@ == "Memory read error"@,
            self is MemoryWriteError ==> s@ == "Memory write error"@,
            self is UnimplementedInstruction ==> s@ == "Instruction not implemented"@,
            self is InvalidInstructionMode ==> s@ == "Instruction mode is not a valid mode"@,
            self is ExpectedMemoryPair ==> s@ == "Memory pair was expected but received None"@,
    {
        match self {
            EmulatorError::MemoryReadError => "Memory read error",
            EmulatorError::MemoryWriteError => "Memory write error",
            EmulatorError::UnimplementedInstruction => "Instruction not implemented",
            EmulatorError::InvalidInstructionMode => "Instruction mode is not a valid mode",
            EmulatorError::ExpectedMemoryPair => "Memory pair was expected but received None",
        }
    }
}

} // verus!
