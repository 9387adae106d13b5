//! Operand descriptors and the published instruction timing table.
//!
//! Dispatch is by opcode; each opcode names a mnemonic handler and a closed
//! set of operand descriptors: immediate 8/16, signed 8, high-ram-relative 8,
//! absolute 16, the eight general 8-bit operands including (HL), the five
//! 16-bit pairs, condition codes, RST vectors and bit indices.
//!
//! The spec functions here transcribe the published cycle table: for every
//! opcode, `instr_mcycles` (and `cb_instr_mcycles` for the 0xCB-prefixed set)
//! gives the number of machine cycles the instruction consumes, one machine
//! cycle being four T-cycles.

use vstd::prelude::*;

verus! {

/// The closed operand descriptor set of the instruction tables.
#[derive(Clone, Copy, PartialEq, Eq, Structural, Debug)]
pub enum TargetKind {
    Immediate8,
    Immediate16,
    Address8,
    Address16,
    Signed8,
    A, B, C, D, E, F, H, L,
    AF, BC, DE, HL, SP,
    N, Z,
    NZ, NC, NH,
    RST00, RST08, RST10, RST18, RST20, RST28, RST30, RST38,
    Bit0, Bit1, Bit2, Bit3, Bit4, Bit5, Bit6, Bit7,
}

/// One operand of an instruction: its kind, whether it is used as an
/// immediate value (true) or dereferenced as an address (false), and the
/// post-access HL increment/decrement of the (HL+)/(HL-) forms.
#[derive(Clone, Copy, PartialEq, Eq, Structural, Debug)]
pub struct InstrTarget {
    pub kind: TargetKind,
    pub immediate: bool,
    pub increment: bool,
    pub decrement: bool,
}

impl InstrTarget {
    /// A register or immediate-value operand.
    pub fn val(kind: TargetKind) -> (r: InstrTarget)
        ensures
            r == (InstrTarget { kind, immediate: true, increment: false, decrement: false }),
    {
        InstrTarget { kind, immediate: true, increment: false, decrement: false }
    }

    /// A memory operand: the named quantity is dereferenced as an address.
    pub fn mem(kind: TargetKind) -> (r: InstrTarget)
        ensures
            r == (InstrTarget { kind, immediate: false, increment: false, decrement: false }),
    {
        InstrTarget { kind, immediate: false, increment: false, decrement: false }
    }

    /// The (HL+) operand: dereference HL, then increment it.
    pub fn mem_inc(kind: TargetKind) -> (r: InstrTarget)
        ensures
            r == (InstrTarget { kind, immediate: false, increment: true, decrement: false }),
    {
        InstrTarget { kind, immediate: false, increment: true, decrement: false }
    }

    /// The (HL-) operand: dereference HL, then decrement it.
    pub fn mem_dec(kind: TargetKind) -> (r: InstrTarget)
        ensures
            r == (InstrTarget { kind, immediate: false, increment: false, decrement: true }),
    {
        InstrTarget { kind, immediate: false, increment: false, decrement: true }
    }
}

/// One row of the instruction table: opcode, prefix flag, encoded length in
/// bytes, and machine-cycle counts (`mcycles_taken` applies when a
/// conditional jump, call or return takes its branch; it equals `mcycles`
/// for every unconditional instruction).
#[derive(Clone, Copy, PartialEq, Eq, Structural, Debug)]
pub struct Instruction {
    pub opcode: u8,
    pub prefix: bool,
    pub bytes: u8,
    pub mcycles: u8,
    pub mcycles_taken: u8,
}

/// Machine cycles added when a general 8-bit operand selector (3 bits) names
/// the memory form (HL) rather than a register.
pub open spec fn r8_mem_extra(bits: u8) -> nat {
    if bits == 6 { 1nat } else { 0nat }
}

/// The condition-code field of conditional jumps, calls and returns:
/// 0 is NZ, 1 is Z, 2 is NC, 3 is C.
pub open spec fn cond_holds(f: u8, cc: u8) -> bool {
    if cc == 0 { f & 0x80 == 0 }
    else if cc == 1 { f & 0x80 != 0 }
    else if cc == 2 { f & 0x10 == 0 }
    else { f & 0x10 != 0 }
}

/// Machine cycles consumed by an unprefixed instruction after its opcode
/// fetch. `taken` matters only for the conditional jumps, calls and returns.
pub open spec fn exec_mcycles(op: u8, taken: bool) -> nat {
    if 0x40 <= op && op <= 0x7F {
        // LD r,r' block and HALT.
        if op == 0x76 { 0nat } else { r8_mem_extra((op >> 3) & 7) + r8_mem_extra(op & 7) }
    } else if 0x80 <= op && op <= 0xBF {
        // Arithmetic/logic on A.
        r8_mem_extra(op & 7)
    } else if op == 0x01 || op == 0x11 || op == 0x21 || op == 0x31 {
        2nat  // LD rr,d16
    } else if op == 0x08 {
        4nat  // LD (a16),SP
    } else if op == 0x02 || op == 0x0A || op == 0x12 || op == 0x1A
        || op == 0x22 || op == 0x2A || op == 0x32 || op == 0x3A {
        1nat  // LD between A and (BC)/(DE)/(HL+)/(HL-)
    } else if op == 0x06 || op == 0x0E || op == 0x16 || op == 0x1E
        || op == 0x26 || op == 0x2E || op == 0x3E {
        1nat  // LD r,d8
    } else if op == 0x36 {
        2nat  // LD (HL),d8
    } else if op == 0x03 || op == 0x13 || op == 0x23 || op == 0x33
        || op == 0x0B || op == 0x1B || op == 0x2B || op == 0x3B {
        1nat  // INC rr / DEC rr
    } else if op == 0x34 || op == 0x35 {
        2nat  // INC (HL) / DEC (HL)
    } else if op == 0x09 || op == 0x19 || op == 0x29 || op == 0x39 {
        1nat  // ADD HL,rr
    } else if op == 0x18 {
        2nat  // JR r8
    } else if op == 0x20 || op == 0x28 || op == 0x30 || op == 0x38 {
        if taken { 2nat } else { 1nat }  // JR cc,r8
    } else if op == 0xC6 || op == 0xCE || op == 0xD6 || op == 0xDE
        || op == 0xE6 || op == 0xEE || op == 0xF6 || op == 0xFE {
        1nat  // ALU A,d8
    } else if op == 0xC0 || op == 0xC8 || op == 0xD0 || op == 0xD8 {
        if taken { 4nat } else { 1nat }  // RET cc
    } else if op == 0xC9 || op == 0xD9 {
        3nat  // RET / RETI
    } else if op == 0xC1 || op == 0xD1 || op == 0xE1 || op == 0xF1 {
        2nat  // POP rr
    } else if op == 0xC5 || op == 0xD5 || op == 0xE5 || op == 0xF5 {
        3nat  // PUSH rr
    } else if op == 0xC3 {
        3nat  // JP a16
    } else if op == 0xC2 || op == 0xCA || op == 0xD2 || op == 0xDA {
        if taken { 3nat } else { 2nat }  // JP cc,a16
    } else if op == 0xCD {
        5nat  // CALL a16
    } else if op == 0xC4 || op == 0xCC || op == 0xD4 || op == 0xDC {
        if taken { 5nat } else { 2nat }  // CALL cc,a16
    } else if op == 0xC7 || op == 0xCF || op == 0xD7 || op == 0xDF
        || op == 0xE7 || op == 0xEF || op == 0xF7 || op == 0xFF {
        3nat  // RST
    } else if op == 0xE0 || op == 0xF0 {
        2nat  // LDH (a8),A / LDH A,(a8)
    } else if op == 0xE2 || op == 0xF2 {
        1nat  // LD (C),A / LD A,(C)
    } else if op == 0xEA || op == 0xFA {
        3nat  // LD (a16),A / LD A,(a16)
    } else if op == 0xE8 {
        3nat  // ADD SP,r8
    } else if op == 0xF8 {
        2nat  // LD HL,SP+r8
    } else if op == 0xF9 {
        1nat  // LD SP,HL
    } else {
        // NOP, STOP, the rotate-accumulator group, DAA, CPL, SCF, CCF,
        // JP HL, DI, EI, and the unused encodings (one fetch, nothing more).
        0nat
    }
}

/// Machine cycles consumed by a 0xCB-prefixed instruction after its two
/// opcode fetches: none on a register, one extra read for (HL), plus one
/// extra write for every (HL) form except BIT.
pub open spec fn cb_exec_mcycles(op: u8) -> nat {
    if op & 7 != 6 { 0nat }
    else if 0x40 <= op && op <= 0x7F { 1nat }  // BIT b,(HL): read only
    else { 2nat }
}

/// Total machine cycles of an unprefixed instruction, opcode fetch included:
/// the published timing table.
pub open spec fn instr_mcycles(op: u8, taken: bool) -> nat {
    1 + exec_mcycles(op, taken)
}

/// Total machine cycles of a 0xCB-prefixed instruction, both opcode fetches
/// included: the published timing table.
pub open spec fn cb_instr_mcycles(op: u8) -> nat {
    2 + cb_exec_mcycles(op)
}

/// Encoded length in bytes of an unprefixed instruction.
pub open spec fn instr_bytes(op: u8) -> nat {
    if op == 0x01 || op == 0x11 || op == 0x21 || op == 0x31 || op == 0x08
        || op == 0xC2 || op == 0xC3 || op == 0xC4 || op == 0xCA || op == 0xCC
        || op == 0xCD || op == 0xD2 || op == 0xD4 || op == 0xDA || op == 0xDC
        || op == 0xEA || op == 0xFA {
        3nat
    } else if op == 0x06 || op == 0x0E || op == 0x16 || op == 0x18 || op == 0x1E
        || op == 0x20 || op == 0x26 || op == 0x28 || op == 0x2E || op == 0x30
        || op == 0x36 || op == 0x38 || op == 0x3E || op == 0x10
        || op == 0xC6 || op == 0xCE || op == 0xD6 || op == 0xDE || op == 0xE0
        || op == 0xE6 || op == 0xE8 || op == 0xEE || op == 0xF0 || op == 0xF6
        || op == 0xF8 || op == 0xFE {
        2nat
    } else {
        1nat
    }
}

impl Instruction {
    /// The table row for an opcode: timing and length per the published
    /// tables. Rows of the 0xCB-prefixed table have `prefix` set.
    pub fn lookup(opcode: u8, prefix: bool) -> (r: Instruction)
        ensures
            r.opcode == opcode,
            r.prefix == prefix,
            !prefix ==> r.mcycles == instr_mcycles(opcode, false),
            !prefix ==> r.mcycles_taken == instr_mcycles(opcode, true),
            !prefix ==> r.bytes == instr_bytes(opcode),
            prefix ==> r.mcycles == cb_instr_mcycles(opcode) && r.mcycles_taken == r.mcycles
                && r.bytes == 2,
    {
        if prefix {
            let extra: u8 = if opcode & 7 != 6 {
                0
            } else if 0x40 <= opcode && opcode <= 0x7F {
                1
            } else {
                2
            };
            Instruction { opcode, prefix, bytes: 2, mcycles: 2 + extra, mcycles_taken: 2 + extra }
        } else {
            let base: u8 = 1 + mcycles_of(opcode, false);
            let taken: u8 = 1 + mcycles_of(opcode, true);
            let bytes: u8 = bytes_of(opcode);
            Instruction { opcode, prefix, bytes, mcycles: base, mcycles_taken: taken }
        }
    }
}

/// Executable mirror of `exec_mcycles`.
fn mcycles_of(op: u8, taken: bool) -> (r: u8)
    ensures
        r == exec_mcycles(op, taken),
{
    if 0x40 <= op && op <= 0x7F {
        if op == 0x76 { 0 }
        else {
            let d: u8 = if (op >> 3) & 7 == 6 { 1 } else { 0 };
            let s: u8 = if op & 7 == 6 { 1 } else { 0 };
            d + s
        }
    } else if 0x80 <= op && op <= 0xBF {
        if op & 7 == 6 { 1 } else { 0 }
    } else if op == 0x01 || op == 0x11 || op == 0x21 || op == 0x31 {
        2
    } else if op == 0x08 {
        4
    } else if op == 0x02 || op == 0x0A || op == 0x12 || op == 0x1A
        || op == 0x22 || op == 0x2A || op == 0x32 || op == 0x3A {
        1
    } else if op == 0x06 || op == 0x0E || op == 0x16 || op == 0x1E
        || op == 0x26 || op == 0x2E || op == 0x3E {
        1
    } else if op == 0x36 {
        2
    } else if op == 0x03 || op == 0x13 || op == 0x23 || op == 0x33
        || op == 0x0B || op == 0x1B || op == 0x2B || op == 0x3B {
        1
    } else if op == 0x34 || op == 0x35 {
        2
    } else if op == 0x09 || op == 0x19 || op == 0x29 || op == 0x39 {
        1
    } else if op == 0x18 {
        2
    } else if op == 0x20 || op == 0x28 || op == 0x30 || op == 0x38 {
        if taken { 2 } else { 1 }
    } else if op == 0xC6 || op == 0xCE || op == 0xD6 || op == 0xDE
        || op == 0xE6 || op == 0xEE || op == 0xF6 || op == 0xFE {
        1
    } else if op == 0xC0 || op == 0xC8 || op == 0xD0 || op == 0xD8 {
        if taken { 4 } else { 1 }
    } else if op == 0xC9 || op == 0xD9 {
        3
    } else if op == 0xC1 || op == 0xD1 || op == 0xE1 || op == 0xF1 {
        2
    } else if op == 0xC5 || op == 0xD5 || op == 0xE5 || op == 0xF5 {
        3
    } else if op == 0xC3 {
        3
    } else if op == 0xC2 || op == 0xCA || op == 0xD2 || op == 0xDA {
        if taken { 3 } else { 2 }
    } else if op == 0xCD {
        5
    } else if op == 0xC4 || op == 0xCC || op == 0xD4 || op == 0xDC {
        if taken { 5 } else { 2 }
    } else if op == 0xC7 || op == 0xCF || op == 0xD7 || op == 0xDF
        || op == 0xE7 || op == 0xEF || op == 0xF7 || op == 0xFF {
        3
    } else if op == 0xE0 || op == 0xF0 {
        2
    } else if op == 0xE2 || op == 0xF2 {
        1
    } else if op == 0xEA || op == 0xFA {
        3
    } else if op == 0xE8 {
        3
    } else if op == 0xF8 {
        2
    } else if op == 0xF9 {
        1
    } else {
        0
    }
}

/// Executable mirror of `instr_bytes`.
fn bytes_of(op: u8) -> (r: u8)
    ensures
        r == instr_bytes(op),
{
    if op == 0x01 || op == 0x11 || op == 0x21 || op == 0x31 || op == 0x08
        || op == 0xC2 || op == 0xC3 || op == 0xC4 || op == 0xCA || op == 0xCC
        || op == 0xCD || op == 0xD2 || op == 0xD4 || op == 0xDA || op == 0xDC
        || op == 0xEA || op == 0xFA {
        3
    } else if op == 0x06 || op == 0x0E || op == 0x16 || op == 0x18 || op == 0x1E
        || op == 0x20 || op == 0x26 || op == 0x28 || op == 0x2E || op == 0x30
        || op == 0x36 || op == 0x38 || op == 0x3E || op == 0x10
        || op == 0xC6 || op == 0xCE || op == 0xD6 || op == 0xDE || op == 0xE0
        || op == 0xE6 || op == 0xE8 || op == 0xEE || op == 0xF0 || op == 0xF6
        || op == 0xF8 || op == 0xFE {
        2
    } else {
        1
    }
}

} // verus!
