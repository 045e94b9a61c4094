//! R-type and I-type instruction formats: packing fields into a word and reading them back.
use crate::util::{digits, get_digits, low_ones, ones_in, range_mask, set_one_digits, set_zero_digits, zeros_in};
use vstd::prelude::*;

verus! {

/// Width in bits of every instruction word.
pub const INSTRUCTION_LEN: u32 = 32;

/// An instruction word tagged with its format.
pub enum Instructions {
    R(RType),
    I(IType),
}

/// `value` cut to its `width` low bits and moved up to bit `offset`.
pub open spec fn place(value: u32, width: u32, offset: u32) -> u32 {
    (value & low_ones(width)) << offset
}

/// Places the `width` low bits of `value` at bit `offset`.
fn place_field(value: u32, width: u32, offset: u32) -> (r: u32)
    requires
        1 <= width < 32,
        offset + width <= 32,
    ensures
        r == place(value, width, offset),
{
    assert(1u32 << width >= 1u32) by (bit_vector)
        requires
            width < 32,
    ;
    (value & ((1u32 << width) - 1)) << offset
}

/// The R-type word `|funct7|rs2|rs1|funct3|rd|opcode|`, each field cut to its width.
pub open spec fn rtype_word(funct7: u32, rs2: u32, rs1: u32, funct3: u32, rd: u32, opcode: u32) -> u32 {
    place(funct7, 7, 25) | place(rs2, 5, 20) | place(rs1, 5, 15) | place(funct3, 3, 12) | place(rd, 5, 7)
        | place(opcode, 7, 0)
}

/// The R-type instruction of RISC-V, laid out as `|funct7|rs2|rs1|funct3|rd|opcode|`.
///
/// `funct7` (7 bits) and `funct3` (3 bits) refine the operation, `rs2` and `rs1` (5 bits each)
/// are the source registers, `rd` (5 bits) the destination register and `opcode` (7 bits) the
/// basic operation.
#[derive(Clone, Copy, PartialEq, Eq, Structural, Debug)]
pub struct RType(pub u32);

impl RType {
    pub const FUNC7T_LEN: u32 = 7;
    pub const RS2_LEN: u32 = 5;
    pub const RS1_LEN: u32 = 5;
    pub const FUNCT3_LEN: u32 = 3;
    pub const RD_LEN: u32 = 5;
    pub const OPCODE_LEN: u32 = 7;

    pub open spec fn funct7_of(self) -> u32 {
        digits(self.0, 25, 31)
    }

    pub open spec fn rs2_of(self) -> u32 {
        digits(self.0, 20, 24)
    }

    pub open spec fn rs1_of(self) -> u32 {
        digits(self.0, 15, 19)
    }

    pub open spec fn funct3_of(self) -> u32 {
        digits(self.0, 12, 14)
    }

    pub open spec fn rd_of(self) -> u32 {
        digits(self.0, 7, 11)
    }

    pub open spec fn opcode_of(self) -> u32 {
        digits(self.0, 0, 6)
    }

    /// Packs the fields into an R-type word; each is cut to its width.
    pub fn new(func7: u8, rs2: u8, rs1: u8, funct3: u8, rd: u8, opcode: u8) -> (r: RType)
        ensures
            r.0 == rtype_word(func7 as u32, rs2 as u32, rs1 as u32, funct3 as u32, rd as u32, opcode as u32),
            r.funct7_of() == func7 as u32 % 128,
            r.rs2_of() == rs2 as u32 % 32,
            r.rs1_of() == rs1 as u32 % 32,
            r.funct3_of() == funct3 as u32 % 8,
            r.rd_of() == rd as u32 % 32,
            r.opcode_of() == opcode as u32 % 128,
    {
        let mut instruction: u32 = 0;
        instruction = instruction | place_field(opcode as u32, Self::OPCODE_LEN, 0);
        instruction = instruction | place_field(rd as u32, Self::RD_LEN, Self::OPCODE_LEN);
        instruction = instruction | place_field(funct3 as u32, Self::FUNCT3_LEN, Self::OPCODE_LEN + Self::RD_LEN);
        instruction = instruction | place_field(
            rs1 as u32,
            Self::RS1_LEN,
            Self::OPCODE_LEN + Self::RD_LEN + Self::FUNCT3_LEN,
        );
        instruction = instruction | place_field(
            rs2 as u32,
            Self::RS2_LEN,
            Self::OPCODE_LEN + Self::RD_LEN + Self::FUNCT3_LEN + Self::RS1_LEN,
        );
        instruction = instruction | place_field(
            func7 as u32,
            Self::FUNC7T_LEN,
            Self::OPCODE_LEN + Self::RD_LEN + Self::FUNCT3_LEN + Self::RS1_LEN + Self::RS2_LEN,
        );
        let r = RType(instruction);
        proof {
            let (a, b, c, d, e, f) = (func7 as u32, rs2 as u32, rs1 as u32, funct3 as u32, rd as u32, opcode as u32);
            assert(instruction == rtype_word(a, b, c, d, e, f)) by (bit_vector)
                requires
                    instruction == 0u32 | place(f, 7, 0) | place(e, 5, 7) | place(d, 3, 12) | place(c, 5, 15)
                        | place(b, 5, 20) | place(a, 7, 25),
            ;
            lemma_rtype_unpack_pack(a, b, c, d, e, f);
        }
        r
    }

    /// The `funct7` field.
    #[inline]
    pub fn get_func7(&self) -> (r: u32)
        ensures
            r == self.funct7_of(),
    {
        get_digits(
            self.0,
            Self::OPCODE_LEN + Self::RD_LEN + Self::FUNCT3_LEN + Self::RS1_LEN + Self::RS2_LEN,
            Self::OPCODE_LEN + Self::RD_LEN + Self::FUNCT3_LEN + Self::RS1_LEN + Self::RS2_LEN
                + Self::FUNC7T_LEN - 1,
        )
    }

    /// The `rs2` field.
    #[inline]
    pub fn get_rs2(&self) -> (r: u32)
        ensures
            r == self.rs2_of(),
    {
        get_digits(
            self.0,
            Self::OPCODE_LEN + Self::RD_LEN + Self::FUNCT3_LEN + Self::RS1_LEN,
            Self::OPCODE_LEN + Self::RD_LEN + Self::FUNCT3_LEN + Self::RS1_LEN + Self::RS2_LEN - 1,
        )
    }

    /// The `rs1` field.
    #[inline]
    pub fn get_rs1(&self) -> (r: u32)
        ensures
            r == self.rs1_of(),
    {
        get_digits(
            self.0,
            Self::OPCODE_LEN + Self::RD_LEN + Self::FUNCT3_LEN,
            Self::OPCODE_LEN + Self::RD_LEN + Self::FUNCT3_LEN + Self::RS1_LEN - 1,
        )
    }

    /// The `funct3` field.
    #[inline]
    pub fn get_funct3(&self) -> (r: u32)
        ensures
            r == self.funct3_of(),
    {
        get_digits(self.0, Self::OPCODE_LEN + Self::RD_LEN, Self::OPCODE_LEN + Self::RD_LEN + Self::FUNCT3_LEN - 1)
    }

    /// The `rd` field.
    #[inline]
    pub fn get_rd(&self) -> (r: u32)
        ensures
            r == self.rd_of(),
    {
        get_digits(self.0, Self::OPCODE_LEN, Self::OPCODE_LEN + Self::RD_LEN - 1)
    }

    /// The `opcode` field.
    #[inline]
    pub fn get_opcode(&self) -> (r: u32)
        ensures
            r == self.opcode_of(),
    {
        get_digits(self.0, 0, Self::OPCODE_LEN - 1)
    }
}

/// Reading the fields of a packed R-type word gives back each input cut to its width.
pub proof fn lemma_rtype_unpack_pack(funct7: u32, rs2: u32, rs1: u32, funct3: u32, rd: u32, opcode: u32)
    ensures
        RType(rtype_word(funct7, rs2, rs1, funct3, rd, opcode)).funct7_of() == funct7 % 128,
        RType(rtype_word(funct7, rs2, rs1, funct3, rd, opcode)).rs2_of() == rs2 % 32,
        RType(rtype_word(funct7, rs2, rs1, funct3, rd, opcode)).rs1_of() == rs1 % 32,
        RType(rtype_word(funct7, rs2, rs1, funct3, rd, opcode)).funct3_of() == funct3 % 8,
        RType(rtype_word(funct7, rs2, rs1, funct3, rd, opcode)).rd_of() == rd % 32,
        RType(rtype_word(funct7, rs2, rs1, funct3, rd, opcode)).opcode_of() == opcode % 128,
{
    let w = rtype_word(funct7, rs2, rs1, funct3, rd, opcode);
    assert(digits(w, 25, 31) == funct7 % 128) by (bit_vector)
        requires
            w == rtype_word(funct7, rs2, rs1, funct3, rd, opcode),
    ;
    assert(digits(w, 20, 24) == rs2 % 32) by (bit_vector)
        requires
            w == rtype_word(funct7, rs2, rs1, funct3, rd, opcode),
    ;
    assert(digits(w, 15, 19) == rs1 % 32) by (bit_vector)
        requires
            w == rtype_word(funct7, rs2, rs1, funct3, rd, opcode),
    ;
    assert(digits(w, 12, 14) == funct3 % 8) by (bit_vector)
        requires
            w == rtype_word(funct7, rs2, rs1, funct3, rd, opcode),
    ;
    assert(digits(w, 7, 11) == rd % 32) by (bit_vector)
        requires
            w == rtype_word(funct7, rs2, rs1, funct3, rd, opcode),
    ;
    assert(digits(w, 0, 6) == opcode % 128) by (bit_vector)
        requires
            w == rtype_word(funct7, rs2, rs1, funct3, rd, opcode),
    ;
}

/// The I-type word `|immediate|rs1|funct3|rd|opcode|`, each field cut to its width.
pub open spec fn itype_word(immediate: u32, rs1: u32, funct3: u32, rd: u32, opcode: u32) -> u32 {
    place(immediate, 12, 20) | place(rs1, 5, 15) | place(funct3, 3, 12) | place(rd, 5, 7) | place(opcode, 7, 0)
}

/// The value of a 12-bit two's-complement pattern `raw` (below 4096).
pub open spec fn signed12(raw: u32) -> int {
    if raw >= 2048 {
        raw - 4096
    } else {
        raw as int
    }
}

/// The I-type instruction of RISC-V, laid out as `|immediate|rs1|funct3|rd|opcode|`.
///
/// `immediate` (12 bits) is a two's-complement value, `rs1` (5 bits) the source or base
/// register, `funct3` (3 bits) refines the operation, `rd` (5 bits) is the destination
/// register and `opcode` (7 bits) the basic operation.
#[derive(Clone, Copy, PartialEq, Eq, Structural, Debug)]
pub struct IType(pub u32);

impl IType {
    pub const IMMEDIATE_LEN: u32 = 12;
    pub const RS1_LEN: u32 = 5;
    pub const FUNCT3_LEN: u32 = 3;
    pub const RD_LEN: u32 = 5;
    pub const OPCODE_LEN: u32 = 7;

    /// The signed value of the immediate.
    pub open spec fn immediate_of(self) -> int {
        signed12(digits(self.0, 20, 31))
    }

    pub open spec fn rs1_of(self) -> u32 {
        digits(self.0, 15, 19)
    }

    pub open spec fn funct3_of(self) -> u32 {
        digits(self.0, 12, 14)
    }

    pub open spec fn rd_of(self) -> u32 {
        digits(self.0, 7, 11)
    }

    pub open spec fn opcode_of(self) -> u32 {
        digits(self.0, 0, 6)
    }

    /// Packs the fields into an I-type word; the immediate keeps the low 12 bits of its
    /// two's-complement pattern, the other fields are cut to their widths.
    pub fn new(immediate: i16, rs1: u8, funct3: u8, rd: u8, opcode: u8) -> (r: IType)
        ensures
            r.0 == itype_word(immediate as u16 as u32, rs1 as u32, funct3 as u32, rd as u32, opcode as u32),
            r.immediate_of() == signed12(immediate as u16 as u32 % 4096),
            -2048 <= immediate < 2048 ==> r.immediate_of() == immediate as int,
            r.rs1_of() == rs1 as u32 % 32,
            r.funct3_of() == funct3 as u32 % 8,
            r.rd_of() == rd as u32 % 32,
            r.opcode_of() == opcode as u32 % 128,
    {
        let bits: u16 = immediate as u16;
        let mut instruction: u32 = 0;
        instruction = instruction | place_field(opcode as u32, Self::OPCODE_LEN, 0);
        instruction = instruction | place_field(rd as u32, Self::RD_LEN, Self::OPCODE_LEN);
        instruction = instruction | place_field(funct3 as u32, Self::FUNCT3_LEN, Self::OPCODE_LEN + Self::RD_LEN);
        instruction = instruction | place_field(
            rs1 as u32,
            Self::RS1_LEN,
            Self::OPCODE_LEN + Self::RD_LEN + Self::FUNCT3_LEN,
        );
        instruction = instruction | place_field(
            bits as u32,
            Self::IMMEDIATE_LEN,
            Self::OPCODE_LEN + Self::RD_LEN + Self::FUNCT3_LEN + Self::RS1_LEN,
        );
        let r = IType(instruction);
        proof {
            let (a, c, d, e, f) = (bits as u32, rs1 as u32, funct3 as u32, rd as u32, opcode as u32);
            assert(instruction == itype_word(a, c, d, e, f)) by (bit_vector)
                requires
                    instruction == 0u32 | place(f, 7, 0) | place(e, 5, 7) | place(d, 3, 12) | place(c, 5, 15)
                        | place(a, 12, 20),
            ;
            lemma_itype_unpack_pack(a, c, d, e, f);
            lemma_immediate_pattern(immediate);
        }
        r
    }

    /// The immediate, sign-extended from its top bit.
    #[inline]
    pub fn get_immediate(&self) -> (r: i32)
        ensures
            r as int == self.immediate_of(),
    {
        let raw = get_digits(self.0, Self::OPCODE_LEN + Self::RD_LEN + Self::FUNCT3_LEN + Self::RS1_LEN, 31);
        let res: u32;
        if get_digits(raw, 11, 11) == 1 {
            res = set_one_digits(raw, 12, 31);
        } else {
            res = set_zero_digits(raw, 12, 31);
        }
        let w = self.0;
        assert(raw < 4096) by (bit_vector)
            requires
                raw == digits(w, 20, 31),
        ;
        assert(digits(raw, 11, 11) == 1 <==> raw >= 2048) by (bit_vector)
            requires
                raw < 4096,
        ;
        assert(raw >= 2048 ==> (res as i32) as int == raw as int - 4096) by (bit_vector)
            requires
                raw < 4096,
                raw >= 2048 ==> res == ones_in(raw, 12, 31),
        ;
        assert(raw < 2048 ==> (res as i32) as int == raw as int) by (bit_vector)
            requires
                raw < 2048 ==> res == zeros_in(raw, 12, 31),
        ;
        res as i32
    }

    /// The `rs1` field.
    #[inline]
    pub fn get_rs1(&self) -> (r: u32)
        ensures
            r == self.rs1_of(),
    {
        get_digits(
            self.0,
            Self::OPCODE_LEN + Self::RD_LEN + Self::FUNCT3_LEN,
            Self::OPCODE_LEN + Self::RD_LEN + Self::FUNCT3_LEN + Self::RS1_LEN - 1,
        )
    }

    /// The `funct3` field.
    #[inline]
    pub fn get_funct3(&self) -> (r: u32)
        ensures
            r == self.funct3_of(),
    {
        get_digits(self.0, Self::OPCODE_LEN + Self::RD_LEN, Self::OPCODE_LEN + Self::RD_LEN + Self::FUNCT3_LEN - 1)
    }

    /// The `rd` field.
    #[inline]
    pub fn get_rd(&self) -> (r: u32)
        ensures
            r == self.rd_of(),
    {
        get_digits(self.0, Self::OPCODE_LEN, Self::OPCODE_LEN + Self::RD_LEN - 1)
    }

    /// The `opcode` field.
    #[inline]
    pub fn get_opcode(&self) -> (r: u32)
        ensures
            r == self.opcode_of(),
    {
        get_digits(self.0, 0, Self::OPCODE_LEN - 1)
    }
}

/// The low 12 bits of the two's-complement pattern of `imm` read back as a 12-bit
/// two's-complement value give `imm` whenever it lies in -2048..=2047.
pub proof fn lemma_immediate_pattern(imm: i16)
    ensures
        -2048 <= imm < 2048 ==> signed12(imm as u16 as u32 % 4096) == imm as int,
{
    let raw = imm as u16 as u32 % 4096;
    assert(0 <= imm < 2048 ==> raw as int == imm as int) by (bit_vector)
        requires
            raw == imm as u16 as u32 % 4096,
    ;
    assert(-2048 <= imm < 0 ==> raw >= 2048 && raw as int - 4096 == imm as int) by (bit_vector)
        requires
            raw == imm as u16 as u32 % 4096,
    ;
}

/// Reading the fields of a packed I-type word gives back each input cut to its width; the
/// immediate comes back as the value of its low 12 bits.
pub proof fn lemma_itype_unpack_pack(immediate: u32, rs1: u32, funct3: u32, rd: u32, opcode: u32)
    ensures
        digits(itype_word(immediate, rs1, funct3, rd, opcode), 20, 31) == immediate % 4096,
        IType(itype_word(immediate, rs1, funct3, rd, opcode)).immediate_of() == signed12(immediate % 4096),
        IType(itype_word(immediate, rs1, funct3, rd, opcode)).rs1_of() == rs1 % 32,
        IType(itype_word(immediate, rs1, funct3, rd, opcode)).funct3_of() == funct3 % 8,
        IType(itype_word(immediate, rs1, funct3, rd, opcode)).rd_of() == rd % 32,
        IType(itype_word(immediate, rs1, funct3, rd, opcode)).opcode_of() == opcode % 128,
{
    let w = itype_word(immediate, rs1, funct3, rd, opcode);
    assert(digits(w, 20, 31) == immediate % 4096) by (bit_vector)
        requires
            w == itype_word(immediate, rs1, funct3, rd, opcode),
    ;
    assert(digits(w, 15, 19) == rs1 % 32) by (bit_vector)
        requires
            w == itype_word(immediate, rs1, funct3, rd, opcode),
    ;
    assert(digits(w, 12, 14) == funct3 % 8) by (bit_vector)
        requires
            w == itype_word(immediate, rs1, funct3, rd, opcode),
    ;
    assert(digits(w, 7, 11) == rd % 32) by (bit_vector)
        requires
            w == itype_word(immediate, rs1, funct3, rd, opcode),
    ;
    assert(digits(w, 0, 6) == opcode % 128) by (bit_vector)
        requires
            w == itype_word(immediate, rs1, funct3, rd, opcode),
    ;
}

/// The fields of an R-type instruction as small host integers, for comparison and display.
#[derive(Clone, Copy, PartialEq, Eq, Structural, Debug)]
pub struct RTypeDebug {
    pub funct7: u8,
    pub rs2: u8,
    pub rs1: u8,
    pub funct3: u8,
    pub rd: u8,
    pub opcode: u8,
}

impl From<RType> for RTypeDebug {
    fn from(rtype: RType) -> RTypeDebug {
        RTypeDebug {
            funct7: rtype.get_func7() as u8,
            rs2: rtype.get_rs2() as u8,
            rs1: rtype.get_rs1() as u8,
            funct3: rtype.get_funct3() as u8,
            rd: rtype.get_rd() as u8,
            opcode: rtype.get_opcode() as u8,
        }
    }
}

impl vstd::std_specs::convert::FromSpecImpl<RType> for RTypeDebug {
    open spec fn obeys_from_spec() -> bool {
        true
    }

    /// Every R-type field is at most 7 bits wide, so each fits its `u8` unchanged.
    open spec fn from_spec(rtype: RType) -> RTypeDebug {
        RTypeDebug {
            funct7: rtype.funct7_of() as u8,
            rs2: rtype.rs2_of() as u8,
            rs1: rtype.rs1_of() as u8,
            funct3: rtype.funct3_of() as u8,
            rd: rtype.rd_of() as u8,
            opcode: rtype.opcode_of() as u8,
        }
    }
}

impl From<u32> for RType {
    fn from(inst: u32) -> RType {
        RType(inst)
    }
}

impl vstd::std_specs::convert::FromSpecImpl<u32> for RType {
    open spec fn obeys_from_spec() -> bool {
        true
    }

    open spec fn from_spec(inst: u32) -> RType {
        RType(inst)
    }
}

/// The fields of an I-type instruction as small host integers, for comparison and display.
#[derive(Clone, Copy, PartialEq, Eq, Structural, Debug)]
pub struct ITypeDebug {
    pub immediate: i16,
    pub rs1: u8,
    pub funct3: u8,
    pub rd: u8,
    pub opcode: u8,
}

impl From<IType> for ITypeDebug {
    fn from(i_inst: IType) -> ITypeDebug {
        ITypeDebug {
            immediate: i_inst.get_immediate() as i16,
            rs1: i_inst.get_rs1() as u8,
            funct3: i_inst.get_funct3() as u8,
            rd: i_inst.get_rd() as u8,
            opcode: i_inst.get_opcode() as u8,
        }
    }
}

impl vstd::std_specs::convert::FromSpecImpl<IType> for ITypeDebug {
    open spec fn obeys_from_spec() -> bool {
        true
    }

    /// The immediate lies in -2048..=2047 and the other fields are at most 7 bits wide, so
    /// each fits its narrower integer unchanged.
    open spec fn from_spec(i_inst: IType) -> ITypeDebug {
        ITypeDebug {
            immediate: i_inst.immediate_of() as i16,
            rs1: i_inst.rs1_of() as u8,
            funct3: i_inst.funct3_of() as u8,
            rd: i_inst.rd_of() as u8,
            opcode: i_inst.opcode_of() as u8,
        }
    }
}

impl From<u32> for IType {
    fn from(inst: u32) -> IType {
        IType(inst)
    }
}

impl vstd::std_specs::convert::FromSpecImpl<u32> for IType {
    open spec fn obeys_from_spec() -> bool {
        true
    }

    open spec fn from_spec(inst: u32) -> IType {
        IType(inst)
    }
}

/// For fields within their widths, reading back a packed R-type word gives exactly the fields.
pub proof fn lemma_rtype_round_trip(funct7: u32, rs2: u32, rs1: u32, funct3: u32, rd: u32, opcode: u32)
    requires
        funct7 < 128,
        rs2 < 32,
        rs1 < 32,
        funct3 < 8,
        rd < 32,
        opcode < 128,
    ensures
        RType(rtype_word(funct7, rs2, rs1, funct3, rd, opcode)).funct7_of() == funct7,
        RType(rtype_word(funct7, rs2, rs1, funct3, rd, opcode)).rs2_of() == rs2,
        RType(rtype_word(funct7, rs2, rs1, funct3, rd, opcode)).rs1_of() == rs1,
        RType(rtype_word(funct7, rs2, rs1, funct3, rd, opcode)).funct3_of() == funct3,
        RType(rtype_word(funct7, rs2, rs1, funct3, rd, opcode)).rd_of() == rd,
        RType(rtype_word(funct7, rs2, rs1, funct3, rd, opcode)).opcode_of() == opcode,
{
    lemma_rtype_unpack_pack(funct7, rs2, rs1, funct3, rd, opcode);
}

/// Packing the fields read from any R-type word rebuilds that word bit for bit.
pub proof fn lemma_rtype_repack(inst: RType)
    ensures
        rtype_word(inst.funct7_of(), inst.rs2_of(), inst.rs1_of(), inst.funct3_of(), inst.rd_of(), inst.opcode_of())
            == inst.0,
{
    let w = inst.0;
    assert(rtype_word(digits(w, 25, 31), digits(w, 20, 24), digits(w, 15, 19), digits(w, 12, 14), digits(w, 7, 11), digits(w, 0, 6)) == w) by (bit_vector);
}

/// For an immediate in -2048..=2047 and the other fields within their widths, reading back a
/// packed I-type word gives exactly the fields.
pub proof fn lemma_itype_round_trip(immediate: i16, rs1: u32, funct3: u32, rd: u32, opcode: u32)
    requires
        -2048 <= immediate < 2048,
        rs1 < 32,
        funct3 < 8,
        rd < 32,
        opcode < 128,
    ensures
        IType(itype_word(immediate as u16 as u32, rs1, funct3, rd, opcode)).immediate_of() == immediate as int,
        IType(itype_word(immediate as u16 as u32, rs1, funct3, rd, opcode)).rs1_of() == rs1,
        IType(itype_word(immediate as u16 as u32, rs1, funct3, rd, opcode)).funct3_of() == funct3,
        IType(itype_word(immediate as u16 as u32, rs1, funct3, rd, opcode)).rd_of() == rd,
        IType(itype_word(immediate as u16 as u32, rs1, funct3, rd, opcode)).opcode_of() == opcode,
{
    lemma_itype_unpack_pack(immediate as u16 as u32, rs1, funct3, rd, opcode);
    lemma_immediate_pattern(immediate);
}

/// Packing the fields read from any I-type word, the immediate as its 12-bit pattern,
/// rebuilds that word bit for bit.
pub proof fn lemma_itype_repack(inst: IType)
    ensures
        itype_word(digits(inst.0, 20, 31), inst.rs1_of(), inst.funct3_of(), inst.rd_of(), inst.opcode_of()) == inst.0,
{
    let w = inst.0;
    assert(itype_word(digits(w, 20, 31), digits(w, 15, 19), digits(w, 12, 14), digits(w, 7, 11), digits(w, 0, 6)) == w) by (bit_vector);
}

/// A placed field sets no bit outside the range `offset..offset + width`.
pub proof fn lemma_place_within_range(value: u32, width: u32, offset: u32)
    requires
        1 <= width < 32,
        offset + width <= 32,
    ensures
        place(value, width, offset) & !range_mask(offset, (offset + width - 1) as u32) == 0,
{
    assert(place(value, width, offset) & !range_mask(offset, (offset + width - 1) as u32) == 0) by (bit_vector)
        requires
            1 <= width < 32,
            offset + width <= 32,
    ;
}

/// The R-type fields occupy disjoint bit ranges that together cover the word, and packing one
/// field as all ones with the others zero sets exactly that field's range.
pub proof fn lemma_rtype_layout()
    ensures
        range_mask(25, 31) & range_mask(20, 24) == 0,
        range_mask(25, 31) & range_mask(15, 19) == 0,
        range_mask(25, 31) & range_mask(12, 14) == 0,
        range_mask(25, 31) & range_mask(7, 11) == 0,
        range_mask(25, 31) & range_mask(0, 6) == 0,
        range_mask(20, 24) & range_mask(15, 19) == 0,
        range_mask(20, 24) & range_mask(12, 14) == 0,
        range_mask(20, 24) & range_mask(7, 11) == 0,
        range_mask(20, 24) & range_mask(0, 6) == 0,
        range_mask(15, 19) & range_mask(12, 14) == 0,
        range_mask(15, 19) & range_mask(7, 11) == 0,
        range_mask(15, 19) & range_mask(0, 6) == 0,
        range_mask(12, 14) & range_mask(7, 11) == 0,
        range_mask(12, 14) & range_mask(0, 6) == 0,
        range_mask(7, 11) & range_mask(0, 6) == 0,
        range_mask(25, 31) | range_mask(20, 24) | range_mask(15, 19) | range_mask(12, 14) | range_mask(7, 11)
            | range_mask(0, 6) == 0xffff_ffffu32,
        rtype_word(127, 0, 0, 0, 0, 0) == range_mask(25, 31),
        rtype_word(0, 31, 0, 0, 0, 0) == range_mask(20, 24),
        rtype_word(0, 0, 31, 0, 0, 0) == range_mask(15, 19),
        rtype_word(0, 0, 0, 7, 0, 0) == range_mask(12, 14),
        rtype_word(0, 0, 0, 0, 31, 0) == range_mask(7, 11),
        rtype_word(0, 0, 0, 0, 0, 127) == range_mask(0, 6),
{
    assert(range_mask(25, 31) & range_mask(20, 24) == 0 && range_mask(25, 31) & range_mask(15, 19) == 0
        && range_mask(25, 31) & range_mask(12, 14) == 0 && range_mask(25, 31) & range_mask(7, 11) == 0
        && range_mask(25, 31) & range_mask(0, 6) == 0 && range_mask(20, 24) & range_mask(15, 19) == 0
        && range_mask(20, 24) & range_mask(12, 14) == 0 && range_mask(20, 24) & range_mask(7, 11) == 0
        && range_mask(20, 24) & range_mask(0, 6) == 0 && range_mask(15, 19) & range_mask(12, 14) == 0
        && range_mask(15, 19) & range_mask(7, 11) == 0 && range_mask(15, 19) & range_mask(0, 6) == 0
        && range_mask(12, 14) & range_mask(7, 11) == 0 && range_mask(12, 14) & range_mask(0, 6) == 0
        && range_mask(7, 11) & range_mask(0, 6) == 0) by (bit_vector);
    assert(range_mask(25, 31) | range_mask(20, 24) | range_mask(15, 19) | range_mask(12, 14) | range_mask(7, 11)
        | range_mask(0, 6) == 0xffff_ffffu32) by (bit_vector);
    assert(rtype_word(127, 0, 0, 0, 0, 0) == range_mask(25, 31) && rtype_word(0, 31, 0, 0, 0, 0) == range_mask(20, 24)
        && rtype_word(0, 0, 31, 0, 0, 0) == range_mask(15, 19) && rtype_word(0, 0, 0, 7, 0, 0) == range_mask(12, 14)
        && rtype_word(0, 0, 0, 0, 31, 0) == range_mask(7, 11) && rtype_word(0, 0, 0, 0, 0, 127) == range_mask(0, 6))
        by (bit_vector);
}

/// The I-type fields occupy disjoint bit ranges that together cover the word, and packing one
/// field as all ones with the others zero sets exactly that field's range.
pub proof fn lemma_itype_layout()
    ensures
        range_mask(20, 31) & range_mask(15, 19) == 0,
        range_mask(20, 31) & range_mask(12, 14) == 0,
        range_mask(20, 31) & range_mask(7, 11) == 0,
        range_mask(20, 31) & range_mask(0, 6) == 0,
        range_mask(15, 19) & range_mask(12, 14) == 0,
        range_mask(15, 19) & range_mask(7, 11) == 0,
        range_mask(15, 19) & range_mask(0, 6) == 0,
        range_mask(12, 14) & range_mask(7, 11) == 0,
        range_mask(12, 14) & range_mask(0, 6) == 0,
        range_mask(7, 11) & range_mask(0, 6) == 0,
        range_mask(20, 31) | range_mask(15, 19) | range_mask(12, 14) | range_mask(7, 11) | range_mask(0, 6)
            == 0xffff_ffffu32,
        itype_word(4095, 0, 0, 0, 0) == range_mask(20, 31),
        itype_word(0, 31, 0, 0, 0) == range_mask(15, 19),
        itype_word(0, 0, 7, 0, 0) == range_mask(12, 14),
        itype_word(0, 0, 0, 31, 0) == range_mask(7, 11),
        itype_word(0, 0, 0, 0, 127) == range_mask(0, 6),
{
    assert(range_mask(20, 31) & range_mask(15, 19) == 0 && range_mask(20, 31) & range_mask(12, 14) == 0
        && range_mask(20, 31) & range_mask(7, 11) == 0 && range_mask(20, 31) & range_mask(0, 6) == 0
        && range_mask(15, 19) & range_mask(12, 14) == 0 && range_mask(15, 19) & range_mask(7, 11) == 0
        && range_mask(15, 19) & range_mask(0, 6) == 0 && range_mask(12, 14) & range_mask(7, 11) == 0
        && range_mask(12, 14) & range_mask(0, 6) == 0 && range_mask(7, 11) & range_mask(0, 6) == 0) by (bit_vector);
    assert(range_mask(20, 31) | range_mask(15, 19) | range_mask(12, 14) | range_mask(7, 11) | range_mask(0, 6)
        == 0xffff_ffffu32) by (bit_vector);
    assert(itype_word(4095, 0, 0, 0, 0) == range_mask(20, 31) && itype_word(0, 31, 0, 0, 0) == range_mask(15, 19)
        && itype_word(0, 0, 7, 0, 0) == range_mask(12, 14) && itype_word(0, 0, 0, 31, 0) == range_mask(7, 11)
        && itype_word(0, 0, 0, 0, 127) == range_mask(0, 6)) by (bit_vector);
}

/// Every field read from a word fits the narrower integer of its debug view unchanged.
pub proof fn lemma_debug_fields_fit(r: RType, i: IType)
    ensures
        r.funct7_of() as u8 as u32 == r.funct7_of(),
        r.rs2_of() as u8 as u32 == r.rs2_of(),
        r.rs1_of() as u8 as u32 == r.rs1_of(),
        r.funct3_of() as u8 as u32 == r.funct3_of(),
        r.rd_of() as u8 as u32 == r.rd_of(),
        r.opcode_of() as u8 as u32 == r.opcode_of(),
        -2048 <= i.immediate_of() < 2048,
        i.immediate_of() as i16 as int == i.immediate_of(),
        i.rs1_of() as u8 as u32 == i.rs1_of(),
        i.funct3_of() as u8 as u32 == i.funct3_of(),
        i.rd_of() as u8 as u32 == i.rd_of(),
        i.opcode_of() as u8 as u32 == i.opcode_of(),
{
    let (a, b) = (r.0, i.0);
    assert(digits(a, 25, 31) < 128 && digits(a, 20, 24) < 32 && digits(a, 15, 19) < 32 && digits(a, 12, 14) < 8
        && digits(a, 7, 11) < 32 && digits(a, 0, 6) < 128) by (bit_vector);
    assert(digits(b, 20, 31) < 4096 && digits(b, 15, 19) < 32 && digits(b, 12, 14) < 8 && digits(b, 7, 11) < 32
        && digits(b, 0, 6) < 128) by (bit_vector);
}

impl core::ops::Deref for RType {
    type Target = u32;

    fn deref(&self) -> &u32 {
        &self.0
    }
}

impl core::ops::Deref for IType {
    type Target = u32;

    fn deref(&self) -> &u32 {
        &self.0
    }
}

impl core::ops::DerefMut for RType {
    fn deref_mut(&mut self) -> &mut u32 {
        &mut self.0
    }
}

impl core::ops::DerefMut for IType {
    fn deref_mut(&mut self) -> &mut u32 {
        &mut self.0
    }
}

} // verus!
